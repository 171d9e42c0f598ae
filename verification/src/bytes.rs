//! Searching a byte string for a marker.

use vstd::prelude::*;

verus! {

/// `pattern` stands in `data` at position `at`.
pub open spec fn matches_at(data: Seq<u8>, pattern: Seq<u8>, at: int) -> bool {
    &&& 0 <= at
    &&& at + pattern.len() <= data.len()
    &&& data.subrange(at, at + pattern.len()) == pattern
}

/// The position of the first occurrence of `pattern` at or after `from`.
pub open spec fn first_match_from(data: Seq<u8>, pattern: Seq<u8>, from: int) -> Option<int>
    decreases data.len() - from + 1,
{
    if from < 0 || from + pattern.len() > data.len() {
        None
    } else if matches_at(data, pattern, from) {
        Some(from)
    } else {
        first_match_from(data, pattern, from + 1)
    }
}

/// The position of the first occurrence of `pattern` in `data`.
pub open spec fn first_match(data: Seq<u8>, pattern: Seq<u8>) -> Option<int> {
    first_match_from(data, pattern, 0)
}

/// The position of the last occurrence of `pattern` that starts before `below`.
pub open spec fn last_match_below(data: Seq<u8>, pattern: Seq<u8>, below: int) -> Option<int>
    decreases below,
{
    if below <= 0 {
        None
    } else if matches_at(data, pattern, below - 1) {
        Some(below - 1)
    } else {
        last_match_below(data, pattern, below - 1)
    }
}

/// The position of the last occurrence of `pattern` in `data`.
pub open spec fn last_match(data: Seq<u8>, pattern: Seq<u8>) -> Option<int> {
    if pattern.len() > data.len() {
        None
    } else {
        last_match_below(data, pattern, data.len() - pattern.len() + 1)
    }
}

/// What `first_match_from` finds is an occurrence, nothing between `from`
/// and it is one, and it finds nothing only where there is none.
pub proof fn lemma_first_match_from(data: Seq<u8>, pattern: Seq<u8>, from: int)
    requires
        0 <= from,
    ensures
        match first_match_from(data, pattern, from) {
            Some(at) => {
                &&& from <= at
                &&& matches_at(data, pattern, at)
                &&& forall|j: int| from <= j < at ==> !matches_at(data, pattern, j)
            },
            None => forall|j: int| from <= j ==> !matches_at(data, pattern, j),
        },
    decreases data.len() - from + 1,
{
    if from + pattern.len() > data.len() {
    } else if matches_at(data, pattern, from) {
    } else {
        lemma_first_match_from(data, pattern, from + 1);
    }
}

/// What `last_match_below` finds is an occurrence, nothing between it and
/// `below` is one, and it finds nothing only where there is none.
pub proof fn lemma_last_match_below(data: Seq<u8>, pattern: Seq<u8>, below: int)
    ensures
        match last_match_below(data, pattern, below) {
            Some(at) => {
                &&& at < below
                &&& matches_at(data, pattern, at)
                &&& forall|j: int| at < j < below ==> !matches_at(data, pattern, j)
            },
            None => forall|j: int| j < below ==> !matches_at(data, pattern, j),
        },
    decreases below,
{
    if below <= 0 {
    } else if matches_at(data, pattern, below - 1) {
    } else {
        lemma_last_match_below(data, pattern, below - 1);
    }
}

/// The first occurrence is the least position at which the pattern stands.
pub proof fn lemma_first_match_is_least(data: Seq<u8>, pattern: Seq<u8>)
    ensures
        match first_match(data, pattern) {
            Some(at) => matches_at(data, pattern, at) && forall|j: int|
                j < at ==> !matches_at(data, pattern, j),
            None => forall|j: int| !matches_at(data, pattern, j),
        },
{
    lemma_first_match_from(data, pattern, 0);
}

/// The last occurrence is the greatest position at which the pattern stands.
pub proof fn lemma_last_match_is_greatest(data: Seq<u8>, pattern: Seq<u8>)
    ensures
        match last_match(data, pattern) {
            Some(at) => matches_at(data, pattern, at) && forall|j: int|
                at < j ==> !matches_at(data, pattern, j),
            None => forall|j: int| !matches_at(data, pattern, j),
        },
{
    if pattern.len() <= data.len() {
        lemma_last_match_below(data, pattern, data.len() - pattern.len() + 1);
    }
}

/// Whether `pattern` stands in `data` at position `at`.
pub fn pattern_at(data: &[u8], pattern: &[u8], at: usize) -> (r: bool)
    requires
        at + pattern@.len() <= data@.len(),
    ensures
        r == matches_at(data@, pattern@, at as int),
{
    let size = data.len();
    let mut k: usize = 0;
    while k < pattern.len()
        invariant
            size == data@.len(),
            k <= pattern@.len(),
            at + pattern@.len() <= data@.len(),
            forall|j: int| 0 <= j < k ==> data@[at + j] == pattern@[j],
        decreases pattern@.len() - k,
    {
        if data[at + k] != pattern[k] {
            return false;
        }
        k += 1;
    }
    assert(data@.subrange(at as int, at + pattern@.len()) =~= pattern@);
    true
}

/// The position of the first occurrence of `pattern` in `data`.
pub fn find_first(data: &[u8], pattern: &[u8]) -> (r: Option<usize>)
    ensures
        match r {
            Some(at) => first_match(data@, pattern@) == Some(at as int),
            None => first_match(data@, pattern@) is None,
        },
{
    if pattern.len() > data.len() {
        return None;
    }
    if pattern.len() == 0 {
        assert(data@.subrange(0, 0) =~= pattern@);
        return Some(0);
    }
    let last: usize = data.len() - pattern.len();
    let mut at: usize = 0;
    while at <= last
        invariant
            0 < pattern@.len() <= data@.len(),
            data@.len() <= usize::MAX,
            last == data@.len() - pattern@.len(),
            at <= last + 1,
            first_match(data@, pattern@) == first_match_from(data@, pattern@, at as int),
        decreases last + 1 - at,
    {
        if pattern_at(data, pattern, at) {
            return Some(at);
        }
        at += 1;
    }
    None
}

/// The position of the last occurrence of `pattern` in `data`.
pub fn find_last(data: &[u8], pattern: &[u8]) -> (r: Option<usize>)
    ensures
        match r {
            Some(at) => last_match(data@, pattern@) == Some(at as int),
            None => last_match(data@, pattern@) is None,
        },
{
    if pattern.len() > data.len() {
        return None;
    }
    if pattern.len() == 0 {
        assert(data@.subrange(data@.len() as int, data@.len() as int) =~= pattern@);
        return Some(data.len());
    }
    let mut below: usize = data.len() - pattern.len() + 1;
    while below > 0
        invariant
            0 < pattern@.len() <= data@.len(),
            below <= data@.len() - pattern@.len() + 1,
            last_match(data@, pattern@) == last_match_below(data@, pattern@, below as int),
        decreases below,
    {
        if pattern_at(data, pattern, below - 1) {
            return Some(below - 1);
        }
        below -= 1;
    }
    None
}

} // verus!
