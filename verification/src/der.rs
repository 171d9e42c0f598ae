//! Reading the outline of DER-encoded data: one tag, one length, and the
//! range of the contents they announce.

use vstd::prelude::*;

verus! {

/// The tag of a `SEQUENCE`.
pub const TAG_SEQUENCE: u8 = 0x30;

/// The tag of an `INTEGER`.
pub const TAG_INTEGER: u8 = 0x02;

/// The tag of an `OBJECT IDENTIFIER`.
pub const TAG_OID: u8 = 0x06;

/// The tag of an `OCTET STRING`.
pub const TAG_OCTET_STRING: u8 = 0x04;

/// One element of DER-encoded data: its tag, and where its contents stand.
#[derive(Debug, Clone, Copy, PartialEq, Eq, Structural)]
pub struct Tlv {
    pub tag: u8,
    /// Position of the first byte of the contents.
    pub start: usize,
    /// Number of bytes of the contents.
    pub len: usize,
}

/// The number that `count` bytes from position `at` write, most
/// significant byte first.
pub open spec fn big_endian(data: Seq<u8>, at: int, count: int) -> int
    decreases count,
{
    if count <= 0 {
        0
    } else {
        big_endian(data, at, count - 1) * 256 + data[at + count - 1]
    }
}

/// The element `(tag, start, len)`, if its contents lie inside the data.
pub open spec fn element_within(data: Seq<u8>, tag: u8, start: int, len: int) -> Option<
    (u8, int, int),
> {
    if start + len <= data.len() {
        Some((tag, start, len))
    } else {
        None
    }
}

/// The element that starts at `pos`: a one-byte tag, then a length in the
/// short form or in the long form of up to four bytes, then that many
/// bytes of contents, all inside the data.
pub open spec fn tlv_at(data: Seq<u8>, pos: int) -> Option<(u8, int, int)> {
    if pos < 0 || pos + 2 > data.len() {
        None
    } else {
        let tag = data[pos];
        let first = data[pos + 1];
        if first < 0x80 {
            element_within(data, tag, pos + 2, first as int)
        } else {
            let count = first - 0x80;
            if count == 0 || count > 4 || pos + 2 + count > data.len() {
                None
            } else {
                element_within(data, tag, pos + 2 + count, big_endian(data, pos + 2, count))
            }
        }
    }
}

/// 256 to the power of `count`, for the byte counts a length can have.
pub open spec fn pow256(count: int) -> int {
    if count <= 0 {
        1
    } else if count == 1 {
        0x100
    } else if count == 2 {
        0x1_0000
    } else if count == 3 {
        0x100_0000
    } else {
        0x1_0000_0000
    }
}

/// Reads the element that starts at `pos`.
pub fn read_tlv(data: &[u8], pos: usize) -> (r: Option<Tlv>)
    ensures
        match r {
            Some(tlv) => tlv_at(data@, pos as int) == Some(
                (tlv.tag, tlv.start as int, tlv.len as int),
            ) && tlv.start + tlv.len <= data@.len(),
            None => tlv_at(data@, pos as int) is None,
        },
{
    let size = data.len();
    if pos >= size || size - pos < 2 {
        return None;
    }
    let tag = data[pos];
    let first = data[pos + 1];
    let after: usize = pos + 2;
    if first < 0x80 {
        let len: usize = first as usize;
        if size - after < len {
            return None;
        }
        return Some(Tlv { tag, start: after, len });
    }
    let count: usize = (first - 0x80) as usize;
    if count == 0 || count > 4 || size - after < count {
        return None;
    }
    let mut value: u64 = 0;
    let mut k: usize = 0;
    while k < count
        invariant
            k <= count <= 4,
            after + count <= size,
            size == data@.len(),
            value == big_endian(data@, after as int, k as int),
            value < pow256(k as int),
        decreases count - k,
    {
        value = value * 256 + data[after + k] as u64;
        k += 1;
    }
    let start: usize = after + count;
    if value > (size - start) as u64 {
        return None;
    }
    Some(Tlv { tag, start, len: value as usize })
}

/// The contents of the object identifier of Ed25519 keys, 1.3.101.112.
pub open spec fn ed25519_oid() -> Seq<u8> {
    seq![0x2bu8, 0x65u8, 0x70u8]
}

/// The data have the outline of a PKCS#8 private key (a sequence of a
/// version, an algorithm that starts with an object identifier, and an
/// octet string) whose algorithm is Ed25519 and whose octet string holds
/// fewer than the two bytes that come before an Ed25519 seed.
pub open spec fn pkcs8_short_ed25519(data: Seq<u8>) -> bool {
    match tlv_at(data, 0) {
        Some((tag0, start0, _)) => tag0 == TAG_SEQUENCE && match tlv_at(data, start0) {
            Some((tag1, start1, len1)) => tag1 == TAG_INTEGER && match tlv_at(
                data,
                start1 + len1,
            ) {
                Some((tag2, start2, len2)) => tag2 == TAG_SEQUENCE && match tlv_at(data, start2) {
                    Some((tag3, start3, len3)) => tag3 == TAG_OID && data.subrange(
                        start3,
                        start3 + len3,
                    ) == ed25519_oid() && match tlv_at(data, start2 + len2) {
                        Some((tag4, _, len4)) => tag4 == TAG_OCTET_STRING && len4 < 2,
                        None => false,
                    },
                    None => false,
                },
                None => false,
            },
            None => false,
        },
        None => false,
    }
}

/// Whether the data are a PKCS#8 outline of an Ed25519 key without room
/// for a seed.
pub fn is_short_ed25519_key(data: &[u8]) -> (r: bool)
    ensures
        r == pkcs8_short_ed25519(data@),
{
    let size = data.len();
    let outer = match read_tlv(data, 0) {
        Some(outer) => outer,
        None => return false,
    };
    if outer.tag != TAG_SEQUENCE {
        return false;
    }
    let version = match read_tlv(data, outer.start) {
        Some(version) => version,
        None => return false,
    };
    if version.tag != TAG_INTEGER {
        return false;
    }
    let algorithm = match read_tlv(data, version.start + version.len) {
        Some(algorithm) => algorithm,
        None => return false,
    };
    if algorithm.tag != TAG_SEQUENCE {
        return false;
    }
    let oid = match read_tlv(data, algorithm.start) {
        Some(oid) => oid,
        None => return false,
    };
    if oid.tag != TAG_OID {
        return false;
    }
    let expected: [u8; 3] = [0x2b, 0x65, 0x70];
    assert(expected@ =~= ed25519_oid());
    if oid.len != 3 {
        return false;
    }
    if !crate::bytes::pattern_at(data, expected.as_slice(), oid.start) {
        return false;
    }
    let key = match read_tlv(data, algorithm.start + algorithm.len) {
        Some(key) => key,
        None => return false,
    };
    key.tag == TAG_OCTET_STRING && key.len < 2
}

} // verus!
