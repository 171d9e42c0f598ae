//! Entitlements embedded in a provisioning profile.
//!
//! A provisioning profile wraps an XML property list in a signed envelope.
//! The envelope is not parsed: the property list is cut out between the
//! first `<plist` and the last `</plist>` of the file, and the dictionary
//! under its `Entitlements` key is the profile's entitlements.

use crate::bytes::{find_first, find_last, first_match, last_match};
use crate::errors::{Error, ErrorView};
use vstd::prelude::*;

verus! {

/// `plist::Value`, a value of a property list. Nothing of its inside is
/// visible here.
#[verifier::external_type_specification]
#[verifier::external_body]
pub struct ExPlistValue(plist::Value);

/// `plist::Dictionary`, the ordered map from keys to values of a property
/// list. Nothing of its inside is visible here.
#[verifier::external_type_specification]
#[verifier::external_body]
pub struct ExPlistDictionary(plist::Dictionary);

/// What parsing a byte string as an XML property list gives: the document,
/// or the parser's message.
pub uninterp spec fn xml_plist_document(bytes: Seq<u8>) -> Result<plist::Value, Seq<char>>;

/// The dictionary a value is, if it is one.
pub uninterp spec fn value_dictionary(value: plist::Value) -> Option<plist::Dictionary>;

/// What a dictionary holds under each of its keys.
pub uninterp spec fn dictionary_entries(dictionary: plist::Dictionary) -> Map<
    Seq<char>,
    plist::Value,
>;

/// What writing a value as an XML property list gives: the document's
/// bytes, or the writer's message.
pub uninterp spec fn xml_plist_bytes(value: plist::Value) -> Result<Seq<u8>, Seq<char>>;

/// `plist::Value::from_reader_xml` on a byte string. The outcome depends on
/// the bytes alone: it is `xml_plist_document` of them, the error given as
/// its message.
#[verifier::external_body]
fn parse_xml_plist(data: &[u8]) -> (r: Result<plist::Value, String>)
    ensures
        match r {
            Ok(document) => xml_plist_document(data@) == Ok::<plist::Value, Seq<char>>(document),
            Err(message) => xml_plist_document(data@) == Err::<plist::Value, Seq<char>>(message@),
        },
{
    plist::Value::from_reader_xml(data).map_err(|e| e.to_string())
}

/// `plist::Value::to_writer_xml` into a fresh buffer. The outcome depends
/// on the value alone: it is `xml_plist_bytes` of it, the error given as
/// its message.
#[verifier::external_body]
fn write_xml_plist(value: &plist::Value) -> (r: Result<Vec<u8>, String>)
    ensures
        match r {
            Ok(bytes) => xml_plist_bytes(*value) == Ok::<Seq<u8>, Seq<char>>(bytes@),
            Err(message) => xml_plist_bytes(*value) == Err::<Seq<u8>, Seq<char>>(message@),
        },
{
    let mut buffer = Vec::new();
    match value.to_writer_xml(&mut buffer) {
        Ok(()) => Ok(buffer),
        Err(e) => Err(e.to_string()),
    }
}

/// `plist::Value::as_dictionary` hands out the dictionary of a value that
/// is one, and nothing for any other value.
pub assume_specification[ plist::Value::as_dictionary ](value: &plist::Value) -> (r: Option<
    &plist::Dictionary,
>)
    ensures
        match r {
            Some(dictionary) => value_dictionary(*value) == Some(*dictionary),
            None => value_dictionary(*value) is None,
        },
;

/// `plist::Dictionary::get` hands out the value held under a key, and
/// nothing where the dictionary has no such key.
pub assume_specification<'a>[ plist::Dictionary::get ](
    dictionary: &'a plist::Dictionary,
    key: &str,
) -> (r: Option<&'a plist::Value>)
    ensures
        match r {
            Some(value) => dictionary_entries(*dictionary).contains_key(key@)
                && dictionary_entries(*dictionary)[key@] == *value,
            None => !dictionary_entries(*dictionary).contains_key(key@),
        },
;

/// `Clone::clone` of `plist::Value` gives an equal value.
pub assume_specification[ <plist::Value as Clone>::clone ](value: &plist::Value) -> (r:
    plist::Value)
    ensures
        r == *value,
;

/// The marker that opens the embedded property list: `<plist`.
pub open spec fn plist_open() -> Seq<u8> {
    seq![0x3cu8, 0x70u8, 0x6cu8, 0x69u8, 0x73u8, 0x74u8]
}

/// The marker that closes the embedded property list: `</plist>`.
pub open spec fn plist_close() -> Seq<u8> {
    seq![0x3cu8, 0x2fu8, 0x70u8, 0x6cu8, 0x69u8, 0x73u8, 0x74u8, 0x3eu8]
}

/// The byte range of the embedded property list: from the start of the
/// first opening marker to the end of the last closing marker. There is
/// none where either marker is absent, or where the last closing marker
/// ends before the first opening marker starts.
pub open spec fn embedded_plist_range(data: Seq<u8>) -> Option<(int, int)> {
    match (first_match(data, plist_open()), last_match(data, plist_close())) {
        (Some(start), Some(close)) => if start <= close + 8 {
            Some((start, close + 8))
        } else {
            None
        },
        _ => None,
    }
}

/// The message for a profile without an embedded property list.
pub open spec fn no_plist_message() -> Seq<char> {
    "no embedded property list"@
}

/// The message for a profile whose property list has no `Entitlements`
/// dictionary.
pub open spec fn no_entitlements_message() -> Seq<char> {
    "no Entitlements dictionary"@
}

/// The value under the `Entitlements` key of a document that is a
/// dictionary, if that value is a dictionary itself.
pub open spec fn document_entitlements(document: plist::Value) -> Option<plist::Value> {
    match value_dictionary(document) {
        None => None,
        Some(top) => if dictionary_entries(top).contains_key("Entitlements"@) {
            let inner = dictionary_entries(top)["Entitlements"@];
            if value_dictionary(inner) is Some {
                Some(inner)
            } else {
                None
            }
        } else {
            None
        },
    }
}

/// The entitlements a profile's bytes hold, or the message that says why
/// they hold none.
pub open spec fn profile_entitlements(data: Seq<u8>) -> Result<plist::Value, Seq<char>> {
    match embedded_plist_range(data) {
        None => Err(no_plist_message()),
        Some((start, end)) => match xml_plist_document(data.subrange(start, end)) {
            Err(message) => Err(message),
            Ok(document) => match document_entitlements(document) {
                Some(entitlements) => Ok(entitlements),
                None => Err(no_entitlements_message()),
            },
        },
    }
}

/// What loading a profile gives for each outcome of reading its file:
/// `None` where no file stands at the path, an error message where the
/// file could not be read, its bytes otherwise.
pub open spec fn profile_outcome(file: Option<Result<Seq<u8>, Seq<char>>>) -> Result<
    plist::Value,
    ErrorView,
> {
    match file {
        None => Err(ErrorView::ProfileNotFound),
        Some(Err(message)) => Err(ErrorView::Io(message)),
        Some(Ok(data)) => match profile_entitlements(data) {
            Ok(entitlements) => Ok(entitlements),
            Err(message) => Err(ErrorView::MalformedProfile(message)),
        },
    }
}

/// The outcome of reading a file, with its texts and bytes as sequences.
pub open spec fn file_view(file: Option<Result<Vec<u8>, String>>) -> Option<
    Result<Seq<u8>, Seq<char>>,
> {
    match file {
        None => None,
        Some(Err(message)) => Some(Err(message@)),
        Some(Ok(data)) => Some(Ok(data@)),
    }
}

/// Finds the byte range of the embedded property list.
pub fn find_embedded_plist(data: &[u8]) -> (r: Option<(usize, usize)>)
    ensures
        match r {
            Some((start, end)) => embedded_plist_range(data@) == Some((start as int, end as int))
                && start <= end <= data@.len(),
            None => embedded_plist_range(data@) is None,
        },
{
    let open: [u8; 6] = [0x3c, 0x70, 0x6c, 0x69, 0x73, 0x74];
    let close: [u8; 8] = [0x3c, 0x2f, 0x70, 0x6c, 0x69, 0x73, 0x74, 0x3e];
    let start = match find_first(data, open.as_slice()) {
        Some(start) => start,
        None => return None,
    };
    let close_at = match find_last(data, close.as_slice()) {
        Some(close_at) => close_at,
        None => return None,
    };
    proof {
        crate::bytes::lemma_last_match_is_greatest(data@, plist_close());
    }
    let size = data.len();
    let end = close_at + 8;
    assert(end <= size);
    if start <= end {
        Some((start, end))
    } else {
        None
    }
}

/// One provisioning profile: where it was read from, and its entitlements.
pub struct MobileProvision {
    provision_file: String,
    provision_entitlements_dictionary: plist::Value,
}

impl MobileProvision {
    #[verifier::type_invariant]
    spec fn holds_a_dictionary(self) -> bool {
        value_dictionary(self.provision_entitlements_dictionary) is Some
    }

    /// The path the profile was read from.
    pub closed spec fn path(&self) -> Seq<char> {
        self.provision_file@
    }

    /// The profile's entitlements, a dictionary value.
    pub closed spec fn entitlements(&self) -> plist::Value {
        self.provision_entitlements_dictionary
    }

    /// Loads the profile at `provision_path` from what reading that file
    /// gave: `None` where no file stands at the path, the read's message
    /// where the file could not be read, its bytes otherwise.
    pub fn new(provision_path: String, file: Option<Result<Vec<u8>, String>>) -> (r: Result<
        Self,
        Error,
    >)
        ensures
            match r {
                Ok(profile) => profile_outcome(file_view(file)) == Ok::<plist::Value, ErrorView>(
                    profile.entitlements(),
                ) && profile.path() == provision_path@
                    && value_dictionary(profile.entitlements()) is Some,
                Err(error) => profile_outcome(file_view(file)) == Err::<plist::Value, ErrorView>(
                    error@,
                ),
            },
    {
        match file {
            None => Err(Error::ProfileNotFound),
            Some(Err(message)) => Err(Error::Io(message)),
            Some(Ok(data)) => {
                match Self::extract_entitlements_from_provision_file(data.as_slice()) {
                    Ok(entitlements) => Ok(
                        MobileProvision {
                            provision_file: provision_path,
                            provision_entitlements_dictionary: entitlements,
                        },
                    ),
                    Err(error) => Err(error),
                }
            },
        }
    }

    /// The path the profile was read from.
    pub fn get_file_path(&self) -> (r: &String)
        ensures
            r@ == self.path(),
    {
        &self.provision_file
    }

    /// Cuts the embedded property list out of a profile's bytes and takes
    /// the dictionary under its `Entitlements` key.
    pub fn extract_entitlements_from_provision_file(data: &[u8]) -> (r: Result<
        plist::Value,
        Error,
    >)
        ensures
            match r {
                Ok(entitlements) => profile_entitlements(data@) == Ok::<plist::Value, Seq<char>>(
                    entitlements,
                ) && value_dictionary(entitlements) is Some,
                Err(error) => profile_entitlements(data@) is Err && error@
                    == ErrorView::MalformedProfile(profile_entitlements(data@)->Err_0),
            },
    {
        let (start, end) = match find_embedded_plist(data) {
            Some(range) => range,
            None => return Err(Error::MalformedProfile("no embedded property list".to_owned())),
        };
        let document = match parse_xml_plist(vstd::slice::slice_subrange(data, start, end)) {
            Ok(document) => document,
            Err(message) => return Err(Error::MalformedProfile(message)),
        };
        match Self::entitlements_of_document(&document) {
            Some(entitlements) => Ok(entitlements),
            None => Err(Error::MalformedProfile("no Entitlements dictionary".to_owned())),
        }
    }

    /// The dictionary under the `Entitlements` key of a document, if the
    /// document is a dictionary and holds a dictionary under that key.
    pub fn entitlements_of_document(document: &plist::Value) -> (r: Option<plist::Value>)
        ensures
            r == document_entitlements(*document),
    {
        match document.as_dictionary() {
            Some(top) => match top.get("Entitlements") {
                Some(inner) => match inner.as_dictionary() {
                    Some(_) => Some(inner.clone()),
                    None => None,
                },
                None => None,
            },
            None => None,
        }
    }

    /// The entitlements as a standalone XML property list.
    pub fn get_entitlements_as_bytes(&self) -> (r: Result<Vec<u8>, Error>)
        ensures
            match r {
                Ok(bytes) => xml_plist_bytes(self.entitlements()) == Ok::<Seq<u8>, Seq<char>>(
                    bytes@,
                ),
                Err(error) => xml_plist_bytes(self.entitlements()) is Err && error@
                    == ErrorView::MalformedProfile(xml_plist_bytes(self.entitlements())->Err_0),
            },
    {
        match write_xml_plist(&self.provision_entitlements_dictionary) {
            Ok(bytes) => Ok(bytes),
            Err(message) => Err(Error::MalformedProfile(message)),
        }
    }

    /// The entitlements as a dictionary.
    pub fn get_entitlements_dictionary(&self) -> (r: Result<&plist::Dictionary, Error>)
        ensures
            r matches Ok(dictionary) && value_dictionary(self.entitlements()) == Some(
                *dictionary,
            ),
    {
        proof {
            use_type_invariant(self);
        }
        match self.provision_entitlements_dictionary.as_dictionary() {
            Some(dictionary) => Ok(dictionary),
            None => Err(Error::MalformedProfile("no Entitlements dictionary".to_owned())),
        }
    }
}

/// A profile in whose bytes the opening marker stands nowhere is
/// malformed: loading it fails, and says that no property list is embedded.
pub proof fn law_profile_without_opening_marker_is_malformed(data: Seq<u8>)
    requires
        forall|at: int| !crate::bytes::matches_at(data, plist_open(), at),
    ensures
        profile_outcome(Some(Ok(data))) == Err::<plist::Value, ErrorView>(
            ErrorView::MalformedProfile(no_plist_message()),
        ),
{
    crate::bytes::lemma_first_match_is_least(data, plist_open());
}

} // verus!
