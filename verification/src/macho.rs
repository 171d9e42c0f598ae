//! Entitlements carried by the code signature of a Mach-O binary.
//!
//! Only the first architecture slice of a file is looked at. A slice
//! without a code signature, or with one that has no entitlements slot,
//! has no entitlements; that is no failure.

use crate::der::big_endian;
use crate::errors::{Error, ErrorView};
use crate::outline::{check_parse, parse_safe};
use vstd::prelude::*;

verus! {

/// `apple_codesign::MachFile`, a parsed Mach-O file: its architecture
/// slices, in the order the file lists them.
#[verifier::external_type_specification]
#[verifier::external_body]
pub struct ExMachFile<'a>(apple_codesign::MachFile<'a>);

/// `apple_codesign::MachOBinary`, one architecture slice of a Mach-O file.
#[verifier::external_type_specification]
#[verifier::external_body]
pub struct ExMachOBinary<'a>(apple_codesign::MachOBinary<'a>);

/// `apple_codesign::EmbeddedSignature`, the table of blobs of an embedded
/// code signature.
#[verifier::external_type_specification]
#[verifier::external_body]
pub struct ExEmbeddedSignature<'a>(apple_codesign::EmbeddedSignature<'a>);

/// What parsing a byte string as a Mach-O file gives: the bytes of each
/// architecture slice, or the parser's message.
pub uninterp spec fn mach_file_slices(data: Seq<u8>) -> Result<Seq<Seq<u8>>, Seq<char>>;

/// The bytes of each architecture slice that a parsed file holds.
pub uninterp spec fn mach_file_contents(file: apple_codesign::MachFile<'_>) -> Seq<Seq<u8>>;

/// The bytes that back an architecture slice.
pub uninterp spec fn macho_data(binary: apple_codesign::MachOBinary<'_>) -> Seq<u8>;

/// The file offset and the size that the code-signature load command of a
/// slice announces, if the slice has such a command.
pub uninterp spec fn signature_command(slice: Seq<u8>) -> Option<(u32, u32)>;

/// The file offset and the number of bytes of the `__LINKEDIT` segment of a
/// slice, if the slice has such a segment.
pub uninterp spec fn linkedit_extent(slice: Seq<u8>) -> Option<(u64, usize)>;

/// The message for a signature command in a slice that has no
/// `__LINKEDIT` segment.
pub open spec fn missing_segment_message() -> Seq<char> {
    "unable to locate __LINKEDIT segment"@
}

/// What looking up the signature data of a slice gives: nothing for a
/// slice without a signature command, a failure for a slice with such a
/// command and without a `__LINKEDIT` segment, and otherwise the bytes of
/// the slice from the offset that the command announces, as many as it
/// announces.
pub open spec fn signature_bytes(slice: Seq<u8>) -> Result<Option<Seq<u8>>, Seq<char>> {
    match signature_command(slice) {
        None => Ok(None),
        Some(command) => if linkedit_extent(slice) is None {
            Err(missing_segment_message())
        } else {
            Ok(Some(Seq::new(command.1 as nat, |i: int| slice[command.0 + i])))
        },
    }
}

/// Why a byte string is no embedded signature: the parser's message, or
/// nothing where it is one.
pub uninterp spec fn embedded_signature_failure(signature: Seq<u8>) -> Option<Seq<char>>;

/// The bytes a parsed signature was made from.
pub uninterp spec fn signature_source(signature: apple_codesign::EmbeddedSignature<'_>) -> Seq<u8>;

/// What looking up the entitlements of a signature gives: their XML text,
/// nothing for a signature without an entitlements slot, or the reader's
/// message.
pub uninterp spec fn entitlements_lookup(signature: Seq<u8>) -> Result<
    Option<Seq<char>>,
    Seq<char>,
>;

/// `MachFile::parse`. The outcome depends on the bytes alone: the slices
/// of the file, or the error as its message. It maps the entry point of
/// each slice to an address by unchecked arithmetic on numbers from the
/// file, and it parses a static library inside a universal file, so a
/// file on which either goes wrong is kept away from it.
#[verifier::external_body]
fn parse_mach_file<'a>(data: &'a [u8]) -> (r: Result<apple_codesign::MachFile<'a>, String>)
    requires
        parse_safe(data@),
    ensures
        match r {
            Ok(file) => mach_file_slices(data@) == Ok::<Seq<Seq<u8>>, Seq<char>>(
                mach_file_contents(file),
            ),
            Err(message) => mach_file_slices(data@) == Err::<Seq<Seq<u8>>, Seq<char>>(message@),
        },
{
    apple_codesign::MachFile::parse(data).map_err(|e| e.to_string())
}

/// `MachFile::nth_macho`: the slice at an index, or an error where the
/// file has no slice at that index.
#[verifier::external_body]
fn nth_macho<'a, 'b>(file: &'b apple_codesign::MachFile<'a>, index: usize) -> (r: Result<
    &'b apple_codesign::MachOBinary<'a>,
    String,
>)
    ensures
        match r {
            Ok(binary) => index < mach_file_contents(*file).len() && macho_data(*binary)
                == mach_file_contents(*file)[index as int],
            Err(_) => index >= mach_file_contents(*file).len(),
        },
{
    file.nth_macho(index).map_err(|e| e.to_string())
}

/// `MachOBinary::code_signature_load_command`, handed out as the file
/// offset and the size that the command announces.
#[verifier::external_body]
fn signature_load_command(binary: &apple_codesign::MachOBinary<'_>) -> (r: Option<(u32, u32)>)
    ensures
        r == signature_command(macho_data(*binary)),
{
    binary.code_signature_load_command().map(|c| (c.dataoff, c.datasize))
}

/// `MachOBinary::linkedit_segment`, handed out as the segment's file
/// offset and the number of its bytes.
#[verifier::external_body]
fn linkedit_segment_extent(binary: &apple_codesign::MachOBinary<'_>) -> (r: Option<(u64, usize)>)
    ensures
        r == linkedit_extent(macho_data(*binary)),
{
    binary.linkedit_segment().map(|s| (s.fileoff, s.data.len()))
}

/// `MachOBinary::find_signature_data`, handed out as the bytes of the
/// signature. It cuts the signature out of the `__LINKEDIT` segment, which
/// is a range of the slice, by the offsets that the load command
/// announces, so a command that points outside the segment is kept away
/// from it; without a segment it fails, and without a command it finds
/// nothing.
#[verifier::external_body]
fn find_signature_data<'a>(binary: &apple_codesign::MachOBinary<'a>) -> (r: Result<
    Option<&'a [u8]>,
    String,
>)
    requires
        signature_reachable(macho_data(*binary)),
    ensures
        match r {
            Ok(Some(signature)) => signature_bytes(macho_data(*binary)) == Ok::<
                Option<Seq<u8>>,
                Seq<char>,
            >(Some(signature@)),
            Ok(None) => signature_bytes(macho_data(*binary)) == Ok::<Option<Seq<u8>>, Seq<char>>(
                None,
            ),
            Err(message) => signature_bytes(macho_data(*binary)) == Err::<
                Option<Seq<u8>>,
                Seq<char>,
            >(message@),
        },
{
    binary.find_signature_data().map(|found| found.map(|s| s.signature_data)).map_err(
        |e| e.to_string(),
    )
}

/// `EmbeddedSignature::from_bytes`. It succeeds exactly on the byte
/// strings that parse, the signature keeps the bytes it was given, and the
/// error is handed out as its message. It cuts each blob out by the
/// offsets of the blob table, so a table that points outside the data or
/// backwards is kept away from it.
#[verifier::external_body]
fn parse_embedded_signature<'a>(data: &'a [u8]) -> (r: Result<
    apple_codesign::EmbeddedSignature<'a>,
    String,
>)
    requires
        blob_table_in_bounds(data@),
    ensures
        match r {
            Ok(signature) => embedded_signature_failure(data@) is None && signature_source(
                signature,
            ) == data@,
            Err(message) => embedded_signature_failure(data@) == Some(message@),
        },
{
    apple_codesign::EmbeddedSignature::from_bytes(data).map_err(|e| e.to_string())
}

/// `EmbeddedSignature::entitlements`, the blob handed out as its text. It
/// parses the blob of the first entitlements slot by the magic number the
/// blob starts with, so a blob of another kind in that slot is kept away
/// from it.
#[verifier::external_body]
fn signature_entitlements(signature: &apple_codesign::EmbeddedSignature<'_>) -> (r: Result<
    Option<String>,
    String,
>)
    requires
        entitlements_slot_holds_entitlements(signature_source(*signature)),
    ensures
        match r {
            Ok(Some(text)) => entitlements_lookup(signature_source(*signature)) == Ok::<
                Option<Seq<char>>,
                Seq<char>,
            >(Some(text@)),
            Ok(None) => entitlements_lookup(signature_source(*signature)) == Ok::<
                Option<Seq<char>>,
                Seq<char>,
            >(None),
            Err(message) => entitlements_lookup(signature_source(*signature)) == Err::<
                Option<Seq<char>>,
                Seq<char>,
            >(message@),
        },
{
    signature.entitlements().map(|found| found.map(|blob| blob.to_string())).map_err(
        |e| e.to_string(),
    )
}

/// The slot number of entitlements in a blob table.
pub const ENTITLEMENTS_SLOT: u32 = 5;

/// The magic number an entitlements blob starts with.
pub const ENTITLEMENTS_MAGIC: u32 = 0xfade7171;

/// The signature that a load command announces lies inside the
/// `__LINKEDIT` segment, and no offset of either runs past what an address
/// can hold.
pub open spec fn signature_in_segment(command: (u32, u32), extent: (u64, usize)) -> bool {
    &&& extent.0 + extent.1 <= usize::MAX
    &&& command.0 + command.1 <= usize::MAX
    &&& extent.0 <= command.0
    &&& command.0 - extent.0 + command.1 <= extent.1
}

/// The signature data of a slice can be looked up: where the slice has
/// both a signature command and a `__LINKEDIT` segment, the one points
/// inside the other.
pub open spec fn signature_reachable(slice: Seq<u8>) -> bool {
    match (signature_command(slice), linkedit_extent(slice)) {
        (Some(command), Some(extent)) => signature_in_segment(command, extent),
        _ => true,
    }
}

/// The number of blobs that the table of a signature announces.
pub open spec fn blob_count(signature: Seq<u8>) -> int {
    big_endian(signature, 8, 4)
}

/// The slot number of the blob at an index of the table.
pub open spec fn blob_slot(signature: Seq<u8>, index: int) -> int {
    big_endian(signature, 12 + 8 * index, 4)
}

/// The offset of the blob at an index of the table.
pub open spec fn blob_offset(signature: Seq<u8>, index: int) -> int {
    big_endian(signature, 16 + 8 * index, 4)
}

/// Where the blob at an index ends: where the next blob starts, or at the
/// end of the data for the last blob.
pub open spec fn blob_end(signature: Seq<u8>, index: int) -> int {
    if index + 1 < blob_count(signature) {
        blob_offset(signature, index + 1)
    } else {
        signature.len() as int
    }
}

/// The blob table lies inside the data, and every blob it lists starts no
/// later than it ends and ends inside the data.
pub open spec fn blob_table_in_bounds(signature: Seq<u8>) -> bool {
    &&& signature.len() >= 12
    &&& 12 + 8 * blob_count(signature) <= signature.len()
    &&& forall|index: int|
        0 <= index < blob_count(signature) ==> #[trigger] blob_offset(signature, index)
            <= blob_end(signature, index) <= signature.len()
}

/// The index of the first blob at or after `from` that stands in the
/// entitlements slot.
pub open spec fn entitlements_index_from(signature: Seq<u8>, from: int) -> Option<int>
    decreases blob_count(signature) - from + 1,
{
    if from < 0 || from >= blob_count(signature) {
        None
    } else if blob_slot(signature, from) == ENTITLEMENTS_SLOT {
        Some(from)
    } else {
        entitlements_index_from(signature, from + 1)
    }
}

/// Where the table lists a blob in the entitlements slot, the first such
/// blob starts with the magic number of entitlements.
pub open spec fn entitlements_slot_holds_entitlements(signature: Seq<u8>) -> bool {
    match entitlements_index_from(signature, 0) {
        None => true,
        Some(index) => {
            &&& blob_offset(signature, index) + 4 <= signature.len()
            &&& big_endian(signature, blob_offset(signature, index), 4) == ENTITLEMENTS_MAGIC
        },
    }
}

/// The message for a file that cannot be handed to the parser.
pub open spec fn unsafe_file_message() -> Seq<char> {
    "entry point outside the address range, or static library in a universal file"@
}

/// What parsing the bytes of a file gives: the bytes of each architecture
/// slice, or the message that says why there are none.
pub open spec fn file_outcome(data: Seq<u8>) -> Result<Seq<Seq<u8>>, Seq<char>> {
    if !parse_safe(data) {
        Err(unsafe_file_message())
    } else {
        mach_file_slices(data)
    }
}

/// The message for a signature command that points outside the segment.
pub open spec fn signature_outside_message() -> Seq<char> {
    "code signature lies outside the __LINKEDIT segment"@
}

/// The message for a blob table that points outside the signature.
pub open spec fn blob_table_message() -> Seq<char> {
    "blob table of the code signature points outside the signature"@
}

/// The entitlements that a lookup found: those it handed out, and none
/// where it found none or failed.
pub open spec fn readable(lookup: Result<Option<Seq<char>>, Seq<char>>) -> Option<Seq<char>> {
    match lookup {
        Ok(Some(text)) => Some(text),
        _ => None,
    }
}

/// The entitlements that the bytes of an embedded signature carry, or the
/// message that says why the signature cannot be read. A signature whose
/// table lists no blob in the entitlements slot carries none, and neither
/// does one whose entitlements cannot be read.
pub open spec fn signature_outcome(signature: Seq<u8>) -> Result<Option<Seq<char>>, Seq<char>> {
    if !blob_table_in_bounds(signature) {
        Err(blob_table_message())
    } else {
        match embedded_signature_failure(signature) {
            Some(message) => Err(message),
            None => if entitlements_index_from(signature, 0) is None {
                Ok(None)
            } else if !entitlements_slot_holds_entitlements(signature) {
                Ok(None)
            } else {
                Ok(readable(entitlements_lookup(signature)))
            },
        }
    }
}

/// The entitlements that an architecture slice carries, or the message
/// that says why its signature cannot be read.
pub open spec fn slice_outcome(slice: Seq<u8>) -> Result<Option<Seq<char>>, Seq<char>> {
    if signature_command(slice) is None {
        Ok(None)
    } else if !signature_reachable(slice) {
        Err(signature_outside_message())
    } else {
        match signature_bytes(slice) {
            Err(message) => Err(message),
            Ok(None) => Ok(None),
            Ok(Some(signature)) => signature_outcome(signature),
        }
    }
}

/// An optional text as an optional sequence of characters.
pub open spec fn text_view(text: Option<String>) -> Option<Seq<char>> {
    match text {
        Some(text) => Some(text@),
        None => None,
    }
}

/// A result of the reader stands for an outcome: the same entitlements,
/// or a Mach-O failure with the same message.
pub open spec fn stands_for(
    result: Result<Option<String>, Error>,
    outcome: Result<Option<Seq<char>>, Seq<char>>,
) -> bool {
    match result {
        Ok(text) => outcome == Ok::<Option<Seq<char>>, Seq<char>>(text_view(text)),
        Err(error) => outcome is Err && error@ == ErrorView::MachOParse(outcome->Err_0),
    }
}

/// Reads four bytes as a number, most significant byte first.
pub fn read_be32(data: &[u8], at: usize) -> (r: u32)
    requires
        at + 4 <= data@.len(),
    ensures
        r == big_endian(data@, at as int, 4),
{
    let b0 = data[at] as u32;
    let b1 = data[at + 1] as u32;
    let b2 = data[at + 2] as u32;
    let b3 = data[at + 3] as u32;
    assert(big_endian(data@, at as int, 4) == ((b0 * 256 + b1) * 256 + b2) * 256 + b3) by {
        reveal_with_fuel(big_endian, 5);
    }
    ((b0 * 256 + b1) * 256 + b2) * 256 + b3
}

/// Whether the signature a load command announces lies inside the segment.
pub fn signature_within(command: (u32, u32), extent: (u64, usize)) -> (r: bool)
    ensures
        r == signature_in_segment(command, extent),
{
    let limit = usize::MAX as u128;
    let segment_start = extent.0 as u128;
    let segment_len = extent.1 as u128;
    let start = command.0 as u128;
    let len = command.1 as u128;
    segment_start + segment_len <= limit && start + len <= limit && segment_start <= start && start
        - segment_start + len <= segment_len
}

/// Whether the blob table of a signature stays inside the signature.
pub fn check_blob_table(signature: &[u8]) -> (r: bool)
    ensures
        r == blob_table_in_bounds(signature@),
{
    let size = signature.len();
    if size < 12 {
        return false;
    }
    let count = read_be32(signature, 8) as usize;
    if (size - 12) / 8 < count {
        return false;
    }
    let mut index: usize = 0;
    while index < count
        invariant
            size == signature@.len(),
            size >= 12,
            count == blob_count(signature@),
            12 + 8 * count <= size,
            index <= count,
            forall|j: int|
                0 <= j < index ==> #[trigger] blob_offset(signature@, j) <= blob_end(
                    signature@,
                    j,
                ) <= size,
        decreases count - index,
    {
        let offset = read_be32(signature, 16 + 8 * index) as usize;
        let end = if index + 1 < count {
            read_be32(signature, 16 + 8 * (index + 1)) as usize
        } else {
            size
        };
        if offset > end || end > size {
            assert(!(blob_offset(signature@, index as int) <= blob_end(signature@, index as int)
                <= size));
            return false;
        }
        index += 1;
    }
    true
}

/// The index of the first blob in the entitlements slot.
pub fn find_entitlements_slot(signature: &[u8]) -> (r: Option<usize>)
    requires
        blob_table_in_bounds(signature@),
    ensures
        match r {
            Some(index) => entitlements_index_from(signature@, 0) == Some(index as int) && index
                < blob_count(signature@),
            None => entitlements_index_from(signature@, 0) is None,
        },
{
    let size = signature.len();
    let count = read_be32(signature, 8) as usize;
    let mut index: usize = 0;
    while index < count
        invariant
            size == signature@.len(),
            count == blob_count(signature@),
            12 + 8 * count <= size,
            index <= count,
            entitlements_index_from(signature@, 0) == entitlements_index_from(
                signature@,
                index as int,
            ),
        decreases count - index,
    {
        if read_be32(signature, 12 + 8 * index) == ENTITLEMENTS_SLOT {
            return Some(index);
        }
        index += 1;
    }
    None
}

/// Whether the first blob in the entitlements slot, if the table lists
/// one, starts with the magic number of entitlements.
pub fn check_entitlements_slot(signature: &[u8]) -> (r: bool)
    requires
        blob_table_in_bounds(signature@),
    ensures
        r == entitlements_slot_holds_entitlements(signature@),
{
    let size = signature.len();
    match find_entitlements_slot(signature) {
        None => true,
        Some(index) => {
            let offset = read_be32(signature, 16 + 8 * index) as usize;
            if size < 4 || offset > size - 4 {
                false
            } else {
                read_be32(signature, offset) == ENTITLEMENTS_MAGIC
            }
        },
    }
}

/// The entitlements that a lookup found. A lookup that fails counts as
/// one that found none: entitlements that cannot be read are no reason to
/// give up on a binary.
pub fn readable_entitlements(lookup: Result<Option<String>, String>) -> (r: Option<String>)
    ensures
        text_view(r) == readable(
            match lookup {
                Ok(found) => Ok(text_view(found)),
                Err(message) => Err(message@),
            },
        ),
{
    match lookup {
        Ok(Some(text)) => Some(text),
        _ => None,
    }
}

/// The entitlements that the bytes of an embedded signature carry.
pub fn entitlements_of_signature(signature: &[u8]) -> (r: Result<Option<String>, Error>)
    ensures
        stands_for(r, signature_outcome(signature@)),
{
    if !check_blob_table(signature) {
        return Err(
            Error::MachOParse(
                "blob table of the code signature points outside the signature".to_owned(),
            ),
        );
    }
    let parsed = match parse_embedded_signature(signature) {
        Ok(parsed) => parsed,
        Err(message) => return Err(Error::MachOParse(message)),
    };
    if find_entitlements_slot(signature).is_none() {
        return Ok(None);
    }
    if !check_entitlements_slot(signature) {
        return Ok(None);
    }
    Ok(readable_entitlements(signature_entitlements(&parsed)))
}

/// A Mach-O file, parsed.
pub struct MachO<'a> {
    macho_file: apple_codesign::MachFile<'a>,
}

impl<'a> MachO<'a> {
    /// The bytes of each architecture slice of the file.
    pub closed spec fn slices(&self) -> Seq<Seq<u8>> {
        mach_file_contents(self.macho_file)
    }

    /// Parses a Mach-O file from what reading it gave: the read's message
    /// where it could not be read, its bytes otherwise. A file whose entry
    /// point cannot be mapped to an address, and a universal file that
    /// holds a static library, are refused.
    pub fn new(file: &'a Result<Vec<u8>, String>) -> (r: Result<Self, Error>)
        ensures
            match *file {
                Err(message) => r matches Err(error) && error@ == ErrorView::Io(message@),
                Ok(data) => match file_outcome(data@) {
                    Ok(slices) => r matches Ok(parsed) && parsed.slices() == slices,
                    Err(message) => r matches Err(error) && error@ == ErrorView::MachOParse(
                        message,
                    ),
                },
            },
    {
        match file {
            Err(message) => Err(Error::Io(message.clone())),
            Ok(data) => {
                if !check_parse(data.as_slice()) {
                    return Err(
                        Error::MachOParse(
                            "entry point outside the address range, or static library in a universal file".to_owned(),
                        ),
                    );
                }
                match parse_mach_file(data.as_slice()) {
                    Ok(macho_file) => Ok(MachO { macho_file }),
                    Err(message) => Err(Error::MachOParse(message)),
                }
            },
        }
    }

    /// The entitlements that the first architecture slice carries, as XML
    /// text. A file without any slice is a failure; a slice without a
    /// signature, or with a signature without entitlements, has none.
    pub fn get_entitlements(&self) -> (r: Result<Option<String>, Error>)
        ensures
            self.slices().len() == 0 ==> r matches Err(Error::MachOParse(_)),
            self.slices().len() > 0 ==> stands_for(r, slice_outcome(self.slices()[0])),
    {
        let binary = match nth_macho(&self.macho_file, 0) {
            Ok(binary) => binary,
            Err(message) => return Err(Error::MachOParse(message)),
        };
        let command = match signature_load_command(binary) {
            Some(command) => command,
            None => return Ok(None),
        };
        if let Some(extent) = linkedit_segment_extent(binary) {
            if !signature_within(command, extent) {
                return Err(
                    Error::MachOParse(
                        "code signature lies outside the __LINKEDIT segment".to_owned(),
                    ),
                );
            }
        }
        match find_signature_data(binary) {
            Err(message) => Err(Error::MachOParse(message)),
            Ok(None) => Ok(None),
            Ok(Some(signature)) => entitlements_of_signature(signature),
        }
    }
}

/// A slice without a code signature has no entitlements, and reading them
/// is no failure.
pub proof fn law_unsigned_slice_has_no_entitlements(slice: Seq<u8>)
    requires
        signature_command(slice) is None,
    ensures
        slice_outcome(slice) == Ok::<Option<Seq<char>>, Seq<char>>(None),
{
}

/// A slice whose code signature parses and lists no blob in the
/// entitlements slot has no entitlements, and reading them is no failure.
pub proof fn law_signature_without_entitlements_slot(slice: Seq<u8>, signature: Seq<u8>)
    requires
        signature_command(slice) is Some,
        signature_reachable(slice),
        signature_bytes(slice) == Ok::<Option<Seq<u8>>, Seq<char>>(Some(signature)),
        blob_table_in_bounds(signature),
        embedded_signature_failure(signature) is None,
        entitlements_index_from(signature, 0) is None,
    ensures
        slice_outcome(slice) == Ok::<Option<Seq<char>>, Seq<char>>(None),
{
}

} // verus!
