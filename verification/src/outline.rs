//! The outline of a Mach-O file: the header, the table of a universal
//! file, and the load commands that decide the entry point of a slice.
//!
//! The Mach-O parser maps the entry point of a slice to an address by
//! plain arithmetic on numbers it reads from the file, and it parses a
//! static library it finds inside a universal file. A file on which that
//! arithmetic leaves the range of an address, and a universal file that
//! holds a static library, are told apart here and never handed to it.

use crate::bytes::pattern_at;
use vstd::prelude::*;
use vstd::slice::slice_subrange;

verus! {

/// The magic number of a 32-bit file in the byte order it is read in.
pub const MH_MAGIC: u32 = 0xfeed_face;

/// The magic number of a 32-bit file in the opposite byte order.
pub const MH_CIGAM: u32 = 0xcefa_edfe;

/// The magic number of a 64-bit file in the byte order it is read in.
pub const MH_MAGIC_64: u32 = 0xfeed_facf;

/// The magic number of a 64-bit file in the opposite byte order.
pub const MH_CIGAM_64: u32 = 0xcffa_edfe;

/// The magic number of a universal file.
pub const FAT_MAGIC: u32 = 0xcafe_babe;

/// The load command of a 32-bit segment.
pub const LC_SEGMENT: u32 = 0x1;

/// The load command of a 64-bit segment.
pub const LC_SEGMENT_64: u32 = 0x19;

/// The load command that names the entry point.
pub const LC_MAIN: u32 = 0x8000_0028;

/// The number that four bytes from position `at` write, least significant
/// byte first where `little` holds, most significant byte first otherwise.
pub open spec fn word32(data: Seq<u8>, at: int, little: bool) -> int {
    if little {
        data[at] + 0x100 * data[at + 1] + 0x1_0000 * data[at + 2] + 0x100_0000 * data[at + 3]
    } else {
        0x100_0000 * data[at] + 0x1_0000 * data[at + 1] + 0x100 * data[at + 2] + data[at + 3]
    }
}

/// The number that eight bytes from position `at` write.
pub open spec fn word64(data: Seq<u8>, at: int, little: bool) -> int {
    if little {
        word32(data, at, true) + 0x1_0000_0000 * word32(data, at + 4, true)
    } else {
        0x1_0000_0000 * word32(data, at, false) + word32(data, at + 4, false)
    }
}

/// The name of the text segment as the parser looks for it: the six
/// letters and the zero byte that ends them.
pub open spec fn text_name() -> Seq<u8> {
    seq![0x5fu8, 0x5fu8, 0x54u8, 0x45u8, 0x58u8, 0x54u8, 0x00u8]
}

/// The eight bytes a static library starts with: `!<arch>` and a line feed.
pub open spec fn archive_magic() -> Seq<u8> {
    seq![0x21u8, 0x3cu8, 0x61u8, 0x72u8, 0x63u8, 0x68u8, 0x3eu8, 0x0au8]
}

/// What the load commands read so far say of the entry point: the offset
/// that the first entry-point command names, and the address and the file
/// offset of the first text segment.
pub struct EntryPoint {
    pub main: Option<u64>,
    pub text: Option<(u64, u64)>,
}

impl EntryPoint {
    /// The entry point maps to an address: with both an entry-point
    /// command and a text segment, the segment's address is not below its
    /// file offset, and their difference plus the entry offset is a
    /// 64-bit number.
    pub open spec fn fits(self) -> bool {
        match (self.main, self.text) {
            (Some(entry), Some((address, offset))) => address >= offset && address - offset
                + entry <= u64::MAX,
            _ => true,
        }
    }

    /// The first text segment stays; a segment named as the text segment
    /// becomes it where there was none.
    pub open spec fn with_segment(self, named_text: bool, address: u64, offset: u64) -> EntryPoint {
        if named_text && self.text is None {
            EntryPoint { main: self.main, text: Some((address, offset)) }
        } else {
            self
        }
    }

    /// The first entry-point command stays.
    pub open spec fn with_main(self, entry: u64) -> EntryPoint {
        if self.main is None {
            EntryPoint { main: Some(entry), text: self.text }
        } else {
            self
        }
    }
}

/// The segment command at `offset` names the text segment.
pub open spec fn names_text(data: Seq<u8>, offset: int) -> bool {
    data.subrange(offset + 8, offset + 15) == text_name()
}

/// Reading `remaining` load commands from `offset` on never maps an
/// entry point outside the range of an address. Where a command cannot
/// be read the parser gives up before it maps anything.
pub open spec fn commands_safe(
    data: Seq<u8>,
    little: bool,
    offset: int,
    remaining: nat,
    seen: EntryPoint,
) -> bool
    decreases remaining,
{
    if remaining == 0 {
        seen.fits()
    } else if offset < 0 || offset + 8 > data.len() {
        true
    } else {
        let command = word32(data, offset, little);
        let size = word32(data, offset + 4, little);
        let next = offset + size;
        let rest = (remaining - 1) as nat;
        if size > data.len() - offset {
            true
        } else if command == LC_SEGMENT {
            if offset + 56 > data.len() {
                true
            } else {
                commands_safe(
                    data,
                    little,
                    next,
                    rest,
                    seen.with_segment(
                        names_text(data, offset),
                        word32(data, offset + 24, little) as u64,
                        word32(data, offset + 32, little) as u64,
                    ),
                )
            }
        } else if command == LC_SEGMENT_64 {
            if offset + 72 > data.len() {
                true
            } else {
                commands_safe(
                    data,
                    little,
                    next,
                    rest,
                    seen.with_segment(
                        names_text(data, offset),
                        word64(data, offset + 24, little) as u64,
                        word64(data, offset + 40, little) as u64,
                    ),
                )
            }
        } else if command == LC_MAIN {
            if offset + 24 > data.len() {
                true
            } else {
                commands_safe(
                    data,
                    little,
                    next,
                    rest,
                    seen.with_main(word64(data, offset + 8, little) as u64),
                )
            }
        } else {
            commands_safe(data, little, next, rest, seen)
        }
    }
}

/// The number is the magic number of a single-architecture file.
pub open spec fn is_thin_magic(magic: int) -> bool {
    magic == MH_MAGIC || magic == MH_CIGAM || magic == MH_MAGIC_64 || magic == MH_CIGAM_64
}

/// Parsing the bytes as a single-architecture file never maps an entry
/// point outside the range of an address. Bytes too short for a header,
/// with another magic number, or with a command table that does not fit
/// are given up on before any command is read.
pub open spec fn slice_safe(data: Seq<u8>) -> bool {
    if data.len() < 32 {
        true
    } else {
        let magic = word32(data, 0, false);
        let little = magic == MH_CIGAM || magic == MH_CIGAM_64;
        let wide = magic == MH_MAGIC_64 || magic == MH_CIGAM_64;
        let count = word32(data, 16, little);
        let table = word32(data, 20, little);
        if !is_thin_magic(magic) || count > table / 8 || table > data.len() {
            true
        } else {
            commands_safe(
                data,
                little,
                if wide {
                    32
                } else {
                    28
                },
                count as nat,
                EntryPoint { main: None, text: None },
            )
        }
    }
}

/// The bytes start as a static library does.
pub open spec fn is_archive(data: Seq<u8>) -> bool {
    data.len() >= 8 && data.subrange(0, 8) == archive_magic()
}

/// The bytes of the architecture at `index` of a universal file's table:
/// the range the table announces, or nothing where that range does not
/// lie inside the file.
pub open spec fn fat_slice(data: Seq<u8>, index: int) -> Seq<u8> {
    let offset = word32(data, 16 + 20 * index, false);
    let size = word32(data, 20 + 20 * index, false);
    if offset + size <= data.len() {
        data.subrange(offset, offset + size)
    } else {
        Seq::empty()
    }
}

/// Parsing an architecture of a universal file is safe: it is too short
/// to be looked at, or it is no static library and safe as a
/// single-architecture file.
pub open spec fn fat_entry_safe(slice: Seq<u8>) -> bool {
    if slice.len() < 16 {
        true
    } else if is_archive(slice) {
        false
    } else {
        slice_safe(slice)
    }
}

/// Parsing the architectures from `index` on is safe, `count` being the
/// number the table announces. Where an entry of the table cannot be read
/// the parser gives up before it parses any architecture.
pub open spec fn architectures_safe(data: Seq<u8>, index: int, count: int) -> bool
    decreases count - index,
{
    if index < 0 || index >= count {
        true
    } else if 28 + 20 * index > data.len() {
        true
    } else {
        fat_entry_safe(fat_slice(data, index)) && architectures_safe(data, index + 1, count)
    }
}

/// The bytes can be handed to the Mach-O parser: no slice of them maps
/// its entry point outside the range of an address, and a universal file
/// holds no static library.
pub open spec fn parse_safe(data: Seq<u8>) -> bool {
    if data.len() < 8 {
        true
    } else if word32(data, 0, false) == FAT_MAGIC {
        let count = word32(data, 4, false);
        if count > data.len() / 20 {
            true
        } else {
            architectures_safe(data, 0, count)
        }
    } else {
        slice_safe(data)
    }
}

/// Reads four bytes as a number.
pub fn read_word32(data: &[u8], at: usize, little: bool) -> (r: u32)
    requires
        at + 4 <= data@.len(),
    ensures
        r == word32(data@, at as int, little),
{
    let b0 = data[at] as u32;
    let b1 = data[at + 1] as u32;
    let b2 = data[at + 2] as u32;
    let b3 = data[at + 3] as u32;
    if little {
        b0 + 0x100 * b1 + 0x1_0000 * b2 + 0x100_0000 * b3
    } else {
        0x100_0000 * b0 + 0x1_0000 * b1 + 0x100 * b2 + b3
    }
}

/// Reads eight bytes as a number.
pub fn read_word64(data: &[u8], at: usize, little: bool) -> (r: u64)
    requires
        at + 8 <= data@.len(),
    ensures
        r == word64(data@, at as int, little),
{
    let size = data.len();
    let first = read_word32(data, at, little) as u64;
    let second = read_word32(data, at + 4, little) as u64;
    if little {
        first + 0x1_0000_0000 * second
    } else {
        0x1_0000_0000 * first + second
    }
}

/// Whether what the load commands say of the entry point maps to an
/// address.
pub fn entry_point_fits(seen: &EntryPoint) -> (r: bool)
    ensures
        r == seen.fits(),
{
    match (seen.main, seen.text) {
        (Some(entry), Some((address, offset))) => {
            address >= offset && (address - offset) as u128 + entry as u128 <= u64::MAX as u128
        },
        _ => true,
    }
}

/// Whether the load commands of a slice can be handed to the parser.
pub fn check_commands(data: &[u8], little: bool, start: usize, count: u32) -> (r: bool)
    requires
        start <= 32,
    ensures
        r == commands_safe(
            data@,
            little,
            start as int,
            count as nat,
            EntryPoint { main: None, text: None },
        ),
{
    let size = data.len();
    let name: [u8; 7] = [0x5f, 0x5f, 0x54, 0x45, 0x58, 0x54, 0x00];
    let mut seen = EntryPoint { main: None, text: None };
    let mut offset: usize = start;
    let mut done: u32 = 0;
    while done < count
        invariant
            size == data@.len(),
            name@ == text_name(),
            done <= count,
            offset <= size || offset <= 32,
            commands_safe(
                data@,
                little,
                start as int,
                count as nat,
                EntryPoint { main: None, text: None },
            ) == commands_safe(data@, little, offset as int, (count - done) as nat, seen),
        decreases count - done,
    {
        if offset > size || size - offset < 8 {
            return true;
        }
        let command = read_word32(data, offset, little);
        let length = read_word32(data, offset + 4, little) as usize;
        let left = size - offset;
        if length > left {
            return true;
        }
        if command == LC_SEGMENT {
            if left < 56 {
                return true;
            }
            let named = pattern_at(data, name.as_slice(), offset + 8);
            let address = read_word32(data, offset + 24, little) as u64;
            let position = read_word32(data, offset + 32, little) as u64;
            if named && seen.text.is_none() {
                seen = EntryPoint { main: seen.main, text: Some((address, position)) };
            }
        } else if command == LC_SEGMENT_64 {
            if left < 72 {
                return true;
            }
            let named = pattern_at(data, name.as_slice(), offset + 8);
            let address = read_word64(data, offset + 24, little);
            let position = read_word64(data, offset + 40, little);
            if named && seen.text.is_none() {
                seen = EntryPoint { main: seen.main, text: Some((address, position)) };
            }
        } else if command == LC_MAIN {
            if left < 24 {
                return true;
            }
            let entry = read_word64(data, offset + 8, little);
            if seen.main.is_none() {
                seen = EntryPoint { main: Some(entry), text: seen.text };
            }
        }
        offset = offset + length;
        done = done + 1;
    }
    entry_point_fits(&seen)
}

/// Whether the bytes can be handed to the parser as a single-architecture
/// file.
pub fn check_slice(data: &[u8]) -> (r: bool)
    ensures
        r == slice_safe(data@),
{
    if data.len() < 32 {
        return true;
    }
    let magic = read_word32(data, 0, false);
    let little = magic == MH_CIGAM || magic == MH_CIGAM_64;
    let wide = magic == MH_MAGIC_64 || magic == MH_CIGAM_64;
    if !(magic == MH_MAGIC || magic == MH_CIGAM || wide) {
        return true;
    }
    let count = read_word32(data, 16, little);
    let table = read_word32(data, 20, little);
    if count > table / 8 || table as usize > data.len() {
        return true;
    }
    check_commands(data, little, if wide { 32 } else { 28 }, count)
}

/// Whether an architecture of a universal file can be handed to the
/// parser.
pub fn check_fat_entry(slice: &[u8]) -> (r: bool)
    ensures
        r == fat_entry_safe(slice@),
{
    if slice.len() < 16 {
        return true;
    }
    let magic: [u8; 8] = [0x21, 0x3c, 0x61, 0x72, 0x63, 0x68, 0x3e, 0x0a];
    assert(magic@ == archive_magic());
    if pattern_at(slice, magic.as_slice(), 0) {
        return false;
    }
    check_slice(slice)
}

/// Whether the architecture at `index` of a universal file's table can
/// be handed to the parser.
pub fn check_architecture(data: &[u8], index: usize) -> (r: bool)
    requires
        28 + 20 * index <= data@.len(),
    ensures
        r == fat_entry_safe(fat_slice(data@, index as int)),
{
    let size = data.len();
    let offset = read_word32(data, 16 + 20 * index, false) as usize;
    let length = read_word32(data, 20 + 20 * index, false) as usize;
    if offset <= size && length <= size - offset {
        check_fat_entry(slice_subrange(data, offset, offset + length))
    } else {
        true
    }
}

/// Whether the bytes can be handed to the Mach-O parser.
pub fn check_parse(data: &[u8]) -> (r: bool)
    ensures
        r == parse_safe(data@),
{
    let size = data.len();
    if size < 8 {
        return true;
    }
    if read_word32(data, 0, false) != FAT_MAGIC {
        return check_slice(data);
    }
    let count = read_word32(data, 4, false) as usize;
    if count > size / 20 {
        return true;
    }
    let mut index: usize = 0;
    while index < count
        invariant
            size == data@.len(),
            index <= count <= size / 20,
            parse_safe(data@) == architectures_safe(data@, index as int, count as int),
        decreases count - index,
    {
        if size < 28 || size - 28 < 20 * index {
            return true;
        }
        if !check_architecture(data, index) {
            return false;
        }
        index = index + 1;
    }
    true
}

} // verus!
