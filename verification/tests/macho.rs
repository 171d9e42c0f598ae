use plume_core::errors::Error;
use plume_core::outline::{check_parse, check_slice, read_word32, read_word64};
use plume_core::macho::{
    check_blob_table, check_entitlements_slot, entitlements_of_signature, find_entitlements_slot,
    read_be32, readable_entitlements, signature_within, MachO,
};

const ENTITLEMENTS: &str = "<?xml version=\"1.0\" encoding=\"UTF-8\"?>\n<plist version=\"1.0\"><dict><key>get-task-allow</key><true/></dict></plist>";

const OUTSIDE: &str = "code signature lies outside the __LINKEDIT segment";

const TABLE: &str = "blob table of the code signature points outside the signature";

fn le32(value: u32) -> [u8; 4] {
    value.to_le_bytes()
}

fn le64(value: u64) -> [u8; 8] {
    value.to_le_bytes()
}

fn be32(value: u32) -> [u8; 4] {
    value.to_be_bytes()
}

fn blob(magic: u32, payload: &[u8]) -> Vec<u8> {
    let mut bytes = be32(magic).to_vec();
    bytes.extend_from_slice(&be32(8 + payload.len() as u32));
    bytes.extend_from_slice(payload);
    bytes
}

fn superblob(blobs: &[(u32, Vec<u8>)]) -> Vec<u8> {
    let mut offset = 12 + 8 * blobs.len() as u32;
    let mut index = Vec::new();
    let mut body = Vec::new();
    for (slot, bytes) in blobs {
        index.extend_from_slice(&be32(*slot));
        index.extend_from_slice(&be32(offset));
        offset += bytes.len() as u32;
        body.extend_from_slice(bytes);
    }
    let mut out = be32(0xfade0cc0).to_vec();
    out.extend_from_slice(&be32(offset));
    out.extend_from_slice(&be32(blobs.len() as u32));
    out.extend_from_slice(&index);
    out.extend_from_slice(&body);
    out
}

fn segment(name: &str, fileoff: u64, filesize: u64) -> Vec<u8> {
    let mut command = le32(0x19).to_vec();
    command.extend_from_slice(&le32(72));
    let mut segname = [0u8; 16];
    segname[..name.len()].copy_from_slice(name.as_bytes());
    command.extend_from_slice(&segname);
    command.extend_from_slice(&le64(0x1_0000_0000));
    command.extend_from_slice(&le64(0x4000));
    command.extend_from_slice(&le64(fileoff));
    command.extend_from_slice(&le64(filesize));
    command.extend_from_slice(&le32(1));
    command.extend_from_slice(&le32(1));
    command.extend_from_slice(&le32(0));
    command.extend_from_slice(&le32(0));
    command
}

fn signature_command(dataoff: u32, datasize: u32) -> Vec<u8> {
    let mut command = le32(0x1d).to_vec();
    command.extend_from_slice(&le32(16));
    command.extend_from_slice(&le32(dataoff));
    command.extend_from_slice(&le32(datasize));
    command
}

fn slice(commands: &[Vec<u8>], tail: &[u8]) -> Vec<u8> {
    let size: usize = commands.iter().map(|c| c.len()).sum();
    let mut out = le32(0xfeedfacf).to_vec();
    out.extend_from_slice(&le32(0x0100_000c));
    out.extend_from_slice(&le32(0));
    out.extend_from_slice(&le32(2));
    out.extend_from_slice(&le32(commands.len() as u32));
    out.extend_from_slice(&le32(size as u32));
    out.extend_from_slice(&le32(0));
    out.extend_from_slice(&le32(0));
    for command in commands {
        out.extend_from_slice(command);
    }
    out.extend_from_slice(tail);
    out
}

const SIGNED_HEADER: u32 = 32 + 72 + 16;

fn signed(signature: &[u8]) -> Vec<u8> {
    slice(
        &[
            segment("__LINKEDIT", SIGNED_HEADER as u64, signature.len() as u64),
            signature_command(SIGNED_HEADER, signature.len() as u32),
        ],
        signature,
    )
}

fn unsigned() -> Vec<u8> {
    slice(&[segment("__LINKEDIT", 32 + 72, 4)], &[1, 2, 3, 4])
}

fn with_entitlements() -> Vec<u8> {
    superblob(&[
        (0, blob(0xfade0c02, &[0u8; 4])),
        (5, blob(0xfade7171, ENTITLEMENTS.as_bytes())),
    ])
}

fn without_entitlements() -> Vec<u8> {
    superblob(&[(0, blob(0xfade0c02, &[0u8; 4])), (2, blob(0xfade0c01, &[0u8; 4]))])
}

fn entitlements(data: Vec<u8>) -> Result<Option<String>, Error> {
    let file = Ok(data);
    let parsed = match MachO::new(&file) {
        Ok(parsed) => parsed,
        Err(error) => return Err(error),
    };
    parsed.get_entitlements()
}

#[test]
fn unsigned_binary_has_no_entitlements() {
    assert_eq!(entitlements(unsigned()), Ok(None));
}

#[test]
fn signature_without_entitlements_slot_has_no_entitlements() {
    assert_eq!(entitlements(signed(&without_entitlements())), Ok(None));
    assert_eq!(entitlements(signed(&superblob(&[]))), Ok(None));
}

#[test]
fn entitlements_are_read_from_the_signature() {
    assert_eq!(
        entitlements(signed(&with_entitlements())),
        Ok(Some(ENTITLEMENTS.to_string()))
    );
}

#[test]
fn only_the_first_slice_is_read() {
    let first = signed(&with_entitlements());
    let second = unsigned();
    let first_at: u32 = 48;
    let second_at: u32 = first_at + first.len() as u32;
    let mut fat = be32(0xcafebabe).to_vec();
    fat.extend_from_slice(&be32(2));
    for (cpu, at, bytes) in [(0x0100_000cu32, first_at, &first), (0x0100_0007u32, second_at, &second)] {
        fat.extend_from_slice(&be32(cpu));
        fat.extend_from_slice(&be32(0));
        fat.extend_from_slice(&be32(at));
        fat.extend_from_slice(&be32(bytes.len() as u32));
        fat.extend_from_slice(&be32(0));
    }
    assert_eq!(fat.len(), 48);
    fat.extend_from_slice(&first);
    fat.extend_from_slice(&second);
    assert_eq!(entitlements(fat), Ok(Some(ENTITLEMENTS.to_string())));
}

#[test]
fn unreadable_and_malformed_files_fail() {
    let unreadable: Result<Vec<u8>, String> = Err("no such file".to_string());
    match MachO::new(&unreadable) {
        Err(error) => assert_eq!(error, Error::Io("no such file".to_string())),
        Ok(_) => panic!("the file parsed"),
    }
    assert!(matches!(entitlements(b"not a binary at all".to_vec()), Err(Error::MachOParse(_))));
    assert!(matches!(entitlements(Vec::new()), Err(Error::MachOParse(_))));
}

#[test]
fn signature_outside_the_segment_is_refused() {
    let signature = with_entitlements();
    let size = signature.len() as u32;
    let beyond = slice(
        &[segment("__LINKEDIT", SIGNED_HEADER as u64, size as u64), signature_command(SIGNED_HEADER, size + 1)],
        &signature,
    );
    assert_eq!(entitlements(beyond), Err(Error::MachOParse(OUTSIDE.to_string())));
    let before = slice(
        &[segment("__LINKEDIT", SIGNED_HEADER as u64, size as u64), signature_command(SIGNED_HEADER - 1, size)],
        &signature,
    );
    assert_eq!(entitlements(before), Err(Error::MachOParse(OUTSIDE.to_string())));
    let far = slice(
        &[segment("__LINKEDIT", SIGNED_HEADER as u64, size as u64), signature_command(0xffff_fff0, 0x20)],
        &signature,
    );
    assert_eq!(entitlements(far), Err(Error::MachOParse(OUTSIDE.to_string())));
}

#[test]
fn signature_without_linkedit_segment_fails() {
    let signature = with_entitlements();
    let lone = slice(&[signature_command(32 + 16, signature.len() as u32)], &signature);
    assert_eq!(
        entitlements(lone),
        Err(Error::MachOParse("unable to locate __LINKEDIT segment".to_string()))
    );
}

#[test]
fn blob_table_outside_the_signature_is_refused() {
    let refused = Err(Error::MachOParse(TABLE.to_string()));
    let mut backwards = superblob(&[(0, blob(0xfade0c02, &[0u8; 4])), (5, blob(0xfade7171, b"x"))]);
    backwards[16..20].copy_from_slice(&be32(60));
    assert_eq!(entitlements_of_signature(&backwards), refused);
    assert_eq!(entitlements(signed(&backwards)), refused);
    let mut beyond = with_entitlements();
    let size = beyond.len() as u32;
    beyond[24..28].copy_from_slice(&be32(size + 1));
    assert_eq!(entitlements_of_signature(&beyond), refused);
    let mut overcounted = superblob(&[]);
    overcounted[8..12].copy_from_slice(&be32(0xffff_ffff));
    assert_eq!(entitlements_of_signature(&overcounted), refused);
    assert_eq!(entitlements_of_signature(&[0xfa, 0xde, 0x0c, 0xc0]), refused);
    assert_eq!(entitlements_of_signature(&[]), refused);
}

#[test]
fn unparsable_signature_fails() {
    let mut wrong_magic = with_entitlements();
    wrong_magic[0..4].copy_from_slice(&be32(0xfade0c02));
    let outcome = entitlements_of_signature(&wrong_magic);
    assert!(matches!(outcome, Err(Error::MachOParse(_))));
    assert_ne!(outcome, Err(Error::MachOParse(TABLE.to_string())));
}

#[test]
fn unreadable_entitlements_count_as_none() {
    let other_kind = superblob(&[(5, blob(0xfade0c02, &[0u8; 40]))]);
    assert_eq!(entitlements_of_signature(&other_kind), Ok(None));
    let not_text = superblob(&[(5, blob(0xfade7171, &[0xff, 0xfe, 0xfd]))]);
    assert_eq!(entitlements_of_signature(&not_text), Ok(None));
    assert_eq!(entitlements(signed(&not_text)), Ok(None));
    let empty = superblob(&[(5, blob(0xfade7171, b""))]);
    assert_eq!(entitlements_of_signature(&empty), Ok(Some(String::new())));
}

#[test]
fn first_entitlements_slot_counts() {
    let twice = superblob(&[
        (0, blob(0xfade0c02, &[0u8; 4])),
        (5, blob(0xfade7171, b"first")),
        (5, blob(0xfade7171, b"second")),
    ]);
    assert_eq!(find_entitlements_slot(&twice), Some(1));
    assert_eq!(entitlements_of_signature(&twice), Ok(Some("first".to_string())));
    assert_eq!(find_entitlements_slot(&without_entitlements()), None);
    assert!(check_entitlements_slot(&without_entitlements()));
    assert!(check_entitlements_slot(&twice));
    assert!(!check_entitlements_slot(&superblob(&[(5, blob(0xfade0c02, &[0u8; 4]))])));
}

#[test]
fn blob_table_bounds() {
    assert!(check_blob_table(&with_entitlements()));
    assert!(check_blob_table(&superblob(&[])));
    assert!(!check_blob_table(&[0u8; 11]));
    let mut truncated = with_entitlements();
    truncated.truncate(20);
    assert!(!check_blob_table(&truncated));
}

#[test]
fn numbers_are_read_most_significant_byte_first() {
    assert_eq!(read_be32(&[0xfa, 0xde, 0x71, 0x71], 0), 0xfade7171);
    assert_eq!(read_be32(&[9, 0, 0, 1, 2], 1), 0x0000_0102);
    assert_eq!(read_be32(&[0xff, 0xff, 0xff, 0xff], 0), u32::MAX);
}

#[test]
fn signature_must_lie_inside_the_segment() {
    assert!(signature_within((120, 40), (120, 40)));
    assert!(signature_within((130, 30), (120, 40)));
    assert!(signature_within((160, 0), (120, 40)));
    assert!(!signature_within((130, 31), (120, 40)));
    assert!(!signature_within((119, 10), (120, 40)));
    assert!(!signature_within((120, 10), (u64::MAX, 40)));
    assert!(!signature_within((u32::MAX, u32::MAX), (0, 10)));
}

#[test]
fn failed_lookup_counts_as_none() {
    assert_eq!(readable_entitlements(Ok(Some("<plist/>".to_string()))), Some("<plist/>".to_string()));
    assert_eq!(readable_entitlements(Ok(None)), None);
    assert_eq!(readable_entitlements(Err("bad magic".to_string())), None);
}

const UNSAFE: &str =
    "entry point outside the address range, or static library in a universal file";

fn text_segment(vmaddr: u64, fileoff: u64) -> Vec<u8> {
    let mut command = segment("__TEXT", fileoff, 0);
    command[24..32].copy_from_slice(&le64(vmaddr));
    command
}

fn entry_point(entryoff: u64) -> Vec<u8> {
    let mut command = le32(0x8000_0028).to_vec();
    command.extend_from_slice(&le32(24));
    command.extend_from_slice(&le64(entryoff));
    command.extend_from_slice(&le64(0));
    command
}

#[test]
fn entry_point_below_the_text_segment_is_refused() {
    let below = slice(&[text_segment(0, 1), entry_point(0)], &[]);
    assert!(!check_slice(&below));
    assert!(!check_parse(&below));
    assert_eq!(entitlements(below), Err(Error::MachOParse(UNSAFE.to_string())));
    let beyond = slice(&[text_segment(u64::MAX, 0), entry_point(1)], &[]);
    assert!(!check_parse(&beyond));
    assert_eq!(entitlements(beyond), Err(Error::MachOParse(UNSAFE.to_string())));
    let main_first = slice(&[entry_point(0), text_segment(0, 1)], &[]);
    assert_eq!(entitlements(main_first), Err(Error::MachOParse(UNSAFE.to_string())));
    let second_text = slice(&[text_segment(4096, 0), text_segment(0, 1), entry_point(16)], &[]);
    assert!(check_parse(&second_text));
    assert_eq!(entitlements(second_text), Ok(None));
}

#[test]
fn mappable_entry_points_parse() {
    let plain = slice(&[text_segment(0x1_0000_0000, 0), entry_point(0x4000)], &[]);
    assert!(check_parse(&plain));
    assert_eq!(entitlements(plain), Ok(None));
    let edge = slice(&[text_segment(u64::MAX, 0), entry_point(0)], &[]);
    assert!(check_parse(&edge));
    assert_eq!(entitlements(edge), Ok(None));
    let no_main = slice(&[text_segment(0, 1)], &[]);
    assert!(check_parse(&no_main));
    assert_eq!(entitlements(no_main), Ok(None));
    let no_text = slice(&[entry_point(7)], &[]);
    assert!(check_parse(&no_text));
    assert!(matches!(entitlements(no_text), Err(Error::MachOParse(_))));
    let mut with_signature = signed(&with_entitlements());
    assert!(check_parse(&with_signature));
    with_signature.truncate(40);
    assert!(check_parse(&with_signature));
}

#[test]
fn unsafe_slices_of_a_universal_file_are_refused() {
    let universal = |slices: &[Vec<u8>]| {
        let mut at = 8 + 20 * slices.len() as u32 + 4;
        let mut fat = be32(0xcafebabe).to_vec();
        fat.extend_from_slice(&be32(slices.len() as u32));
        for bytes in slices {
            fat.extend_from_slice(&be32(0x0100_000c));
            fat.extend_from_slice(&be32(0));
            fat.extend_from_slice(&be32(at));
            fat.extend_from_slice(&be32(bytes.len() as u32));
            fat.extend_from_slice(&be32(0));
            at += bytes.len() as u32;
        }
        fat.extend_from_slice(&[0u8; 4]);
        for bytes in slices {
            fat.extend_from_slice(bytes);
        }
        fat
    };
    let good = signed(&with_entitlements());
    let bad = slice(&[text_segment(0, 1), entry_point(0)], &[]);
    let mut library = b"!<arch>\n".to_vec();
    library.extend_from_slice(&[0x20u8; 60]);
    assert!(check_parse(&universal(&[good.clone(), unsigned()])));
    assert_eq!(
        entitlements(universal(&[good.clone(), unsigned()])),
        Ok(Some(ENTITLEMENTS.to_string()))
    );
    assert!(!check_parse(&universal(&[good.clone(), bad.clone()])));
    assert_eq!(
        entitlements(universal(&[good.clone(), bad])),
        Err(Error::MachOParse(UNSAFE.to_string()))
    );
    assert!(!check_parse(&universal(&[library.clone(), good.clone()])));
    assert_eq!(
        entitlements(universal(&[library, good])),
        Err(Error::MachOParse(UNSAFE.to_string()))
    );
    let mut overcounted = universal(&[]);
    overcounted[4..8].copy_from_slice(&be32(1000));
    assert!(check_parse(&overcounted));
    assert!(matches!(entitlements(overcounted), Err(Error::MachOParse(_))));
}

#[test]
fn words_are_read_in_either_byte_order() {
    let bytes = [1u8, 2, 3, 4, 5, 6, 7, 8, 9];
    assert_eq!(read_word32(&bytes, 0, false), 0x0102_0304);
    assert_eq!(read_word32(&bytes, 0, true), 0x0403_0201);
    assert_eq!(read_word32(&bytes, 5, true), 0x0908_0706);
    assert_eq!(read_word64(&bytes, 0, false), 0x0102_0304_0506_0708);
    assert_eq!(read_word64(&bytes, 1, true), 0x0908_0706_0504_0302);
    assert_eq!(read_word64(&[0xff; 8], 0, true), u64::MAX);
}

#[test]
fn other_byte_orders_and_widths_are_checked_too() {
    let mut narrow = be32(0xfeedface).to_vec();
    narrow.extend_from_slice(&be32(12));
    narrow.extend_from_slice(&be32(0));
    narrow.extend_from_slice(&be32(2));
    narrow.extend_from_slice(&be32(2));
    narrow.extend_from_slice(&be32(56 + 24));
    narrow.extend_from_slice(&be32(0));
    narrow.extend_from_slice(&be32(1));
    narrow.extend_from_slice(&be32(56));
    narrow.extend_from_slice(b"__TEXT\0\0\0\0\0\0\0\0\0\0");
    narrow.extend_from_slice(&be32(0));
    narrow.extend_from_slice(&be32(0));
    narrow.extend_from_slice(&be32(1));
    narrow.extend_from_slice(&be32(0));
    narrow.extend_from_slice(&[0u8; 16]);
    narrow.extend_from_slice(&be32(0x8000_0028));
    narrow.extend_from_slice(&be32(24));
    narrow.extend_from_slice(&[0u8; 16]);
    assert!(!check_slice(&narrow));
    assert_eq!(entitlements(narrow.clone()), Err(Error::MachOParse(UNSAFE.to_string())));
    narrow[28 + 24..28 + 28].copy_from_slice(&be32(1));
    assert!(check_slice(&narrow));
    assert_eq!(entitlements(narrow), Ok(None));
    assert!(check_slice(b"short"));
    assert!(check_slice(&[0u8; 64]));
}

#[test]
fn signature_is_cut_out_at_the_announced_offset() {
    let signature = with_entitlements();
    let mut tail = vec![0xaau8; 24];
    tail.extend_from_slice(&signature);
    tail.extend_from_slice(&[0xbbu8; 8]);
    let padded = slice(
        &[
            segment("__LINKEDIT", SIGNED_HEADER as u64, tail.len() as u64),
            signature_command(SIGNED_HEADER + 24, signature.len() as u32),
        ],
        &tail,
    );
    assert_eq!(entitlements(padded), Ok(Some(ENTITLEMENTS.to_string())));
    let shifted = slice(
        &[
            segment("__LINKEDIT", SIGNED_HEADER as u64, tail.len() as u64),
            signature_command(SIGNED_HEADER + 23, signature.len() as u32),
        ],
        &tail,
    );
    assert!(matches!(entitlements(shifted), Err(Error::MachOParse(_))));
}
