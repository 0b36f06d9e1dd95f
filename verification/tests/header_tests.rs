use md5::{Digest, Md5};
use smoothly::bytes::transform_u32_to_array_of_u8;
use smoothly::header::{build_header, ArchiveMeta, EntryHeader, ExtensionPair};
use smoothly::render::hex_upper;

fn fixture() -> ArchiveMeta {
    ArchiveMeta {
        extensions: vec![
            ExtensionPair { key: "a".to_string(), value: "1".to_string() },
            ExtensionPair { key: "b".to_string(), value: "2".to_string() },
        ],
        headers: vec![EntryHeader {
            filename: "x.paa".to_string(),
            method: 0,
            original: 100,
            reserved: 0,
            timestamp: 0,
            size: 100,
        }],
        checksum: vec![0u8; 20],
    }
}

fn fixture_bytes() -> Vec<u8> {
    let mut expected: Vec<u8> = Vec::new();
    // Version entry: zero byte, the tag little-endian, four zero fields.
    expected.push(0);
    expected.extend_from_slice(&[0x73, 0x72, 0x65, 0x56]);
    expected.extend_from_slice(&[0u8; 16]);
    // Extension pairs, each string zero-terminated.
    expected.extend_from_slice(b"a\x001\x00b\x002\x00");
    // Zero byte closing the extensions.
    expected.push(0);
    // The entry header: name, zero byte, five little-endian fields.
    expected.extend_from_slice(b"x.paa\x00");
    expected.extend_from_slice(&[0, 0, 0, 0]);
    expected.extend_from_slice(&[100, 0, 0, 0]);
    expected.extend_from_slice(&[0, 0, 0, 0]);
    expected.extend_from_slice(&[0, 0, 0, 0]);
    expected.extend_from_slice(&[100, 0, 0, 0]);
    // End-of-headers sentinel: zero byte and five zero fields.
    expected.push(0);
    expected.extend_from_slice(&[0u8; 20]);
    expected
}

#[test]
fn header_reconstruction_matches_reference() {
    let built = build_header(&fixture());
    let expected = fixture_bytes();
    assert_eq!(expected.len(), 77);
    assert_eq!(built, expected);
    let reference = Md5::digest(&expected);
    let built_digest = smoothly::hashing::md5_digest(&built);
    assert_eq!(built_digest.as_slice(), reference.as_slice());
}

#[test]
fn empty_metadata_header() {
    let meta = ArchiveMeta { extensions: vec![], headers: vec![], checksum: vec![] };
    let built = build_header(&meta);
    let mut expected: Vec<u8> = Vec::new();
    expected.push(0);
    expected.extend_from_slice(&[0x73, 0x72, 0x65, 0x56]);
    expected.extend_from_slice(&[0u8; 16]);
    expected.push(0);
    expected.push(0);
    expected.extend_from_slice(&[0u8; 20]);
    assert_eq!(built, expected);
}

#[test]
fn non_ascii_names_map_one_char_to_one_byte() {
    // The protocol maps each character to its low byte, never to UTF-8.
    let meta = ArchiveMeta {
        extensions: vec![ExtensionPair { key: "é".to_string(), value: "".to_string() }],
        headers: vec![],
        checksum: vec![],
    };
    let built = build_header(&meta);
    // 'é' is U+00E9: one byte 0xE9, not the two UTF-8 bytes 0xC3 0xA9.
    let tail = &built[21..];
    assert_eq!(tail[0], 0xE9);
    assert_eq!(tail[1], 0);
}

#[test]
fn u32_big_endian_bytes() {
    assert_eq!(transform_u32_to_array_of_u8(0x12345678), [0x12, 0x34, 0x56, 0x78]);
    assert_eq!(transform_u32_to_array_of_u8(0), [0, 0, 0, 0]);
    assert_eq!(transform_u32_to_array_of_u8(0x5665_7273), [0x56, 0x65, 0x72, 0x73]);
}

#[test]
fn header_digest_hex_width() {
    let built = build_header(&fixture());
    let d = smoothly::hashing::md5_digest(&built);
    assert_eq!(hex_upper(&d).len(), 32);
}
