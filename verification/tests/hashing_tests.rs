use md5::{Digest, Md5};
use sha1::Sha1;
use smoothly::hashing::{image_checksum, md5_digest, md5_digest_chunked, ContentHasher};
use smoothly::render::{dec_u64, hex_upper};

fn to_hex(bytes: &[u8]) -> String {
    let mut s = String::new();
    for b in bytes {
        s.push_str(&format!("{:02X}", b));
    }
    s
}

#[test]
fn chunked_and_whole_digests_agree() {
    // A 10 MiB source hashed via 4 MiB chunks and via one read.
    let data: Vec<u8> = (0..10 * 1024 * 1024u32).map(|i| (i % 251) as u8).collect();
    let whole = md5_digest(&data);
    let chunked = md5_digest_chunked(&data);
    assert_eq!(whole, chunked);
    let reference = Md5::digest(&data);
    assert_eq!(whole.as_slice(), reference.as_slice());
}

#[test]
fn streaming_hasher_matches_one_shot() {
    let mut h = ContentHasher::new();
    h.update(b"hello ");
    h.update(b"");
    h.update(b"world");
    let d = h.finish();
    let reference = Md5::digest(b"hello world");
    assert_eq!(d.as_slice(), reference.as_slice());
}

#[test]
fn empty_digest_matches_reference() {
    let d = md5_digest(&[]);
    let reference = Md5::digest(b"");
    assert_eq!(d.as_slice(), reference.as_slice());
}

#[test]
fn hex_upper_renders_fixed_width() {
    assert_eq!(hex_upper(&[]), "");
    assert_eq!(hex_upper(&[0x00]), "00");
    assert_eq!(hex_upper(&[0x0F, 0xA0, 0xFF]), "0FA0FF");
    assert_eq!(hex_upper(&[0xDE, 0xAD, 0xBE, 0xEF]), "DEADBEEF");
}

#[test]
fn digest_hex_is_32_uppercase_chars() {
    let d = md5_digest(b"abc");
    let h = hex_upper(&d);
    assert_eq!(h.len(), 32);
    assert_eq!(h, to_hex(&d));
    assert!(h.chars().all(|c| c.is_ascii_digit() || ('A'..='F').contains(&c)));
}

#[test]
fn decimal_rendering() {
    assert_eq!(dec_u64(0), "0");
    assert_eq!(dec_u64(7), "7");
    assert_eq!(dec_u64(42), "42");
    assert_eq!(dec_u64(1234567890), "1234567890");
    assert_eq!(dec_u64(u64::MAX), format!("{}", u64::MAX));
}

#[test]
fn image_checksum_is_sha1_hex() {
    let data = b"not really a png";
    let c = image_checksum(data);
    assert_eq!(c.len(), 40);
    let reference = <Sha1 as Digest>::digest(data);
    assert_eq!(c, to_hex(&reference));
}
