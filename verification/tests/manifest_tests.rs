use md5::{Digest, Md5};
use smoothly::generate::{archive_file, manifest_text, plain_file};
use smoothly::header::{build_header, ArchiveMeta, EntryHeader, ExtensionPair};
use smoothly::{Addon, FilePart, SwiftyFile};

fn to_hex(bytes: &[u8]) -> String {
    let mut s = String::new();
    for b in bytes {
        s.push_str(&format!("{:02X}", b));
    }
    s
}

fn md5_hex(data: &[u8]) -> String {
    to_hex(&Md5::digest(data))
}

fn part(name: &str, start: usize, size: usize, hash: &str) -> FilePart {
    FilePart { name: name.to_string(), start, size, hash: hash.to_string() }
}

#[test]
fn plain_file_part_naming() {
    // A plain file of 42 bytes yields exactly one part named after it.
    let data: Vec<u8> = vec![7u8; 42];
    let f = plain_file("docs\\readme.txt".to_string(), "readme.txt", &data);
    assert_eq!(f.name, "docs\\readme.txt");
    assert_eq!(f.parts.len(), 1);
    assert_eq!(f.parts[0].name, "readme.txt_42");
    assert_eq!(f.parts[0].start, 0);
    assert_eq!(f.parts[0].size, 42);
    assert_eq!(f.parts[0].hash, md5_hex(&data));
    assert!(f.hash.is_none());
}

#[test]
fn archive_parts_layout() {
    let meta = ArchiveMeta {
        extensions: vec![ExtensionPair { key: "prefix".to_string(), value: "z".to_string() }],
        headers: vec![EntryHeader {
            filename: "a.paa".to_string(),
            method: 0,
            original: 3,
            reserved: 0,
            timestamp: 0,
            size: 3,
        }],
        checksum: vec![9u8; 20],
    };
    let contents = vec![
        ("a.paa".to_string(), vec![1u8, 2, 3]),
        ("b.sqf".to_string(), vec![4u8; 10]),
    ];
    let f = archive_file("@mod\\addons\\thing.pbo".to_string(), &meta, &contents);
    let hdr = build_header(&meta);

    assert_eq!(f.parts.len(), 4);
    assert_eq!(f.parts[0].name, "$$HEADER$$");
    assert_eq!(f.parts[0].start, 0);
    assert_eq!(f.parts[0].size, hdr.len());
    assert_eq!(f.parts[0].hash, md5_hex(&hdr));

    assert_eq!(f.parts[1].name, "a.paa");
    assert_eq!(f.parts[1].start, hdr.len());
    assert_eq!(f.parts[1].size, 3);
    assert_eq!(f.parts[1].hash, md5_hex(&[1, 2, 3]));

    assert_eq!(f.parts[2].name, "b.sqf");
    assert_eq!(f.parts[2].start, hdr.len() + 3);
    assert_eq!(f.parts[2].size, 10);
    assert_eq!(f.parts[2].hash, md5_hex(&[4u8; 10]));

    assert_eq!(f.parts[3].name, "$$END$$");
    assert_eq!(f.parts[3].start, hdr.len() + 13);
    assert_eq!(f.parts[3].size, 21);
    let mut chk = vec![0u8];
    chk.extend_from_slice(&[9u8; 20]);
    assert_eq!(f.parts[3].hash, md5_hex(&chk));
}

#[test]
fn trailer_part_fixed_size() {
    // The trailer reports size 21 whatever the checksum's actual length.
    for n in [0usize, 5, 20, 32] {
        let meta = ArchiveMeta {
            extensions: vec![],
            headers: vec![],
            checksum: vec![1u8; n],
        };
        let contents: Vec<(String, Vec<u8>)> = vec![];
        let f = archive_file("x.pbo".to_string(), &meta, &contents);
        let trailer = f.parts.last().unwrap();
        assert_eq!(trailer.name, "$$END$$");
        assert_eq!(trailer.size, 21);
        let mut chk = vec![0u8];
        chk.extend_from_slice(&vec![1u8; n]);
        assert_eq!(trailer.hash, md5_hex(&chk));
    }
}

#[test]
fn file_part_line_format() {
    let p = part("readme.txt_42", 0, 42, "0123456789ABCDEF0123456789ABCDEF");
    assert_eq!(p.line(), "readme.txt_42:0:42:0123456789ABCDEF0123456789ABCDEF\n");
}

#[test]
fn file_digest_chains_part_hash_text() {
    let h1 = md5_hex(b"one");
    let h2 = md5_hex(b"two");
    let mut f = SwiftyFile::new("data.bin".to_string());
    f.parts.push(part("a", 0, 3, &h1));
    f.parts.push(part("b", 3, 3, &h2));
    let expected = md5_hex(format!("{}{}", h1, h2).as_bytes());
    assert_eq!(f.hash(), expected);
}

#[test]
fn file_line_kinds_and_contents() {
    let h = md5_hex(b"payload");
    let mut plain = SwiftyFile::new("notes.txt".to_string());
    plain.parts.push(part("notes.txt_7", 0, 7, &h));
    let fh = md5_hex(h.as_bytes());
    assert_eq!(
        plain.line(),
        format!("FILE:notes.txt:7:1:{}\nnotes.txt_7:0:7:{}\n", fh, h)
    );

    let mut archive = SwiftyFile::new("addons\\core.pbo".to_string());
    archive.parts.push(part("$$HEADER$$", 0, 9, &h));
    let ah = md5_hex(h.as_bytes());
    assert_eq!(
        archive.line(),
        format!("PBO:addons\\core.pbo:9:1:{}\n$$HEADER$$:0:9:{}\n", ah, h)
    );
}

#[test]
fn digest_memoization_is_idempotent() {
    let h = md5_hex(b"first");
    let mut f = SwiftyFile::new("f.bin".to_string());
    f.parts.push(part("p", 0, 5, &h));
    let first = f.hash();
    let second = f.hash();
    assert_eq!(first, second);
    // Mutating the part data afterwards must not change the memoized value.
    f.parts[0].hash = md5_hex(b"changed");
    assert_eq!(f.hash(), first);

    let mut a = Addon::new("mod".to_string());
    a.files.push(f);
    let d1 = a.hash();
    a.files[0].parts[0].hash = md5_hex(b"changed again");
    assert_eq!(a.hash(), d1);
}

#[test]
fn mod_digest_sorts_files_by_name() {
    let ha = md5_hex(b"aaa");
    let hb = md5_hex(b"bbb");
    let mut fa = SwiftyFile::new("alpha".to_string());
    fa.parts.push(part("alpha_3", 0, 3, &ha));
    let mut fb = SwiftyFile::new("beta".to_string());
    fb.parts.push(part("beta_3", 0, 3, &hb));
    let da = fa.hash();
    let db = fb.hash();

    // Files pushed out of name order: digest must chain alpha then beta.
    let mut a = Addon::new("m".to_string());
    a.files.push(fb.clone());
    a.files.push(fa.clone());
    let expected = md5_hex(format!("{}{}", da, db).as_bytes());
    assert_eq!(a.hash(), expected);
}

#[test]
fn mod_digest_is_order_invariant() {
    let h1 = md5_hex(b"x");
    let h2 = md5_hex(b"y");
    let mut f1 = SwiftyFile::new("one".to_string());
    f1.parts.push(part("one_1", 0, 1, &h1));
    let mut f2 = SwiftyFile::new("two".to_string());
    f2.parts.push(part("two_1", 0, 1, &h2));

    let mut forward = Addon::new("m".to_string());
    forward.files.push(f1.clone());
    forward.files.push(f2.clone());
    let mut backward = Addon::new("m".to_string());
    backward.files.push(f2);
    backward.files.push(f1);

    assert_eq!(forward.hash(), backward.hash());
    // The file listing keeps its own order, so the texts differ.
    let t_forward = manifest_text(&mut forward);
    let t_backward = manifest_text(&mut backward);
    assert_ne!(t_forward, t_backward);
    assert_eq!(t_forward.lines().next(), t_backward.lines().next());
}

#[test]
fn addon_line_format() {
    let h = md5_hex(b"c");
    let mut f = SwiftyFile::new("n".to_string());
    f.parts.push(part("n_1", 0, 1, &h));
    let fd = md5_hex(h.as_bytes());
    let mut a = Addon::new("my_mod".to_string());
    a.files.push(f);
    let md = md5_hex(fd.as_bytes());
    assert_eq!(a.line(), format!("ADDON:my_mod:1:{}\n", md));
}

#[test]
fn manifest_text_is_deterministic() {
    fn build() -> Addon {
        let h1 = md5_hex(b"content one");
        let h2 = md5_hex(b"content two");
        let mut f1 = SwiftyFile::new("zeta.pbo".to_string());
        f1.parts.push(part("$$HEADER$$", 0, 4, &h1));
        f1.parts.push(part("$$END$$", 4, 21, &h2));
        let mut f2 = SwiftyFile::new("alpha.txt".to_string());
        f2.parts.push(part("alpha.txt_9", 0, 9, &h2));
        let mut a = Addon::new("sample".to_string());
        a.files.push(f1);
        a.files.push(f2);
        a
    }
    let mut run1 = build();
    let mut run2 = build();
    let t1 = manifest_text(&mut run1);
    let t2 = manifest_text(&mut run2);
    assert_eq!(t1, t2);
    assert_eq!(run1.hash(), run2.hash());
    // The text embeds the memoized digest and lists files in given order.
    assert!(t1.starts_with(&format!("ADDON:sample:2:{}\n", run1.hash())));
    let lines: Vec<&str> = t1.lines().collect();
    assert!(lines[1].starts_with("PBO:zeta.pbo:25:2:"));
    assert!(lines[4].starts_with("FILE:alpha.txt:9:1:"));
}

#[test]
fn empty_addon_manifest() {
    let mut a = Addon::new("empty".to_string());
    let expected = md5_hex(b"");
    assert_eq!(a.hash(), expected);
    let text = manifest_text(&mut a);
    assert_eq!(text, format!("ADDON:empty:0:{}\n", expected));
}
