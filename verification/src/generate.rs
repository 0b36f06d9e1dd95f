//! Building manifest entries and whole manifests.
//!
//! An archive entry becomes one synthetic header part (the digest of the
//! reconstructed header region), one part per internal file in original
//! archive order, and one synthetic trailer part for the trailing checksum.
//! A plain file becomes a single part.  The parts' starts are cumulative
//! offsets from the reconstructed header length onward — informational
//! only, not offsets into the real archive.

use vstd::prelude::*;
use crate::{FilePart, SwiftyFile, Addon};
use crate::{parts_size_sum, swifty_line_chars, addon_line_chars, addon_effective_digest};
use crate::header::{ArchiveMeta, header_bytes, build_header};
use crate::hashing::{md5_of, md5_digest, md5_digest_chunked};
use crate::render::{hex_of, hex_upper, dec_of, dec_usize};

verus! {

/// The total size of the first `k` internal files of an archive.
pub open spec fn content_sizes_prefix(c: Seq<(String, Vec<u8>)>, k: int) -> int
    decreases k,
{
    if k <= 0 {
        0
    } else {
        content_sizes_prefix(c, k - 1) + c[k - 1].1@.len()
    }
}

/// Prefix content sizes never exceed the total.
pub proof fn lemma_content_prefix_mono(c: Seq<(String, Vec<u8>)>, i: int, j: int)
    requires
        0 <= i <= j,
    ensures
        content_sizes_prefix(c, i) <= content_sizes_prefix(c, j),
    decreases j - i,
{
    if i < j {
        lemma_content_prefix_mono(c, i, j - 1);
    }
}

/// The name of the synthetic header part.
pub open spec fn header_part_name() -> Seq<char> {
    seq!['$', '$', 'H', 'E', 'A', 'D', 'E', 'R', '$', '$']
}

/// The name of the synthetic trailer part.
pub open spec fn end_part_name() -> Seq<char> {
    seq!['$', '$', 'E', 'N', 'D', '$', '$']
}

/// Builds the manifest entry for one archive: the header part, one part
/// per internal file (in original archive order, with cumulative starts),
/// and the trailer part, whose size is always 21 whatever length the
/// archive's checksum actually has (a zero byte is put before it).
pub fn archive_file(name: String, meta: &ArchiveMeta, contents: &Vec<(String, Vec<u8>)>) -> (f:
    SwiftyFile)
    requires
        header_bytes(*meta).len() + content_sizes_prefix(contents@, contents@.len() as int)
            <= usize::MAX,
    ensures
        f.name == name,
        f.hash is None,
        f.parts@.len() == 2 + contents@.len(),
        f.parts@[0].name@ == header_part_name(),
        f.parts@[0].start == 0,
        f.parts@[0].size == header_bytes(*meta).len(),
        f.parts@[0].hash@ == hex_of(md5_of(header_bytes(*meta))),
        forall|k: int|
            0 <= k < contents@.len() ==> (#[trigger] f.parts@[k + 1]).name@ == contents@[k].0@
                && f.parts@[k + 1].size == contents@[k].1@.len() && f.parts@[k + 1].start
                == header_bytes(*meta).len() + content_sizes_prefix(contents@, k) && f.parts@[k
                + 1].hash@ == hex_of(md5_of(contents@[k].1@)),
        f.parts@.last().name@ == end_part_name(),
        f.parts@.last().size == 21,
        f.parts@.last().start == header_bytes(*meta).len() + content_sizes_prefix(
            contents@,
            contents@.len() as int,
        ),
        f.parts@.last().hash@ == hex_of(md5_of(seq![0u8] + meta.checksum@)),
{
    proof {
        reveal_strlit("$$HEADER$$");
        reveal_strlit("$$END$$");
    }
    let hdr = build_header(meta);
    let hdr_digest = md5_digest(hdr.as_slice());
    let mut parts: Vec<FilePart> = Vec::new();
    let header_name: String = "$$HEADER$$".to_owned();
    proof {
        assert(header_name@ =~= header_part_name());
    }
    parts.push(
        FilePart { name: header_name, start: 0, size: hdr.len(), hash: hex_upper(
            hdr_digest.as_slice(),
        ) },
    );

    let n = contents.len();
    let mut start: usize = hdr.len();
    let mut i: usize = 0;
    while i < n
        invariant
            i <= n,
            n == contents@.len(),
            header_bytes(*meta).len() + content_sizes_prefix(contents@, n as int) <= usize::MAX,
            hdr@ == header_bytes(*meta),
            start == header_bytes(*meta).len() + content_sizes_prefix(contents@, i as int),
            parts@.len() == 1 + i,
            parts@[0].name@ == header_part_name(),
            parts@[0].start == 0,
            parts@[0].size == header_bytes(*meta).len(),
            parts@[0].hash@ == hex_of(md5_of(header_bytes(*meta))),
            forall|k: int|
                0 <= k < i ==> (#[trigger] parts@[k + 1]).name@ == contents@[k].0@ && parts@[k
                    + 1].size == contents@[k].1@.len() && parts@[k + 1].start == header_bytes(
                    *meta,
                ).len() + content_sizes_prefix(contents@, k) && parts@[k + 1].hash@ == hex_of(
                    md5_of(contents@[k].1@),
                ),
        decreases n - i,
    {
        proof {
            lemma_content_prefix_mono(contents@, i + 1, n as int);
        }
        let data = &contents[i].1;
        let dg = md5_digest_chunked(data.as_slice());
        parts.push(
            FilePart {
                name: contents[i].0.clone(),
                start,
                size: data.len(),
                hash: hex_upper(dg.as_slice()),
            },
        );
        start = start + data.len();
        i = i + 1;
    }

    let mut chk: Vec<u8> = Vec::new();
    chk.push(0u8);
    crate::bytes::push_byte_slice(&mut chk, meta.checksum.as_slice());
    proof {
        assert(chk@ =~= seq![0u8] + meta.checksum@);
    }
    let tdg = md5_digest(chk.as_slice());
    let end_name: String = "$$END$$".to_owned();
    proof {
        assert(end_name@ =~= end_part_name());
    }
    parts.push(FilePart { name: end_name, start, size: 21, hash: hex_upper(tdg.as_slice()) });
    SwiftyFile { name, parts, hash: None }
}

/// Builds the manifest entry for one plain file: a single part named after
/// the file and its byte size, covering the whole content.
pub fn plain_file(rel_name: String, file_name: &str, data: &Vec<u8>) -> (f: SwiftyFile)
    ensures
        f.name == rel_name,
        f.hash is None,
        f.parts@.len() == 1,
        f.parts@[0].name@ == file_name@ + seq!['_'] + dec_of(data@.len() as int),
        f.parts@[0].start == 0,
        f.parts@[0].size == data@.len(),
        f.parts@[0].hash@ == hex_of(md5_of(data@)),
{
    proof {
        reveal_strlit("_");
    }
    let dg = md5_digest_chunked(data.as_slice());
    let mut pname = file_name.to_owned();
    pname.append("_");
    pname.append(dec_usize(data.len()).as_str());
    let mut parts: Vec<FilePart> = Vec::new();
    parts.push(
        FilePart { name: pname, start: 0, size: data.len(), hash: hex_upper(dg.as_slice()) },
    );
    SwiftyFile { name: rel_name, parts, hash: None }
}

/// The manifest blocks of a mod's files, in traversal order.
pub open spec fn files_blocks_chars(files: Seq<SwiftyFile>) -> Seq<char>
    decreases files.len(),
{
    if files.len() == 0 {
        Seq::empty()
    } else {
        files_blocks_chars(files.drop_last()) + swifty_line_chars(files.last())
    }
}

/// A mod's whole manifest text: its own line, then each file's block in
/// traversal order — the file listing keeps traversal order even though
/// the mod digest sorts by name.
pub open spec fn manifest_chars(a: Addon) -> Seq<char> {
    addon_line_chars(a) + files_blocks_chars(a.files@)
}

/// Renders a mod's whole manifest text and memoizes the mod digest.  The
/// text is a pure function of the mod's contents: any two runs over the
/// same contents give the same bytes.
pub fn manifest_text(addon: &mut Addon) -> (r: String)
    requires
        forall|k: int|
            0 <= k < old(addon).files@.len() ==> parts_size_sum(
                #[trigger] old(addon).files@[k].parts@,
            ) <= usize::MAX,
    ensures
        final(addon).name == old(addon).name,
        final(addon).files == old(addon).files,
        final(addon).hash is Some,
        addon_effective_digest(*final(addon)) == addon_effective_digest(*old(addon)),
        r@ == manifest_chars(*old(addon)),
{
    let mut out = addon.line();
    let n = addon.files.len();
    let mut i: usize = 0;
    while i < n
        invariant
            i <= n,
            n == addon.files@.len(),
            addon.name == old(addon).name,
            addon.files == old(addon).files,
            addon.hash is Some,
            addon_effective_digest(*addon) == addon_effective_digest(*old(addon)),
            forall|k: int|
                0 <= k < addon.files@.len() ==> parts_size_sum(#[trigger] addon.files@[k].parts@)
                    <= usize::MAX,
            out@ == addon_line_chars(*old(addon)) + files_blocks_chars(
                addon.files@.take(i as int),
            ),
        decreases n - i,
    {
        let fl = crate::swifty_line_text(&addon.files[i]);
        out.append(fl.as_str());
        proof {
            let t = addon.files@.take(i + 1 as int);
            assert(t.drop_last() =~= addon.files@.take(i as int));
            assert(t.last() == addon.files@[i as int]);
        }
        i = i + 1;
    }
    proof {
        assert(addon.files@.take(n as int) =~= addon.files@);
    }
    out
}

} // verus!
