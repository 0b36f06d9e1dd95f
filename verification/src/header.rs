//! Canonical reconstruction of an archive's header region.
//!
//! The downstream protocol hashes a synthetic byte blob rebuilt from the
//! archive's metadata — never the archive's real bytes.  The blob is, in
//! order: a zero-filled "version" entry opened by one zero byte and the
//! 32-bit tag `0x5665_7273`; the extension key/value pairs, each string
//! followed by one zero byte; one zero byte closing the extensions; every
//! entry header as its filename, a zero byte and five little-endian 32-bit
//! fields; and a zero-filled sentinel entry marking the end.  All strings
//! map characters one-to-one to their low bytes.

use vstd::prelude::*;
use crate::bytes::{chars_bytes, push_chars, push_u32_le, u32_le_bytes};

verus! {

/// The 32-bit tag that opens the version entry.
pub const VERSION_TAG: u32 = 0x5665_7273;

/// One key/value pair from the archive's extension block, in its original
/// order among the pairs.
pub struct ExtensionPair {
    pub key: String,
    pub value: String,
}

/// One internal entry's header: its path inside the archive and the five
/// unsigned 32-bit fields the archive stores for it.
pub struct EntryHeader {
    pub filename: String,
    pub method: u32,
    pub original: u32,
    pub reserved: u32,
    pub timestamp: u32,
    pub size: u32,
}

/// The metadata an outside archive reader yields for one archive: the
/// ordered extension pairs, the ordered entry headers, and the trailing
/// checksum bytes.
pub struct ArchiveMeta {
    pub extensions: Vec<ExtensionPair>,
    pub headers: Vec<EntryHeader>,
    pub checksum: Vec<u8>,
}

/// Four zero-filled 32-bit fields.
pub open spec fn four_zero_fields() -> Seq<u8> {
    u32_le_bytes(0) + u32_le_bytes(0) + u32_le_bytes(0) + u32_le_bytes(0)
}

/// The version entry: one zero byte, the tag, and four zero fields.
pub open spec fn version_entry_bytes() -> Seq<u8> {
    seq![0u8] + u32_le_bytes(VERSION_TAG) + four_zero_fields()
}

/// One extension pair: key bytes, a zero byte, value bytes, a zero byte.
pub open spec fn extension_bytes(p: ExtensionPair) -> Seq<u8> {
    chars_bytes(p.key@) + seq![0u8] + chars_bytes(p.value@) + seq![0u8]
}

/// All extension pairs, in order.
pub open spec fn extensions_bytes(s: Seq<ExtensionPair>) -> Seq<u8>
    decreases s.len(),
{
    if s.len() == 0 {
        Seq::empty()
    } else {
        extensions_bytes(s.drop_last()) + extension_bytes(s.last())
    }
}

/// One entry header: filename bytes, a zero byte, then the five fields in
/// little-endian order.
pub open spec fn entry_bytes(h: EntryHeader) -> Seq<u8> {
    chars_bytes(h.filename@) + seq![0u8] + u32_le_bytes(h.method) + u32_le_bytes(h.original)
        + u32_le_bytes(h.reserved) + u32_le_bytes(h.timestamp) + u32_le_bytes(h.size)
}

/// All entry headers, in order.
pub open spec fn entries_bytes(s: Seq<EntryHeader>) -> Seq<u8>
    decreases s.len(),
{
    if s.len() == 0 {
        Seq::empty()
    } else {
        entries_bytes(s.drop_last()) + entry_bytes(s.last())
    }
}

/// The end-of-headers sentinel: one zero byte and five zero fields.
pub open spec fn boundary_bytes() -> Seq<u8> {
    seq![0u8] + u32_le_bytes(0) + four_zero_fields()
}

/// The whole reconstructed header region of an archive.
pub open spec fn header_bytes(m: ArchiveMeta) -> Seq<u8> {
    version_entry_bytes() + extensions_bytes(m.extensions@) + seq![0u8] + entries_bytes(m.headers@)
        + boundary_bytes()
}

/// Appends one zero byte and four zero fields — nothing in the version
/// entry but its tag, and nothing in the sentinel entry at all, carries a
/// value.
fn push_zero_entry(out: &mut Vec<u8>, tag: u32)
    ensures
        final(out)@ == old(out)@ + seq![0u8] + u32_le_bytes(tag) + four_zero_fields(),
{
    out.push(0u8);
    push_u32_le(out, tag);
    push_u32_le(out, 0);
    push_u32_le(out, 0);
    push_u32_le(out, 0);
    push_u32_le(out, 0);
}

/// Rebuilds the canonical header byte blob of the archive described by
/// `meta`.  A pure transformation: every input, malformed or not, has
/// exactly one output.
pub fn build_header(meta: &ArchiveMeta) -> (r: Vec<u8>)
    ensures
        r@ == header_bytes(*meta),
{
    let mut out: Vec<u8> = Vec::new();
    push_zero_entry(&mut out, VERSION_TAG);
    proof {
        assert(out@ =~= version_entry_bytes());
    }

    let ghost prefix = version_entry_bytes();
    let n_ext = meta.extensions.len();
    let mut i: usize = 0;
    while i < n_ext
        invariant
            i <= n_ext,
            n_ext == meta.extensions@.len(),
            out@ == prefix + extensions_bytes(meta.extensions@.take(i as int)),
        decreases n_ext - i,
    {
        let p = &meta.extensions[i];
        push_chars(&mut out, p.key.as_str());
        out.push(0u8);
        push_chars(&mut out, p.value.as_str());
        out.push(0u8);
        proof {
            let t = meta.extensions@.take(i + 1 as int);
            assert(t.drop_last() =~= meta.extensions@.take(i as int));
            assert(out@ =~= prefix + extensions_bytes(t));
        }
        i = i + 1;
    }
    proof {
        assert(meta.extensions@.take(n_ext as int) =~= meta.extensions@);
    }

    out.push(0u8);
    let ghost prefix2 = prefix + extensions_bytes(meta.extensions@) + seq![0u8];
    proof {
        assert(out@ =~= prefix2);
    }
    let n_hdr = meta.headers.len();
    let mut j: usize = 0;
    while j < n_hdr
        invariant
            j <= n_hdr,
            n_hdr == meta.headers@.len(),
            out@ == prefix2 + entries_bytes(meta.headers@.take(j as int)),
        decreases n_hdr - j,
    {
        let h = &meta.headers[j];
        push_chars(&mut out, h.filename.as_str());
        out.push(0u8);
        push_u32_le(&mut out, h.method);
        push_u32_le(&mut out, h.original);
        push_u32_le(&mut out, h.reserved);
        push_u32_le(&mut out, h.timestamp);
        push_u32_le(&mut out, h.size);
        proof {
            let t = meta.headers@.take(j + 1 as int);
            assert(t.drop_last() =~= meta.headers@.take(j as int));
            assert(out@ =~= prefix2 + entries_bytes(t));
        }
        j = j + 1;
    }
    proof {
        assert(meta.headers@.take(n_hdr as int) =~= meta.headers@);
    }

    push_zero_entry(&mut out, 0);
    proof {
        assert(out@ =~= header_bytes(*meta));
    }
    out
}

} // verus!
