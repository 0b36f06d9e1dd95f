//! Manifest hash engine for game-mod repositories.
//!
//! A repository is a directory tree of mods; each mod is packaged for
//! distribution together with a companion manifest that a downstream client
//! uses to detect which files changed.  This crate rebuilds the canonical
//! byte form of an archive's header metadata, digests byte streams, chains
//! the digests into file-level and mod-level hashes, and renders the
//! manifest text, all under verified contracts.

use vstd::prelude::*;

pub mod bytes;
pub mod generate;
pub mod hashing;
pub mod header;
pub mod interact;
pub mod laws;
pub mod order;
pub mod repo;
pub mod paths;
pub mod render;

use crate::bytes::{chars_bytes, chars_to_bytes};
use crate::hashing::{md5_of, md5_digest};
use crate::render::{hex_of, dec_of, hex_upper, dec_usize};
use crate::order::{entry_ord, entry_views, sort_entries};
use crate::paths::is_pbo_name;

verus! {

/// What the interactive manager decided to do with one mod.
#[derive(PartialEq, Eq, Structural, Debug, Clone)]
pub enum Transaction {
    Add,
    Update,
    Remove,
    Ignore,
    Existing,
}

/// Whether a tracked mod is required or optional, and whether it is on.
#[derive(PartialEq, Eq, Structural, Debug, Clone)]
pub enum State {
    Disabled,
    Enabled,
    OptionalDisabled,
    OptionalEnabled,
}

/// One addressable, hashed byte range of a manifest entry.
#[derive(Clone)]
pub struct FilePart {
    pub name: String,
    pub start: usize,
    pub size: usize,
    pub hash: String,
}

/// One manifest entry: a filesystem entry of a mod, as an ordered run of
/// parts, with its file-level digest memoized once computed.
#[derive(Clone)]
pub struct SwiftyFile {
    pub name: String,
    pub parts: Vec<FilePart>,
    pub hash: Option<String>,
}

/// One mod: its manifest entries in traversal order, with the mod-level
/// digest memoized once computed.
pub struct Addon {
    pub name: String,
    pub files: Vec<SwiftyFile>,
    pub hash: Option<String>,
}

/// The bytes fed into a file digest: each part's hash text, in part order,
/// with characters mapped one-to-one to bytes.
pub open spec fn parts_hash_bytes(parts: Seq<FilePart>) -> Seq<u8>
    decreases parts.len(),
{
    if parts.len() == 0 {
        Seq::empty()
    } else {
        parts_hash_bytes(parts.drop_last()) + chars_bytes(parts.last().hash@)
    }
}

/// A file's digest text: the MD5 of its parts' hash text, in uppercase hex.
pub open spec fn file_digest_chars(parts: Seq<FilePart>) -> Seq<char> {
    hex_of(md5_of(parts_hash_bytes(parts)))
}

/// The digest a file reports: its memoized value if one was computed, else
/// the digest of its current parts.
pub open spec fn file_effective_digest(f: SwiftyFile) -> Seq<char> {
    match f.hash {
        Option::Some(h) => h@,
        Option::None => file_digest_chars(f.parts@),
    }
}

/// The sum of the part sizes: a file's derived size.
pub open spec fn parts_size_sum(parts: Seq<FilePart>) -> int
    decreases parts.len(),
{
    if parts.len() == 0 {
        0
    } else {
        parts_size_sum(parts.drop_last()) + parts.last().size
    }
}

/// Every prefix sum of part sizes is bounded by the whole sum.
pub proof fn lemma_partial_size_sum(parts: Seq<FilePart>, i: int)
    requires
        0 <= i <= parts.len(),
    ensures
        parts_size_sum(parts.take(i)) <= parts_size_sum(parts),
    decreases parts.len() - i,
{
    if i == parts.len() {
        assert(parts.take(i) =~= parts);
    } else {
        lemma_partial_size_sum(parts, i + 1);
        assert(parts.take(i + 1).drop_last() =~= parts.take(i));
    }
}

/// One part's manifest line.
pub open spec fn part_line_chars(p: FilePart) -> Seq<char> {
    p.name@ + seq![':'] + dec_of(p.start as int) + seq![':'] + dec_of(p.size as int) + seq![':']
        + p.hash@ + seq!['\n']
}

/// The manifest lines of a run of parts, in order.
pub open spec fn part_lines_chars(parts: Seq<FilePart>) -> Seq<char>
    decreases parts.len(),
{
    if parts.len() == 0 {
        Seq::empty()
    } else {
        part_lines_chars(parts.drop_last()) + part_line_chars(parts.last())
    }
}

/// The entry kind written for a file: archive entries by extension, plain
/// entries otherwise.
pub open spec fn swifty_kind_chars(name: Seq<char>) -> Seq<char> {
    if is_pbo_name(name) {
        seq!['P', 'B', 'O']
    } else {
        seq!['F', 'I', 'L', 'E']
    }
}

/// A file's own manifest line: kind, name, derived size, part count and
/// digest text.
pub open spec fn swifty_header_line_chars(f: SwiftyFile) -> Seq<char> {
    swifty_kind_chars(f.name@) + seq![':'] + f.name@ + seq![':'] + dec_of(parts_size_sum(f.parts@))
        + seq![':'] + dec_of(f.parts@.len() as int) + seq![':'] + file_effective_digest(f) + seq![
        '\n',
    ]
}

/// A file's manifest block: its own line, then one line per part.
pub open spec fn swifty_line_chars(f: SwiftyFile) -> Seq<char> {
    swifty_header_line_chars(f) + part_lines_chars(f.parts@)
}

/// A mod's files as (name, digest text) entries, in file order.
pub open spec fn file_entries(files: Seq<SwiftyFile>) -> Seq<(Seq<char>, Seq<char>)> {
    files.map_values(|f: SwiftyFile| (f.name@, file_effective_digest(f)))
}

/// The bytes fed into a mod digest: each entry's digest text, characters
/// mapped one-to-one to bytes.
pub open spec fn entries_digest_bytes(s: Seq<(Seq<char>, Seq<char>)>) -> Seq<u8>
    decreases s.len(),
{
    if s.len() == 0 {
        Seq::empty()
    } else {
        entries_digest_bytes(s.drop_last()) + chars_bytes(s.last().1)
    }
}

/// A mod's digest text: the MD5, in uppercase hex, of its files' digest
/// text taken in name order — not traversal order — so the value does not
/// depend on how the directory was walked.
pub open spec fn addon_digest_chars(files: Seq<SwiftyFile>) -> Seq<char> {
    hex_of(md5_of(entries_digest_bytes(file_entries(files).sort_by(entry_ord()))))
}

/// The digest a mod reports: its memoized value if one was computed, else
/// the digest of its current files.
pub open spec fn addon_effective_digest(a: Addon) -> Seq<char> {
    match a.hash {
        Option::Some(h) => h@,
        Option::None => addon_digest_chars(a.files@),
    }
}

/// A mod's own manifest line: name, file count and digest text.
pub open spec fn addon_line_chars(a: Addon) -> Seq<char> {
    seq!['A', 'D', 'D', 'O', 'N', ':'] + a.name@ + seq![':'] + dec_of(a.files@.len() as int)
        + seq![':'] + addon_effective_digest(a) + seq!['\n']
}

/// Computes a file digest from its parts: MD5 over the parts' hash text.
fn compute_file_digest(parts: &Vec<FilePart>) -> (r: String)
    ensures
        r@ == file_digest_chars(parts@),
{
    let n = parts.len();
    let mut data: Vec<u8> = Vec::new();
    let mut i: usize = 0;
    while i < n
        invariant
            i <= n,
            n == parts@.len(),
            data@ == parts_hash_bytes(parts@.take(i as int)),
        decreases n - i,
    {
        let mut b = chars_to_bytes(parts[i].hash.as_str());
        data.append(&mut b);
        proof {
            let t = parts@.take(i + 1 as int);
            assert(t.drop_last() =~= parts@.take(i as int));
            assert(t.last() == parts@[i as int]);
        }
        i = i + 1;
    }
    proof {
        assert(parts@.take(n as int) =~= parts@);
    }
    let d = md5_digest(data.as_slice());
    hex_upper(d.as_slice())
}

impl FilePart {
    /// This part's manifest line.
    pub fn line(&self) -> (r: String)
        ensures
            r@ == part_line_chars(*self),
    {
        proof {
            reveal_strlit(":");
            reveal_strlit("\n");
        }
        let mut out = self.name.clone();
        out.append(":");
        out.append(dec_usize(self.start).as_str());
        out.append(":");
        out.append(dec_usize(self.size).as_str());
        out.append(":");
        out.append(self.hash.as_str());
        out.append("\n");
        proof {
            assert(out@ =~= part_line_chars(*self));
        }
        out
    }
}

impl SwiftyFile {
    /// A fresh manifest entry with no parts and no digest yet.
    pub fn new(name: String) -> (r: Self)
        ensures
            r.name == name,
            r.parts@ == Seq::<FilePart>::empty(),
            r.hash is None,
    {
        Self { name, parts: Vec::new(), hash: None }
    }

    /// This entry's derived size: the sum of its part sizes.
    pub fn size(&self) -> (r: usize)
        requires
            parts_size_sum(self.parts@) <= usize::MAX,
        ensures
            r == parts_size_sum(self.parts@),
    {
        let n = self.parts.len();
        let mut total: usize = 0;
        let mut i: usize = 0;
        while i < n
            invariant
                i <= n,
                n == self.parts@.len(),
                parts_size_sum(self.parts@) <= usize::MAX,
                total == parts_size_sum(self.parts@.take(i as int)),
            decreases n - i,
        {
            proof {
                lemma_partial_size_sum(self.parts@, i + 1);
                assert(self.parts@.take(i + 1).drop_last() =~= self.parts@.take(i as int));
                assert(self.parts@.take(i + 1).last() == self.parts@[i as int]);
            }
            total = total + self.parts[i].size;
            i = i + 1;
        }
        proof {
            assert(self.parts@.take(n as int) =~= self.parts@);
        }
        total
    }

    /// This entry's digest text, computed once and then served from the
    /// memo: a second call returns the memoized value even if the parts
    /// have changed since.
    pub fn hash(&mut self) -> (r: String)
        ensures
            final(self).name == old(self).name,
            final(self).parts == old(self).parts,
            final(self).hash == Some(r),
            r@ == file_effective_digest(*old(self)),
    {
        match &self.hash {
            Some(h) => h.clone(),
            None => {
                let hx = compute_file_digest(&self.parts);
                self.hash = Some(hx.clone());
                hx
            },
        }
    }

    /// This entry's manifest block: its own line, then one line per part.
    /// Computes and memoizes the digest if none was memoized yet.
    pub fn line(&mut self) -> (r: String)
        requires
            parts_size_sum(old(self).parts@) <= usize::MAX,
        ensures
            final(self).name == old(self).name,
            final(self).parts == old(self).parts,
            final(self).hash is Some,
            file_effective_digest(*final(self)) == file_effective_digest(*old(self)),
            r@ == swifty_line_chars(*old(self)),
    {
        let _memoized = self.hash();
        let r = swifty_line_text(&*self);
        proof {
            assert(swifty_line_chars(*self) =~= swifty_line_chars(*old(self)));
        }
        r
    }
}

/// Renders an entry's manifest block without touching its memo: the block
/// of an entry whose digest is already memoized embeds the memoized value.
pub(crate) fn swifty_line_text(f: &SwiftyFile) -> (r: String)
    requires
        parts_size_sum(f.parts@) <= usize::MAX,
    ensures
        r@ == swifty_line_chars(*f),
{
    proof {
        reveal_strlit("PBO");
        reveal_strlit("FILE");
        reveal_strlit(":");
        reveal_strlit("\n");
    }
    let h: String = match &f.hash {
        Some(h) => h.clone(),
        None => compute_file_digest(&f.parts),
    };
    let kind: &str = if crate::paths::name_is_pbo(f.name.as_str()) {
        "PBO"
    } else {
        "FILE"
    };
    let mut out = String::new();
    out.append(kind);
    out.append(":");
    out.append(f.name.as_str());
    out.append(":");
    out.append(dec_usize(f.size()).as_str());
    out.append(":");
    out.append(dec_usize(f.parts.len()).as_str());
    out.append(":");
    out.append(h.as_str());
    out.append("\n");
    proof {
        assert(out@ =~= swifty_header_line_chars(*f));
    }
    let ghost head = out@;
    let n = f.parts.len();
    let mut i: usize = 0;
    while i < n
        invariant
            i <= n,
            n == f.parts@.len(),
            out@ == head + part_lines_chars(f.parts@.take(i as int)),
        decreases n - i,
    {
        let pl = f.parts[i].line();
        out.append(pl.as_str());
        proof {
            let t = f.parts@.take(i + 1 as int);
            assert(t.drop_last() =~= f.parts@.take(i as int));
            assert(t.last() == f.parts@[i as int]);
            assert(out@ =~= head + part_lines_chars(t));
        }
        i = i + 1;
    }
    proof {
        assert(f.parts@.take(n as int) =~= f.parts@);
    }
    out
}

impl Addon {
    /// A fresh mod with no files and no digest yet.
    pub fn new(name: String) -> (r: Self)
        ensures
            r.name == name,
            r.files@ == Seq::<SwiftyFile>::empty(),
            r.hash is None,
    {
        Self { name, files: Vec::new(), hash: None }
    }

    /// This mod's digest text, computed once and then served from the
    /// memo: the files' digest text is chained in name order, so the value
    /// does not depend on the order the files were added in.
    pub fn hash(&mut self) -> (r: String)
        ensures
            final(self).name == old(self).name,
            final(self).files == old(self).files,
            final(self).hash == Some(r),
            r@ == addon_effective_digest(*old(self)),
    {
        match &self.hash {
            Some(h) => h.clone(),
            None => {
                let n = self.files.len();
                let mut entries: Vec<(String, String)> = Vec::new();
                let mut i: usize = 0;
                proof {
                    assert(entry_views(entries@) =~= file_entries(self.files@).take(0));
                }
                while i < n
                    invariant
                        i <= n,
                        n == self.files@.len(),
                        *self == *old(self),
                        entry_views(entries@) == file_entries(self.files@).take(i as int),
                    decreases n - i,
                {
                    let ghost evs = entry_views(entries@);
                    let f = &self.files[i];
                    let d: String = match &f.hash {
                        Some(h) => h.clone(),
                        None => compute_file_digest(&f.parts),
                    };
                    entries.push((f.name.clone(), d));
                    proof {
                        let fe = file_entries(self.files@);
                        assert(d@ == file_effective_digest(self.files@[i as int]));
                        assert(entry_views(entries@) =~= evs.push(
                            (self.files@[i as int].name@, d@),
                        ));
                        assert(fe[i as int] == (
                            self.files@[i as int].name@,
                            file_effective_digest(self.files@[i as int]),
                        ));
                        assert(fe.take(i + 1 as int) =~= fe.take(i as int).push(fe[i as int]));
                        assert(entry_views(entries@) =~= fe.take(i + 1 as int));
                    }
                    i = i + 1;
                }
                proof {
                    assert(file_entries(self.files@).take(n as int) =~= file_entries(self.files@));
                }
                let sorted = sort_entries(&entries);
                let ghost sv = entry_views(sorted@);
                let m = sorted.len();
                let mut data: Vec<u8> = Vec::new();
                let mut j: usize = 0;
                while j < m
                    invariant
                        j <= m,
                        m == sorted@.len(),
                        sv == entry_views(sorted@),
                        data@ == entries_digest_bytes(sv.take(j as int)),
                    decreases m - j,
                {
                    let mut b = chars_to_bytes(sorted[j].1.as_str());
                    data.append(&mut b);
                    proof {
                        let t = sv.take(j + 1 as int);
                        assert(t.drop_last() =~= sv.take(j as int));
                        assert(t.last() == sv[j as int]);
                        assert(sv[j as int] == (sorted@[j as int].0@, sorted@[j as int].1@));
                    }
                    j = j + 1;
                }
                proof {
                    assert(sv.take(m as int) =~= sv);
                }
                let dg = md5_digest(data.as_slice());
                let hx = hex_upper(dg.as_slice());
                self.hash = Some(hx.clone());
                hx
            },
        }
    }

    /// This mod's own manifest line.  Computes and memoizes the digest if
    /// none was memoized yet.
    pub fn line(&mut self) -> (r: String)
        ensures
            final(self).name == old(self).name,
            final(self).files == old(self).files,
            final(self).hash is Some,
            addon_effective_digest(*final(self)) == addon_effective_digest(*old(self)),
            r@ == addon_line_chars(*old(self)),
    {
        proof {
            reveal_strlit("ADDON:");
            reveal_strlit(":");
            reveal_strlit("\n");
        }
        let h = self.hash();
        let mut out = String::new();
        out.append("ADDON:");
        out.append(self.name.as_str());
        out.append(":");
        out.append(dec_usize(self.files.len()).as_str());
        out.append(":");
        out.append(h.as_str());
        out.append("\n");
        proof {
            assert(out@ =~= addon_line_chars(*old(self)));
        }
        out
    }
}

} // verus!
