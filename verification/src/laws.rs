//! Laws of the manifest hash engine.
//!
//! The manifest text and the mod digest are functions of the mod's
//! contents alone — not of the machine, the path separator, or the order
//! the filesystem happened to hand files back.  The first is stated here
//! as: two mods whose contents agree produce the same manifest text and
//! digest.  The second: two file listings that are permutations of one
//! another produce the same mod digest.

use vstd::prelude::*;
use crate::{FilePart, SwiftyFile, Addon};
use crate::{
    parts_hash_bytes, parts_size_sum, part_lines_chars, part_line_chars, swifty_line_chars,
    file_effective_digest, file_digest_chars, file_entries, addon_digest_chars,
    addon_effective_digest, addon_line_chars,
};
use crate::generate::{files_blocks_chars, manifest_chars};
use crate::order::{entry_ord, lemma_entry_ord_total};
use vstd::seq_lib::lemma_sorted_unique;

verus! {

/// What the engine reads of one part: its name, offset, size and hash
/// text.
pub open spec fn part_model(p: FilePart) -> (Seq<char>, int, int, Seq<char>) {
    (p.name@, p.start as int, p.size as int, p.hash@)
}

/// The models of a run of parts.
pub open spec fn part_models(ps: Seq<FilePart>) -> Seq<(Seq<char>, int, int, Seq<char>)> {
    ps.map_values(|p: FilePart| part_model(p))
}

/// A memo field, seen as text.
pub open spec fn memo_view(h: Option<String>) -> Option<Seq<char>> {
    match h {
        Option::Some(s) => Option::Some(s@),
        Option::None => Option::None,
    }
}

/// Whether two manifest entries agree in everything the engine reads.
pub open spec fn file_model_eq(f1: SwiftyFile, f2: SwiftyFile) -> bool {
    &&& f1.name@ == f2.name@
    &&& part_models(f1.parts@) == part_models(f2.parts@)
    &&& memo_view(f1.hash) == memo_view(f2.hash)
}

/// Whether two file listings agree entry for entry.
pub open spec fn files_model_eq(s1: Seq<SwiftyFile>, s2: Seq<SwiftyFile>) -> bool {
    &&& s1.len() == s2.len()
    &&& forall|k: int| 0 <= k < s1.len() ==> #[trigger] file_model_eq(s1[k], s2[k])
}

/// Whether two mods agree in everything the engine reads.
pub open spec fn addon_model_eq(a: Addon, b: Addon) -> bool {
    &&& a.name@ == b.name@
    &&& files_model_eq(a.files@, b.files@)
    &&& memo_view(a.hash) == memo_view(b.hash)
}

proof fn lemma_parts_hash_bytes_models(p1: Seq<FilePart>, p2: Seq<FilePart>)
    requires
        part_models(p1) == part_models(p2),
    ensures
        parts_hash_bytes(p1) == parts_hash_bytes(p2),
    decreases p1.len(),
{
    assert(part_models(p1).len() == p1.len());
    assert(part_models(p2).len() == p2.len());
    if p1.len() > 0 {
        assert(part_models(p1.drop_last()) =~= part_models(p1).drop_last());
        assert(part_models(p2.drop_last()) =~= part_models(p2).drop_last());
        lemma_parts_hash_bytes_models(p1.drop_last(), p2.drop_last());
        assert(part_model(p1.last()) == part_models(p1)[p1.len() - 1]);
        assert(part_model(p2.last()) == part_models(p2)[p2.len() - 1]);
        assert(p1.last().hash@ == p2.last().hash@);
    }
}

proof fn lemma_parts_size_sum_models(p1: Seq<FilePart>, p2: Seq<FilePart>)
    requires
        part_models(p1) == part_models(p2),
    ensures
        parts_size_sum(p1) == parts_size_sum(p2),
    decreases p1.len(),
{
    assert(part_models(p1).len() == p1.len());
    assert(part_models(p2).len() == p2.len());
    if p1.len() > 0 {
        assert(part_models(p1.drop_last()) =~= part_models(p1).drop_last());
        assert(part_models(p2.drop_last()) =~= part_models(p2).drop_last());
        lemma_parts_size_sum_models(p1.drop_last(), p2.drop_last());
        assert(part_model(p1.last()) == part_models(p1)[p1.len() - 1]);
        assert(part_model(p2.last()) == part_models(p2)[p2.len() - 1]);
    }
}

proof fn lemma_part_lines_models(p1: Seq<FilePart>, p2: Seq<FilePart>)
    requires
        part_models(p1) == part_models(p2),
    ensures
        part_lines_chars(p1) == part_lines_chars(p2),
    decreases p1.len(),
{
    assert(part_models(p1).len() == p1.len());
    assert(part_models(p2).len() == p2.len());
    if p1.len() > 0 {
        assert(part_models(p1.drop_last()) =~= part_models(p1).drop_last());
        assert(part_models(p2.drop_last()) =~= part_models(p2).drop_last());
        lemma_part_lines_models(p1.drop_last(), p2.drop_last());
        assert(part_model(p1.last()) == part_models(p1)[p1.len() - 1]);
        assert(part_model(p2.last()) == part_models(p2)[p2.len() - 1]);
        assert(part_line_chars(p1.last()) == part_line_chars(p2.last()));
    }
}

proof fn lemma_file_digest_models(f1: SwiftyFile, f2: SwiftyFile)
    requires
        file_model_eq(f1, f2),
    ensures
        file_effective_digest(f1) == file_effective_digest(f2),
{
    lemma_parts_hash_bytes_models(f1.parts@, f2.parts@);
    assert(file_digest_chars(f1.parts@) == file_digest_chars(f2.parts@));
}

proof fn lemma_swifty_line_models(f1: SwiftyFile, f2: SwiftyFile)
    requires
        file_model_eq(f1, f2),
    ensures
        swifty_line_chars(f1) == swifty_line_chars(f2),
{
    lemma_file_digest_models(f1, f2);
    lemma_parts_size_sum_models(f1.parts@, f2.parts@);
    lemma_part_lines_models(f1.parts@, f2.parts@);
    assert(part_models(f1.parts@).len() == f1.parts@.len());
    assert(part_models(f2.parts@).len() == f2.parts@.len());
    assert(f1.parts@.len() == f2.parts@.len());
}

proof fn lemma_files_blocks_models(s1: Seq<SwiftyFile>, s2: Seq<SwiftyFile>)
    requires
        files_model_eq(s1, s2),
    ensures
        files_blocks_chars(s1) == files_blocks_chars(s2),
    decreases s1.len(),
{
    if s1.len() > 0 {
        assert(files_model_eq(s1.drop_last(), s2.drop_last()));
        lemma_files_blocks_models(s1.drop_last(), s2.drop_last());
        assert(file_model_eq(s1[s1.len() - 1], s2[s2.len() - 1]));
        lemma_swifty_line_models(s1.last(), s2.last());
    }
}

proof fn lemma_file_entries_models(s1: Seq<SwiftyFile>, s2: Seq<SwiftyFile>)
    requires
        files_model_eq(s1, s2),
    ensures
        file_entries(s1) == file_entries(s2),
{
    assert forall|k: int| 0 <= k < s1.len() implies file_entries(s1)[k] == file_entries(
        s2,
    )[k] by {
        assert(file_model_eq(s1[k], s2[k]));
        lemma_file_digest_models(s1[k], s2[k]);
    }
    assert(file_entries(s1) =~= file_entries(s2));
}

/// Law: the manifest is deterministic.  Two mods that agree in name,
/// files and memo state — whatever machine or run produced them — have
/// the same manifest text and the same digest.
pub proof fn lemma_manifest_deterministic(a: Addon, b: Addon)
    requires
        addon_model_eq(a, b),
    ensures
        manifest_chars(a) == manifest_chars(b),
        addon_effective_digest(a) == addon_effective_digest(b),
{
    lemma_file_entries_models(a.files@, b.files@);
    assert(addon_digest_chars(a.files@) == addon_digest_chars(b.files@));
    lemma_files_blocks_models(a.files@, b.files@);
    assert(addon_line_chars(a) == addon_line_chars(b));
}

proof fn lemma_map_values_multiset<A, B>(s1: Seq<A>, s2: Seq<A>, f: spec_fn(A) -> B)
    requires
        s1.to_multiset() == s2.to_multiset(),
    ensures
        s1.map_values(f).to_multiset() == s2.map_values(f).to_multiset(),
    decreases s1.len(),
{
    broadcast use vstd::seq_lib::group_to_multiset_ensures;
    broadcast use vstd::multiset::group_multiset_axioms;

    if s1.len() == 0 {
        assert(s2.to_multiset().len() == 0);
        assert(s1.map_values(f) =~= Seq::<B>::empty());
        assert(s2.map_values(f) =~= Seq::<B>::empty());
        assert(s1.map_values(f).to_multiset() =~= s2.map_values(f).to_multiset());
    } else {
        let x = s1.last();
        let rest1 = s1.drop_last();
        assert(s1 =~= rest1.push(x));
        assert(rest1.push(x).to_multiset() =~= rest1.to_multiset().insert(x));
        assert(s2.to_multiset().count(x) > 0);
        assert(s2.contains(x));
        let j = choose|j: int| 0 <= j < s2.len() && s2[j] == x;
        let rest2 = s2.remove(j);
        assert(rest2.to_multiset() =~= s2.to_multiset().remove(x));
        assert(rest1.to_multiset() =~= s1.to_multiset().remove(x));
        lemma_map_values_multiset(rest1, rest2, f);
        assert(s1.map_values(f) =~= rest1.map_values(f).push(f(x)));
        assert(rest1.map_values(f).push(f(x)).to_multiset() =~= rest1.map_values(
            f,
        ).to_multiset().insert(f(x)));
        assert(s2.map_values(f).remove(j) =~= rest2.map_values(f));
        assert(s2.map_values(f).remove(j).to_multiset() =~= s2.map_values(f).to_multiset().remove(
            s2.map_values(f)[j],
        ));
        assert(s2.map_values(f)[j] == f(x));
        assert(s2.map_values(f).to_multiset().count(f(x)) > 0) by {
            assert(s2.map_values(f).contains(f(x)));
        }
        assert(s2.map_values(f).to_multiset() =~= rest2.map_values(f).to_multiset().insert(f(x)));
    }
}

/// Law: the mod digest is order-invariant.  Two file listings that hold
/// the same files — however the directory walk ordered them — give the
/// same mod digest; only the listing order of the manifest text may
/// differ.
pub proof fn lemma_mod_digest_order_invariant(files1: Seq<SwiftyFile>, files2: Seq<SwiftyFile>)
    requires
        files1.to_multiset() == files2.to_multiset(),
    ensures
        addon_digest_chars(files1) == addon_digest_chars(files2),
{
    lemma_map_values_multiset(
        files1,
        files2,
        |f: SwiftyFile| (f.name@, file_effective_digest(f)),
    );
    lemma_entries_multiset_digest(files1, files2);
}

/// Law, restated one level down: two file listings whose (name, digest)
/// entries agree as a multiset give the same mod digest.
pub proof fn lemma_entries_multiset_digest(files1: Seq<SwiftyFile>, files2: Seq<SwiftyFile>)
    requires
        file_entries(files1).to_multiset() == file_entries(files2).to_multiset(),
    ensures
        addon_digest_chars(files1) == addon_digest_chars(files2),
{
    lemma_entry_ord_total();
    file_entries(files1).lemma_sort_by_ensures(entry_ord());
    file_entries(files2).lemma_sort_by_ensures(entry_ord());
    lemma_sorted_unique(
        file_entries(files1).sort_by(entry_ord()),
        file_entries(files2).sort_by(entry_ord()),
        entry_ord(),
    );
}

} // verus!
