//! Name ordering for the mod-level digest.
//!
//! The mod digest is computed over a mod's file digests sorted by file name,
//! so that it does not depend on the order in which the filesystem was
//! walked.  Names are compared lexicographically by character scalar value;
//! entries with equal names are ordered by their digest text, which makes
//! the order total and the sorted sequence canonical.

use vstd::prelude::*;
use vstd::relations::{sorted_by, total_ordering};
use vstd::seq_lib::lemma_sorted_unique;
use vstd::seq_lib::lemma_multiset_commutative;
use vstd::multiset::Multiset;

verus! {

/// Lexicographic order on character sequences, by scalar value; a prefix
/// comes before every extension of it.
pub open spec fn lex_le(a: Seq<char>, b: Seq<char>) -> bool
    decreases a.len(),
{
    if a.len() == 0 {
        true
    } else if b.len() == 0 {
        false
    } else if a[0] == b[0] {
        lex_le(a.drop_first(), b.drop_first())
    } else {
        a[0] < b[0]
    }
}

pub proof fn lemma_lex_le_refl(a: Seq<char>)
    ensures
        lex_le(a, a),
    decreases a.len(),
{
    if a.len() > 0 {
        lemma_lex_le_refl(a.drop_first());
    }
}

pub proof fn lemma_lex_le_total(a: Seq<char>, b: Seq<char>)
    ensures
        lex_le(a, b) || lex_le(b, a),
    decreases a.len(),
{
    if a.len() > 0 && b.len() > 0 && a[0] == b[0] {
        lemma_lex_le_total(a.drop_first(), b.drop_first());
    }
}

pub proof fn lemma_lex_le_antisym(a: Seq<char>, b: Seq<char>)
    requires
        lex_le(a, b),
        lex_le(b, a),
    ensures
        a == b,
    decreases a.len(),
{
    if a.len() > 0 && b.len() > 0 && a[0] == b[0] {
        lemma_lex_le_antisym(a.drop_first(), b.drop_first());
        assert forall|i: int| 0 <= i < a.len() implies a[i] == b[i] by {
            if i > 0 {
                assert(a.drop_first()[i - 1] == a[i]);
                assert(b.drop_first()[i - 1] == b[i]);
            }
        }
        assert(a =~= b);
    }
}

pub proof fn lemma_lex_le_trans(a: Seq<char>, b: Seq<char>, c: Seq<char>)
    requires
        lex_le(a, b),
        lex_le(b, c),
    ensures
        lex_le(a, c),
    decreases a.len(),
{
    if a.len() > 0 && b.len() > 0 && c.len() > 0 && a[0] == b[0] && b[0] == c[0] {
        lemma_lex_le_trans(a.drop_first(), b.drop_first(), c.drop_first());
    }
}

/// Order on (name, digest text) entries: by name, ties broken by digest.
pub open spec fn entry_le(a: (Seq<char>, Seq<char>), b: (Seq<char>, Seq<char>)) -> bool {
    if a.0 == b.0 {
        lex_le(a.1, b.1)
    } else {
        lex_le(a.0, b.0)
    }
}

pub proof fn lemma_entry_le_total(a: (Seq<char>, Seq<char>), b: (Seq<char>, Seq<char>))
    ensures
        entry_le(a, b) || entry_le(b, a),
{
    if a.0 == b.0 {
        lemma_lex_le_total(a.1, b.1);
    } else {
        lemma_lex_le_total(a.0, b.0);
    }
}

pub proof fn lemma_entry_le_trans(
    a: (Seq<char>, Seq<char>),
    b: (Seq<char>, Seq<char>),
    c: (Seq<char>, Seq<char>),
)
    requires
        entry_le(a, b),
        entry_le(b, c),
    ensures
        entry_le(a, c),
{
    if a.0 == b.0 && b.0 == c.0 {
        lemma_lex_le_trans(a.1, b.1, c.1);
    } else if a.0 != b.0 && b.0 != c.0 {
        lemma_lex_le_trans(a.0, b.0, c.0);
        if a.0 == c.0 {
            lemma_lex_le_antisym(a.0, b.0);
        }
    }
}

/// `entry_le` as a first-class relation, for `sort_by`.
pub open spec fn entry_ord() -> spec_fn((Seq<char>, Seq<char>), (Seq<char>, Seq<char>)) -> bool {
    |a: (Seq<char>, Seq<char>), b: (Seq<char>, Seq<char>)| entry_le(a, b)
}

/// The entry order is total: reflexive, antisymmetric, transitive and
/// strongly connected, so sorting by it yields one canonical sequence.
pub proof fn lemma_entry_ord_total()
    ensures
        total_ordering(entry_ord()),
{
    let leq = entry_ord();
    assert forall|x: (Seq<char>, Seq<char>)| #[trigger] leq(x, x) by {
        lemma_lex_le_refl(x.1);
    }
    assert forall|x: (Seq<char>, Seq<char>), y: (Seq<char>, Seq<char>)| #[trigger] leq(x, y)
        && #[trigger] leq(y, x) implies x == y by {
        if x.0 == y.0 {
            lemma_lex_le_antisym(x.1, y.1);
        } else {
            lemma_lex_le_antisym(x.0, y.0);
        }
    }
    assert forall|x: (Seq<char>, Seq<char>), y: (Seq<char>, Seq<char>), z: (Seq<char>, Seq<char>)|
        #[trigger] leq(x, y) && #[trigger] leq(y, z) implies leq(x, z) by {
        if x.0 == y.0 && y.0 == z.0 {
            lemma_lex_le_trans(x.1, y.1, z.1);
        } else if x.0 == y.0 {
            assert(lex_le(x.0, z.0));
        } else if y.0 == z.0 {
            assert(lex_le(x.0, z.0));
        } else {
            lemma_lex_le_trans(x.0, y.0, z.0);
            if x.0 == z.0 {
                lemma_lex_le_antisym(x.0, y.0);
            }
        }
    }
    assert forall|x: (Seq<char>, Seq<char>), y: (Seq<char>, Seq<char>)| #[trigger] leq(x, y)
        || #[trigger] leq(y, x) by {
        if x.0 == y.0 {
            lemma_lex_le_total(x.1, y.1);
        } else {
            lemma_lex_le_total(x.0, y.0);
        }
    }
}

/// Whether `a` comes no later than `b` in the lexicographic order.
pub fn string_le(a: &str, b: &str) -> (r: bool)
    ensures
        r == lex_le(a@, b@),
{
    let na = a.unicode_len();
    let nb = b.unicode_len();
    let mut i: usize = 0;
    proof {
        assert(a@.skip(0) =~= a@);
        assert(b@.skip(0) =~= b@);
    }
    loop
        invariant
            i <= na,
            i <= nb,
            na == a@.len(),
            nb == b@.len(),
            lex_le(a@, b@) == lex_le(a@.skip(i as int), b@.skip(i as int)),
        decreases na - i,
    {
        if i == na {
            return true;
        }
        if i == nb {
            return false;
        }
        let ca = a.get_char(i);
        let cb = b.get_char(i);
        if ca == cb {
            proof {
                assert(a@.skip(i as int).drop_first() =~= a@.skip(i + 1 as int));
                assert(b@.skip(i as int).drop_first() =~= b@.skip(i + 1 as int));
            }
            i = i + 1;
        } else {
            return ca < cb;
        }
    }
}

/// Whether entry `a` comes no later than entry `b`.
pub fn entry_le_exec(a: &(String, String), b: &(String, String)) -> (r: bool)
    ensures
        r == entry_le((a.0@, a.1@), (b.0@, b.1@)),
{
    if a.0 == b.0 {
        string_le(a.1.as_str(), b.1.as_str())
    } else {
        string_le(a.0.as_str(), b.0.as_str())
    }
}

/// The mathematical entries of a (name, digest text) list.
pub open spec fn entry_views(s: Seq<(String, String)>) -> Seq<(Seq<char>, Seq<char>)> {
    s.map_values(|p: (String, String)| (p.0@, p.1@))
}

/// Where `x` belongs in the sorted list `r`: past every entry that comes
/// no later than `x`.
fn scan_position(r: &Vec<(String, String)>, x: &(String, String)) -> (k: usize)
    ensures
        k <= r@.len(),
        forall|j: int| 0 <= j < k ==> entry_le(#[trigger] entry_views(r@)[j], (x.0@, x.1@)),
        k < r@.len() ==> !entry_le(entry_views(r@)[k as int], (x.0@, x.1@)),
{
    let ghost xv = (x.0@, x.1@);
    let ghost ov = entry_views(r@);
    let n = r.len();
    let mut k: usize = 0;
    while k < n
        invariant
            k <= n,
            n == r@.len(),
            ov == entry_views(r@),
            xv == (x.0@, x.1@),
            forall|j: int| 0 <= j < k ==> entry_le(#[trigger] ov[j], xv),
        decreases n - k,
    {
        let e = &r[k];
        if !entry_le_exec(e, x) {
            proof {
                assert(ov[k as int] == (r@[k as int].0@, r@[k as int].1@));
            }
            return k;
        }
        proof {
            assert(ov[k as int] == (r@[k as int].0@, r@[k as int].1@));
        }
        k = k + 1;
    }
    k
}

/// Inserts `x` into the sorted list `r`, keeping it sorted.
fn insert_entry(r: &mut Vec<(String, String)>, x: (String, String))
    requires
        sorted_by(entry_views(old(r)@), entry_ord()),
    ensures
        sorted_by(entry_views(final(r)@), entry_ord()),
        entry_views(final(r)@).to_multiset() == entry_views(old(r)@).to_multiset().insert(
            (x.0@, x.1@),
        ),
{
    broadcast use vstd::seq_lib::group_to_multiset_ensures;

    let ghost xv = (x.0@, x.1@);
    let ghost ov = entry_views(r@);
    let k = scan_position(&*r, &x);
    proof {
        if k < r@.len() {
            lemma_entry_le_total(ov[k as int], xv);
            assert(entry_le(xv, ov[k as int]));
        }
    }
    r.insert(k, x);
    proof {
        broadcast use vstd::multiset::group_multiset_axioms;

        let nv = entry_views(r@);
        assert(nv =~= ov.insert(k as int, xv));
        assert(ov =~= ov.take(k as int) + ov.skip(k as int));
        assert(nv =~= ov.take(k as int) + (seq![xv] + ov.skip(k as int)));
        lemma_multiset_commutative(ov.take(k as int), seq![xv] + ov.skip(k as int));
        lemma_multiset_commutative(seq![xv], ov.skip(k as int));
        lemma_multiset_commutative(ov.take(k as int), ov.skip(k as int));
        let emp = Seq::<(Seq<char>, Seq<char>)>::empty();
        assert(seq![xv] =~= emp.push(xv));
        assert(emp.push(xv).to_multiset() =~= emp.to_multiset().insert(xv));
        assert forall|e: (Seq<char>, Seq<char>)| emp.to_multiset().count(e) == 0 by {
            assert(!emp.contains(e));
        }
        assert(nv.to_multiset() =~= ov.to_multiset().insert(xv));
        let leq = entry_ord();
        assert forall|p: int, q: int| 0 <= p < q < nv.len() implies #[trigger] leq(
            nv[p],
            nv[q],
        ) by {
            if p < k && q == k {
                assert(entry_le(ov[p], xv));
            } else if p == k && q > k {
                assert(entry_le(xv, ov[k as int]));
                if q - 1 > k {
                    assert(leq(ov[k as int], ov[q - 1]));
                    lemma_entry_le_trans(xv, ov[k as int], ov[q - 1]);
                }
            } else if p < k && q > k {
                assert(leq(ov[p], ov[q - 1]));
            } else if p > k && q > k {
                assert(leq(ov[p - 1], ov[q - 1]));
            } else {
                assert(p < k && q < k);
                assert(leq(ov[p], ov[q]));
            }
        }
        assert(sorted_by(nv, entry_ord()));
    }
}

/// Sorts (name, digest text) entries by the canonical entry order; the
/// result is exactly the specification-level sorting of the input.
pub fn sort_entries(v: &Vec<(String, String)>) -> (r: Vec<(String, String)>)
    ensures
        entry_views(r@) == entry_views(v@).sort_by(entry_ord()),
{
    broadcast use vstd::seq_lib::group_to_multiset_ensures;

    let n = v.len();
    let mut r: Vec<(String, String)> = Vec::new();
    let mut i: usize = 0;
    proof {
        assert(entry_views(r@) =~= Seq::<(Seq<char>, Seq<char>)>::empty());
        assert(entry_views(v@.take(0)) =~= Seq::<(Seq<char>, Seq<char>)>::empty());
    }
    while i < n
        invariant
            i <= n,
            n == v@.len(),
            sorted_by(entry_views(r@), entry_ord()),
            entry_views(r@).to_multiset() == entry_views(v@.take(i as int)).to_multiset(),
        decreases n - i,
    {
        let x = (v[i].0.clone(), v[i].1.clone());
        insert_entry(&mut r, x);
        proof {
            broadcast use vstd::seq_lib::group_to_multiset_ensures;

            let tv = entry_views(v@.take(i as int));
            let xv = (v@[i as int].0@, v@[i as int].1@);
            assert(v@.take(i + 1 as int) =~= v@.take(i as int).push(v@[i as int]));
            assert(entry_views(v@.take(i + 1 as int)) =~= tv.push(xv));
            assert(tv.push(xv).to_multiset() =~= tv.to_multiset().insert(xv));
        }
        i = i + 1;
    }
    proof {
        assert(v@.take(n as int) =~= v@);
        lemma_entry_ord_total();
        entry_views(v@).lemma_sort_by_ensures(entry_ord());
        lemma_sorted_unique(entry_views(r@), entry_views(v@).sort_by(entry_ord()), entry_ord());
    }
    r
}

} // verus!
