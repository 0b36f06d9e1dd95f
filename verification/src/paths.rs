//! Deterministic traversal order and path handling.
//!
//! A mod's files are enumerated in one fixed order, independent of how the
//! host filesystem happens to iterate: at each level directories come
//! before files, and within the same kind names run in descending
//! lexicographic order.  Paths written into the manifest join their
//! segments with a fixed backslash separator whatever the host convention,
//! and the manifest file itself is excluded from traversal.

use vstd::prelude::*;
use crate::order::{lex_le, lemma_lex_le_antisym, lemma_lex_le_refl, lemma_lex_le_total};

verus! {

/// Strict lexicographic order.
pub open spec fn lex_lt(a: Seq<char>, b: Seq<char>) -> bool {
    lex_le(a, b) && a != b
}

/// How one directory entry stands to another in the traversal order.
#[derive(PartialEq, Eq, Structural, Clone, Copy, Debug)]
pub enum Rank {
    Less,
    Equal,
    Greater,
}

/// Compares two directory entries for traversal: an entry ranks `Less`
/// when it is walked first.  Directories come before files; within the
/// same kind the greater name is walked first.
pub fn traversal_rank(a_is_dir: bool, a_name: &str, b_is_dir: bool, b_name: &str) -> (r: Rank)
    ensures
        a_is_dir == b_is_dir && a_name@ == b_name@ ==> r == Rank::Equal,
        a_is_dir == b_is_dir && a_name@ != b_name@ ==> ((r == Rank::Less <==> lex_lt(
            b_name@,
            a_name@,
        )) && (r == Rank::Greater <==> lex_lt(a_name@, b_name@))),
        a_is_dir != b_is_dir ==> ((r == Rank::Less <==> a_is_dir) && (r == Rank::Greater
            <==> b_is_dir)),
{
    if a_is_dir == b_is_dir {
        let ab = crate::order::string_le(a_name, b_name);
        let ba = crate::order::string_le(b_name, a_name);
        if ab && ba {
            proof {
                lemma_lex_le_antisym(a_name@, b_name@);
            }
            Rank::Equal
        } else if ba {
            Rank::Less
        } else {
            proof {
                lemma_lex_le_total(a_name@, b_name@);
                if a_name@ == b_name@ {
                    lemma_lex_le_refl(a_name@);
                }
            }
            Rank::Greater
        }
    } else if a_is_dir {
        Rank::Less
    } else {
        Rank::Greater
    }
}

/// Path segments joined by the fixed backslash separator.
pub open spec fn joined(parts: Seq<Seq<char>>) -> Seq<char>
    decreases parts.len(),
{
    if parts.len() == 0 {
        Seq::empty()
    } else if parts.len() == 1 {
        parts[0]
    } else {
        joined(parts.drop_last()) + seq!['\\'] + parts.last()
    }
}

/// Joins path segments with the fixed backslash separator, whatever
/// separator the host uses.
pub fn join_components(parts: &Vec<String>) -> (r: String)
    ensures
        r@ == joined(parts@.map_values(|s: String| s@)),
{
    let ghost views = parts@.map_values(|s: String| s@);
    let n = parts.len();
    let mut r = String::new();
    let mut i: usize = 0;
    proof {
        reveal_strlit("\\");
        assert(views.take(0) =~= Seq::<Seq<char>>::empty());
    }
    while i < n
        invariant
            i <= n,
            n == parts@.len(),
            views == parts@.map_values(|s: String| s@),
            r@ == joined(views.take(i as int)),
        decreases n - i,
    {
        if i > 0 {
            r.append("\\");
            proof {
                reveal_strlit("\\");
            }
        }
        r.append(parts[i].as_str());
        proof {
            let t = views.take(i + 1 as int);
            assert(t.drop_last() =~= views.take(i as int));
            assert(t.last() == views[i as int]);
            if i > 0 {
                assert(r@ =~= joined(views.take(i as int)) + seq!['\\'] + views[i as int]);
            } else {
                assert(r@ =~= views[0]);
            }
        }
        i = i + 1;
    }
    proof {
        assert(views.take(n as int) =~= views);
    }
    r
}

/// Whether `name` is the manifest file a previous run left behind, which
/// traversal must skip to avoid describing itself.
pub fn is_manifest_name(name: &str) -> (r: bool)
    ensures
        r == (name@ == "mod.srf"@),
{
    let m: String = "mod.srf".to_owned();
    let n: String = name.to_owned();
    n == m
}

/// Whether a file name carries the archive extension, which decides the
/// manifest entry kind.
pub open spec fn is_pbo_name(s: Seq<char>) -> bool {
    s.len() >= 4 && s.skip(s.len() - 4) == seq!['.', 'p', 'b', 'o']
}

/// Whether `name` ends in the archive extension.
pub fn name_is_pbo(name: &str) -> (r: bool)
    ensures
        r == is_pbo_name(name@),
{
    let n = name.unicode_len();
    if n < 4 {
        return false;
    }
    let c1 = name.get_char(n - 4);
    let c2 = name.get_char(n - 3);
    let c3 = name.get_char(n - 2);
    let c4 = name.get_char(n - 1);
    let r = c1 == '.' && c2 == 'p' && c3 == 'b' && c4 == 'o';
    proof {
        let tail = name@.skip(n - 4 as int);
        assert(tail.len() == 4);
        assert(tail[0] == name@[n - 4 as int]);
        assert(tail[1] == name@[n - 3 as int]);
        assert(tail[2] == name@[n - 2 as int]);
        assert(tail[3] == name@[n - 1 as int]);
        if r {
            assert(tail =~= seq!['.', 'p', 'b', 'o']);
        } else {
            assert(tail != seq!['.', 'p', 'b', 'o']);
        }
    }
    r
}

} // verus!
