//! Decisions of the interactive mod manager.
//!
//! The terminal session itself — key events, raw mode, redrawing — lives in
//! the outer layer; what is decided on each key is pure and verified here:
//! where the cursor stands, how a mod's state cycles, how a pending
//! transaction reacts to insert and delete, and how the edited listing is
//! rebuilt into required and optional mod lists when applied.

use vstd::prelude::*;
use crate::{State, Transaction};
use crate::repo::Mod;

verus! {

/// What the cursor points at: one listed mod, or one of the two actions.
#[derive(Debug, PartialEq, Eq, Structural)]
pub enum Cursor {
    Item(usize),
    Apply,
    Cancel,
}

/// The cursor for raw index `c` in a listing of `max` mods: each page of
/// ten raw positions keeps its last two for the apply and cancel actions,
/// and the item index skips them; past the end of the listing the two
/// actions follow it at once.
pub open spec fn cursor_at(c: int, max: int) -> Cursor
    recommends
        0 <= c,
{
    if c % 10 == 8 {
        Cursor::Apply
    } else if c % 10 == 9 {
        Cursor::Cancel
    } else {
        let i = c - 2 * (c / 10);
        if i == max {
            Cursor::Apply
        } else if i == max + 1 {
            Cursor::Cancel
        } else {
            Cursor::Item(i as usize)
        }
    }
}

/// Resolves a raw cursor index against a listing of `max` mods.
pub fn cursor2index(c: usize, max: usize) -> (r: Cursor)
    requires
        max < usize::MAX,
    ensures
        r == cursor_at(c as int, max as int),
{
    proof {
        assert(10 * ((c as int) / 10) <= c as int);
    }
    match c - (10 * (c / 10)) {
        8 => Cursor::Apply,
        9 => Cursor::Cancel,
        _ => {
            let i = c - (2 * (c / 10));
            if i == max {
                Cursor::Apply
            } else if i == max + 1 {
                Cursor::Cancel
            } else {
                Cursor::Item(i)
            }
        },
    }
}

impl State {
    /// The next state when the mod is toggled: required off, required on,
    /// optional off, optional on, and around again.
    pub fn cycled(&self) -> (r: State)
        ensures
            r == (match *self {
                State::Disabled => State::Enabled,
                State::Enabled => State::OptionalDisabled,
                State::OptionalDisabled => State::OptionalEnabled,
                State::OptionalEnabled => State::Disabled,
            }),
    {
        match self {
            State::Disabled => State::Enabled,
            State::Enabled => State::OptionalDisabled,
            State::OptionalDisabled => State::OptionalEnabled,
            State::OptionalEnabled => State::Disabled,
        }
    }

    /// Whether the state counts as enabled.
    pub fn is_on(&self) -> (r: bool)
        ensures
            r == (*self == State::Enabled || *self == State::OptionalEnabled),
    {
        match self {
            State::Enabled => true,
            State::OptionalEnabled => true,
            _ => false,
        }
    }
}

impl Transaction {
    /// The transaction after the mod is added back: one already tracked
    /// stays (or returns to) tracked, anything else becomes an addition.
    pub fn on_insert(&self) -> (r: Transaction)
        ensures
            r == (if *self == Transaction::Remove || *self == Transaction::Existing {
                Transaction::Existing
            } else {
                Transaction::Add
            }),
    {
        match self {
            Transaction::Remove => Transaction::Existing,
            Transaction::Existing => Transaction::Existing,
            _ => Transaction::Add,
        }
    }

    /// The transaction after the mod is deleted: a tracked mod is marked
    /// for removal, a pending addition is dropped, anything else stays.
    pub fn on_delete(&self) -> (r: Transaction)
        ensures
            r == (match *self {
                Transaction::Existing => Transaction::Remove,
                Transaction::Add => Transaction::Ignore,
                _ => *self,
            }),
    {
        match self {
            Transaction::Existing => Transaction::Remove,
            Transaction::Add => Transaction::Ignore,
            Transaction::Update => Transaction::Update,
            Transaction::Remove => Transaction::Remove,
            Transaction::Ignore => Transaction::Ignore,
        }
    }
}

/// Whether the listing entry is kept when the session is applied.
pub open spec fn kept(t: Transaction) -> bool {
    t == Transaction::Add || t == Transaction::Existing
}

/// Whether a kept entry goes to the required list (else the optional one).
pub open spec fn goes_required(s: State) -> bool {
    s == State::Enabled || s == State::Disabled
}

/// Whether the entry's state counts as enabled.
pub open spec fn state_on(s: State) -> bool {
    s == State::Enabled || s == State::OptionalEnabled
}

/// The (name, enabled) entries of the kept mods that land in the required
/// list, in listing order.
pub open spec fn required_entries(mods: Seq<(String, Transaction, State)>) -> Seq<
    (Seq<char>, bool),
>
    decreases mods.len(),
{
    if mods.len() == 0 {
        Seq::empty()
    } else {
        let rest = required_entries(mods.drop_last());
        let m = mods.last();
        if kept(m.1) && goes_required(m.2) {
            rest.push((m.0@, state_on(m.2)))
        } else {
            rest
        }
    }
}

/// The (name, enabled) entries of the kept mods that land in the optional
/// list, in listing order.
pub open spec fn optional_entries(mods: Seq<(String, Transaction, State)>) -> Seq<
    (Seq<char>, bool),
>
    decreases mods.len(),
{
    if mods.len() == 0 {
        Seq::empty()
    } else {
        let rest = optional_entries(mods.drop_last());
        let m = mods.last();
        if kept(m.1) && !goes_required(m.2) {
            rest.push((m.0@, state_on(m.2)))
        } else {
            rest
        }
    }
}

/// Whether a mod list realises the given (name, enabled) entries, each
/// with an empty recorded digest.
pub open spec fn mods_match_entries(ms: Seq<Mod>, es: Seq<(Seq<char>, bool)>) -> bool {
    &&& ms.len() == es.len()
    &&& forall|k: int|
        0 <= k < ms.len() ==> (#[trigger] ms[k]).modName@ == es[k].0 && ms[k].Enabled == es[k].1
            && ms[k].checkSum@.len() == 0
}

/// Rebuilds the required and optional mod lists from the edited listing,
/// as applying the session does: kept entries only, in listing order, each
/// with a cleared digest.
pub fn rebuild_mod_lists(mods: &Vec<(String, Transaction, State)>) -> (r: (Vec<Mod>, Vec<Mod>))
    ensures
        mods_match_entries(r.0@, required_entries(mods@)),
        mods_match_entries(r.1@, optional_entries(mods@)),
{
    let n = mods.len();
    let mut required: Vec<Mod> = Vec::new();
    let mut optional: Vec<Mod> = Vec::new();
    let mut i: usize = 0;
    while i < n
        invariant
            i <= n,
            n == mods@.len(),
            mods_match_entries(required@, required_entries(mods@.take(i as int))),
            mods_match_entries(optional@, optional_entries(mods@.take(i as int))),
        decreases n - i,
    {
        let entry = &mods[i];
        let keep = match entry.1 {
            Transaction::Add => true,
            Transaction::Existing => true,
            _ => false,
        };
        if keep {
            let new_mod = Mod {
                modName: entry.0.clone(),
                Enabled: entry.2.is_on(),
                checkSum: String::new(),
            };
            let to_required = match entry.2 {
                State::Enabled => true,
                State::Disabled => true,
                _ => false,
            };
            if to_required {
                required.push(new_mod);
            } else {
                optional.push(new_mod);
            }
        }
        proof {
            let t = mods@.take(i + 1 as int);
            assert(t.drop_last() =~= mods@.take(i as int));
            assert(t.last() == mods@[i as int]);
        }
        i = i + 1;
    }
    proof {
        assert(mods@.take(n as int) =~= mods@);
    }
    (required, optional)
}

} // verus!
