//! The cluster kinds and the action lists of the syllable machine of the
//! Universal Shaping Engine.
use vstd::prelude::*;
use crate::automaton::{pair, Action};

verus! {

/// The code of an independent cluster.
pub const INDEPENDENT_CLUSTER: u8 = 0;

/// The code of a cluster that ends in a virama.
pub const VIRAMA_TERMINATED_CLUSTER: u8 = 1;

/// The code of a cluster that ends in a sakot.
pub const SAKOT_TERMINATED_CLUSTER: u8 = 2;

/// The code of a standard cluster.
pub const STANDARD_CLUSTER: u8 = 3;

/// The code of a cluster of numbers that ends in a joiner.
pub const NUMBER_JOINER_TERMINATED_CLUSTER: u8 = 4;

/// The code of a cluster of numerals.
pub const NUMERAL_CLUSTER: u8 = 5;

/// The code of a cluster around a symbol.
pub const SYMBOL_CLUSTER: u8 = 6;

/// The code of a cluster of hieroglyphs.
pub const HIEROGLYPH_CLUSTER: u8 = 7;

/// The code of a cluster that lacks its base.
pub const BROKEN_CLUSTER: u8 = 8;

/// The code of a unit that belongs to no cluster.
pub const NON_CLUSTER: u8 = 9;

/// The number of cluster kinds.
pub const KINDS: u8 = 10;

/// The number of action lists; transitions name them by index.
pub const PROGRAMS: usize = 21;

/// The action list with index `index`. A cluster is committed with the
/// current unit as its last, or before the current unit. An index that is
/// not listed stands for the empty list.
pub open spec fn program(index: int) -> Seq<Action> {
    if index == 3 {
        seq![Action::EndInclusive, Action::Commit(NON_CLUSTER)]
    } else if index == 4 {
        seq![Action::EndInclusive, Action::Commit(BROKEN_CLUSTER)]
    } else if index == 5 {
        seq![Action::EndExclusive, Action::Commit(SYMBOL_CLUSTER)]
    } else if index == 6 {
        seq![Action::EndInclusive, Action::Commit(SYMBOL_CLUSTER)]
    } else if index == 7 {
        seq![Action::EndExclusive, Action::Commit(STANDARD_CLUSTER)]
    } else if index == 8 {
        seq![Action::EndInclusive, Action::Commit(STANDARD_CLUSTER)]
    } else if index == 9 {
        seq![Action::EndExclusive, Action::Commit(SAKOT_TERMINATED_CLUSTER)]
    } else if index == 10 {
        seq![Action::EndInclusive, Action::Commit(SAKOT_TERMINATED_CLUSTER)]
    } else if index == 11 {
        seq![Action::EndExclusive, Action::Commit(VIRAMA_TERMINATED_CLUSTER)]
    } else if index == 12 {
        seq![Action::EndInclusive, Action::Commit(VIRAMA_TERMINATED_CLUSTER)]
    } else if index == 13 {
        seq![Action::EndExclusive, Action::Commit(NUMERAL_CLUSTER)]
    } else if index == 14 {
        seq![Action::EndInclusive, Action::Commit(NUMERAL_CLUSTER)]
    } else if index == 15 {
        seq![Action::EndExclusive, Action::Commit(NUMBER_JOINER_TERMINATED_CLUSTER)]
    } else if index == 16 {
        seq![Action::EndInclusive, Action::Commit(NUMBER_JOINER_TERMINATED_CLUSTER)]
    } else if index == 17 {
        seq![Action::EndExclusive, Action::Commit(BROKEN_CLUSTER)]
    } else if index == 18 {
        seq![Action::EndExclusive, Action::Commit(NON_CLUSTER)]
    } else if index == 19 {
        seq![Action::EndExclusive, Action::Commit(HIEROGLYPH_CLUSTER)]
    } else if index == 20 {
        seq![Action::EndInclusive, Action::Commit(HIEROGLYPH_CLUSTER)]
    } else {
        Seq::empty()
    }
}

/// The action list with index `index`.
fn program_of(index: usize) -> (actions: Vec<Action>)
    ensures
        actions@ == program(index as int),
{
    if index == 3 {
        pair(Action::EndInclusive, Action::Commit(NON_CLUSTER))
    } else if index == 4 {
        pair(Action::EndInclusive, Action::Commit(BROKEN_CLUSTER))
    } else if index == 5 {
        pair(Action::EndExclusive, Action::Commit(SYMBOL_CLUSTER))
    } else if index == 6 {
        pair(Action::EndInclusive, Action::Commit(SYMBOL_CLUSTER))
    } else if index == 7 {
        pair(Action::EndExclusive, Action::Commit(STANDARD_CLUSTER))
    } else if index == 8 {
        pair(Action::EndInclusive, Action::Commit(STANDARD_CLUSTER))
    } else if index == 9 {
        pair(Action::EndExclusive, Action::Commit(SAKOT_TERMINATED_CLUSTER))
    } else if index == 10 {
        pair(Action::EndInclusive, Action::Commit(SAKOT_TERMINATED_CLUSTER))
    } else if index == 11 {
        pair(Action::EndExclusive, Action::Commit(VIRAMA_TERMINATED_CLUSTER))
    } else if index == 12 {
        pair(Action::EndInclusive, Action::Commit(VIRAMA_TERMINATED_CLUSTER))
    } else if index == 13 {
        pair(Action::EndExclusive, Action::Commit(NUMERAL_CLUSTER))
    } else if index == 14 {
        pair(Action::EndInclusive, Action::Commit(NUMERAL_CLUSTER))
    } else if index == 15 {
        pair(Action::EndExclusive, Action::Commit(NUMBER_JOINER_TERMINATED_CLUSTER))
    } else if index == 16 {
        pair(Action::EndInclusive, Action::Commit(NUMBER_JOINER_TERMINATED_CLUSTER))
    } else if index == 17 {
        pair(Action::EndExclusive, Action::Commit(BROKEN_CLUSTER))
    } else if index == 18 {
        pair(Action::EndExclusive, Action::Commit(NON_CLUSTER))
    } else if index == 19 {
        pair(Action::EndExclusive, Action::Commit(HIEROGLYPH_CLUSTER))
    } else if index == 20 {
        pair(Action::EndInclusive, Action::Commit(HIEROGLYPH_CLUSTER))
    } else {
        Vec::new()
    }
}

/// The action lists of the table.
pub open spec fn programs() -> Seq<Seq<Action>> {
    Seq::new(PROGRAMS as nat, |index: int| program(index))
}

/// The action lists of the table.
pub fn load_programs() -> (loaded: Vec<Vec<Action>>)
    ensures
        Seq::new(loaded@.len(), |index: int| loaded@[index]@) == programs(),
{
    let mut loaded: Vec<Vec<Action>> = Vec::new();
    let mut index: usize = 0;
    while index < PROGRAMS
        invariant
            index <= PROGRAMS,
            loaded@.len() == index,
            forall|i: int| 0 <= i < index ==> (#[trigger] loaded@[i])@ == program(i),
        decreases PROGRAMS - index,
    {
        loaded.push(program_of(index));
        index += 1;
    }
    assert(Seq::new(loaded@.len(), |index: int| loaded@[index]@) =~= programs());
    loaded
}

} // verus!
