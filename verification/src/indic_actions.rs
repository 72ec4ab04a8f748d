//! The cluster kinds and the action lists of the Indic syllable machine.
use vstd::prelude::*;
use crate::automaton::{pair, single, Action};

verus! {

/// The code of a syllable around a consonant.
pub const CONSONANT_SYLLABLE: u8 = 0;

/// The code of a syllable around an independent vowel.
pub const VOWEL_SYLLABLE: u8 = 1;

/// The code of a cluster around a placeholder.
pub const STANDALONE_CLUSTER: u8 = 2;

/// The code of a cluster around a symbol.
pub const SYMBOL_CLUSTER: u8 = 3;

/// The code of a cluster that lacks its base.
pub const BROKEN_CLUSTER: u8 = 4;

/// The code of a unit that belongs to no Indic script.
pub const NON_INDIC_CLUSTER: u8 = 5;

/// The number of cluster kinds.
pub const KINDS: u8 = 6;

/// The number of action lists; transitions name them by index.
pub const PROGRAMS: usize = 40;

/// The action list with index `index`. A cluster is committed in one of
/// three ways: with the current unit as its last; before the current unit;
/// or at the end that an earlier step marked, with the kind given here or
/// with the kind remembered at that step. An index that is not listed
/// stands for the empty list.
pub open spec fn program(index: int) -> Seq<Action> {
    if index == 5 {
        seq![Action::EndInclusive]
    } else if index == 7 {
        seq![Action::EndInclusive, Action::Commit(NON_INDIC_CLUSTER)]
    } else if index == 9 {
        seq![Action::EndExclusive, Action::Commit(CONSONANT_SYLLABLE)]
    } else if index == 11 {
        seq![Action::EndExclusive, Action::Commit(VOWEL_SYLLABLE)]
    } else if index == 13 {
        seq![Action::EndExclusive, Action::Commit(STANDALONE_CLUSTER)]
    } else if index == 15 {
        seq![Action::EndExclusive, Action::Commit(SYMBOL_CLUSTER)]
    } else if index == 17 {
        seq![Action::EndExclusive, Action::Commit(BROKEN_CLUSTER)]
    } else if index == 19 {
        seq![Action::EndExclusive, Action::Commit(NON_INDIC_CLUSTER)]
    } else if index == 21 {
        seq![Action::Defer(CONSONANT_SYLLABLE), Action::CommitDeferred]
    } else if index == 23 {
        seq![Action::Defer(VOWEL_SYLLABLE), Action::CommitDeferred]
    } else if index == 25 {
        seq![Action::Defer(STANDALONE_CLUSTER), Action::CommitDeferred]
    } else if index == 27 {
        seq![Action::Defer(SYMBOL_CLUSTER), Action::CommitDeferred]
    } else if index == 29 {
        seq![Action::Defer(BROKEN_CLUSTER), Action::CommitDeferred]
    } else if index == 31 {
        seq![Action::CommitDeferred]
    } else if index == 33 {
        seq![Action::EndInclusive, Action::Defer(CONSONANT_SYLLABLE)]
    } else if index == 36 {
        seq![Action::EndInclusive, Action::Defer(BROKEN_CLUSTER)]
    } else if index == 39 {
        seq![Action::EndInclusive, Action::Defer(NON_INDIC_CLUSTER)]
    } else {
        Seq::empty()
    }
}

/// The action list with index `index`.
fn program_of(index: usize) -> (actions: Vec<Action>)
    ensures
        actions@ == program(index as int),
{
    if index == 5 {
        single(Action::EndInclusive)
    } else if index == 7 {
        pair(Action::EndInclusive, Action::Commit(NON_INDIC_CLUSTER))
    } else if index == 9 {
        pair(Action::EndExclusive, Action::Commit(CONSONANT_SYLLABLE))
    } else if index == 11 {
        pair(Action::EndExclusive, Action::Commit(VOWEL_SYLLABLE))
    } else if index == 13 {
        pair(Action::EndExclusive, Action::Commit(STANDALONE_CLUSTER))
    } else if index == 15 {
        pair(Action::EndExclusive, Action::Commit(SYMBOL_CLUSTER))
    } else if index == 17 {
        pair(Action::EndExclusive, Action::Commit(BROKEN_CLUSTER))
    } else if index == 19 {
        pair(Action::EndExclusive, Action::Commit(NON_INDIC_CLUSTER))
    } else if index == 21 {
        pair(Action::Defer(CONSONANT_SYLLABLE), Action::CommitDeferred)
    } else if index == 23 {
        pair(Action::Defer(VOWEL_SYLLABLE), Action::CommitDeferred)
    } else if index == 25 {
        pair(Action::Defer(STANDALONE_CLUSTER), Action::CommitDeferred)
    } else if index == 27 {
        pair(Action::Defer(SYMBOL_CLUSTER), Action::CommitDeferred)
    } else if index == 29 {
        pair(Action::Defer(BROKEN_CLUSTER), Action::CommitDeferred)
    } else if index == 31 {
        single(Action::CommitDeferred)
    } else if index == 33 {
        pair(Action::EndInclusive, Action::Defer(CONSONANT_SYLLABLE))
    } else if index == 36 {
        pair(Action::EndInclusive, Action::Defer(BROKEN_CLUSTER))
    } else if index == 39 {
        pair(Action::EndInclusive, Action::Defer(NON_INDIC_CLUSTER))
    } else {
        Vec::new()
    }
}

/// The action lists of the table.
pub open spec fn programs() -> Seq<Seq<Action>> {
    Seq::new(PROGRAMS as nat, |index: int| program(index))
}

/// The action lists of the table.
pub fn load_programs() -> (loaded: Vec<Vec<Action>>)
    ensures
        Seq::new(loaded@.len(), |index: int| loaded@[index]@) == programs(),
{
    let mut loaded: Vec<Vec<Action>> = Vec::new();
    let mut index: usize = 0;
    while index < PROGRAMS
        invariant
            index <= PROGRAMS,
            loaded@.len() == index,
            forall|i: int| 0 <= i < index ==> (#[trigger] loaded@[i])@ == program(i),
        decreases PROGRAMS - index,
    {
        loaded.push(program_of(index));
        index += 1;
    }
    assert(Seq::new(loaded@.len(), |index: int| loaded@[index]@) =~= programs());
    loaded
}

} // verus!
