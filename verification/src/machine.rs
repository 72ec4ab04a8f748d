//! A table that has been checked, and the scan with it, which cannot fail.
use vstd::prelude::*;
use crate::automaton::{Automaton, Rules};
use crate::coverage::tiles;
use crate::engine::{scan, scan_result, segments_of, Commit};
use crate::error::TableError;
use crate::flow::kinds_below;

verus! {

/// Rules with a flow check, after which no scan fails.
pub trait Sound: Rules + Sized {
    /// The rules pass the flow check for a machine with `kinds` cluster
    /// kinds.
    spec fn sound(&self, kinds: u8) -> bool;

    /// Rules that pass the flow check never fail: on every input the scan
    /// completes, its clusters cover the input, and they are of known
    /// kinds.
    proof fn lemma_sound(&self, kinds: u8, categories: Seq<u8>)
        requires
            self.wf(),
            self.sound(kinds),
        ensures
            scan_result(self, categories) matches Some(segments) && kinds_below(segments, kinds)
                && tiles(segments, categories.len() as int),
    ;
}

/// A table that can check itself.
pub trait Checkable: Automaton where Self::V: Sound {
    /// Checks the shape of the table.
    fn is_well_formed(&self) -> (ok: bool)
        ensures
            ok == self@.wf(),
    ;

    /// Checks the flow of the table for a machine with `kinds` cluster
    /// kinds.
    fn is_sound(&self, kinds: u8) -> (ok: bool)
        requires
            self@.wf(),
        ensures
            ok == self@.sound(kinds),
    ;
}

/// A table together with the number of cluster kinds of its machine.
pub struct Machine<A> {
    pub table: A,
    pub kinds: u8,
}

/// Why `rules` are unfit for a machine with `kinds` cluster kinds, if they
/// are.
pub open spec fn table_error<R: Sound>(rules: &R, kinds: u8) -> Option<TableError> {
    if !rules.wf() {
        Some(TableError::Malformed)
    } else if !rules.sound(kinds) {
        Some(TableError::Unsound)
    } else {
        None
    }
}

impl<A: Checkable> Machine<A> where A::V: Sound {
    /// The table of the machine has passed both checks.
    pub open spec fn wf(&self) -> bool {
        table_error(&self.table@, self.kinds) is None
    }

    /// Checks the shape and the flow of `table` and makes a machine of it,
    /// or says why the table is unfit.
    pub fn new(table: A, kinds: u8) -> (machine: Result<Machine<A>, TableError>)
        ensures
            match machine {
                Ok(m) => table_error(&table@, kinds) is None && m.table == table && m.kinds
                    == kinds && m.wf(),
                Err(error) => table_error(&table@, kinds) == Some(error),
            },
    {
        if !table.is_well_formed() {
            Err(TableError::Malformed)
        } else if !table.is_sound(kinds) {
            Err(TableError::Unsound)
        } else {
            Ok(Machine { table, kinds })
        }
    }

    /// Scans `categories` and returns the committed clusters in order. They
    /// cover the input and are of known kinds.
    pub fn scan(&self, categories: &Vec<u8>) -> (commits: Vec<Commit>)
        requires
            self.wf(),
        ensures
            scan_result(&self.table@, categories@) == Some(segments_of(commits@)),
            tiles(segments_of(commits@), categories@.len() as int),
            kinds_below(segments_of(commits@), self.kinds),
    {
        proof {
            self.table@.lemma_sound(self.kinds, categories@);
        }
        scan(&self.table, categories).unwrap()
    }
}

} // verus!
