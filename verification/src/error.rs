//! Why a table may be refused when it is loaded.
use vstd::prelude::*;

verus! {

/// The two ways a transition table can be unfit for scanning. Both are
/// found when the table is loaded, before any unit is read; neither depends
/// on the text.
#[derive(Clone, Copy, Debug, PartialEq, Eq, Structural)]
pub enum TableError {
    /// The table does not have the shape of a table: a lookup would leave
    /// its arrays.
    Malformed,
    /// Some transition of the table does not keep to the marks of its
    /// states: on some input a scan could go back before the start of its
    /// segment, commit a cluster out of place or of an unknown kind, or stop
    /// short of covering the input.
    Unsound,
}

} // verus!
