//! What a scan needs from a transition table, whatever its layout.
use vstd::prelude::*;

verus! {

/// One action of a transition.
#[derive(Clone, Copy, Debug, PartialEq, Eq, Structural)]
pub enum Action {
    /// The segment starts at the current unit.
    Start,
    /// The segment ends after the current unit.
    EndInclusive,
    /// The segment ends before the current unit, which is examined again as
    /// the first unit of the next segment.
    EndExclusive,
    /// Remember a cluster kind without committing.
    Defer(u8),
    /// Commit the segment as a cluster of the given kind. A remembered kind
    /// is forgotten.
    Commit(u8),
    /// Go back to the marked segment end and commit the segment as a cluster
    /// of the remembered kind.
    CommitDeferred,
}

/// The action list of one action.
pub fn single(action: Action) -> (actions: Vec<Action>)
    ensures
        actions@ == seq![action],
{
    let mut actions: Vec<Action> = Vec::new();
    actions.push(action);
    assert(actions@ =~= seq![action]);
    actions
}

/// The action list of two actions, in order.
pub fn pair(first: Action, second: Action) -> (actions: Vec<Action>)
    ensures
        actions@ == seq![first, second],
{
    let mut actions: Vec<Action> = Vec::new();
    actions.push(first);
    actions.push(second);
    assert(actions@ =~= seq![first, second]);
    actions
}

/// A transition as the contracts see it: the next state and the actions to
/// run, in order.
pub struct Rule {
    pub target: nat,
    pub actions: Seq<Action>,
}

/// A transition as the scan holds it: the next state and the index of its
/// action list among the table's programs.
#[derive(Clone, Copy, Debug, PartialEq, Eq, Structural)]
pub struct Transition {
    pub target: usize,
    pub program: usize,
}

/// The rules of a deterministic automaton over category codes, as the
/// contracts see them. Each state has a transition for every category, so a
/// lookup never fails.
pub trait Rules {
    /// The table is well formed: every lookup stays inside it.
    spec fn wf(&self) -> bool;

    /// The number of states; states are `0 .. state_count()`.
    spec fn state_count(&self) -> nat;

    /// The state a scan starts in.
    spec fn start(&self) -> nat;

    /// States from this one on are accepting: a scan may stop in them at the
    /// end of the input.
    spec fn first_final(&self) -> nat;

    /// Whether entering a step in `state` resets the segment start to the
    /// current position.
    spec fn anchors(&self, state: nat) -> bool;

    /// The transition `state` takes on `category`.
    spec fn rule(&self, state: nat, category: u8) -> Rule;

    /// The transition `state` takes at the end of the input, if it has one.
    spec fn end_rule(&self, state: nat) -> Option<Rule>;

    /// The action lists that transitions refer to by index.
    spec fn programs(&self) -> Seq<Seq<Action>>;
}

/// A table that a scan can run on: its view gives the rules, and its
/// methods look them up.
pub trait Automaton: View where Self::V: Rules {
    /// The state a scan starts in.
    fn start_state(&self) -> (s: usize)
        requires
            self@.wf(),
        ensures
            s == self@.start(),
            s < self@.state_count(),
    ;

    /// Whether a scan may stop in `state` at the end of the input.
    fn is_final(&self, state: usize) -> (b: bool)
        requires
            self@.wf(),
            state < self@.state_count(),
        ensures
            b == (state >= self@.first_final()),
    ;

    /// Whether entering a step in `state` resets the segment start.
    fn is_anchor(&self, state: usize) -> (b: bool)
        requires
            self@.wf(),
            state < self@.state_count(),
        ensures
            b == self@.anchors(state as nat),
    ;

    /// The transition `state` takes on `category`.
    fn transition(&self, state: usize, category: u8) -> (t: Transition)
        requires
            self@.wf(),
            state < self@.state_count(),
        ensures
            t.target == self@.rule(state as nat, category).target,
            t.target < self@.state_count(),
            t.program < self@.programs().len(),
            self@.programs()[t.program as int] == self@.rule(state as nat, category).actions,
    ;

    /// The transition `state` takes at the end of the input, if it has one.
    fn end_transition(&self, state: usize) -> (t: Option<Transition>)
        requires
            self@.wf(),
            state < self@.state_count(),
        ensures
            t is Some == self@.end_rule(state as nat) is Some,
            t matches Some(t) ==> {
                &&& t.target == self@.end_rule(state as nat)->0.target
                &&& t.target < self@.state_count()
                &&& t.program < self@.programs().len()
                &&& self@.programs()[t.program as int] == self@.end_rule(state as nat)->0.actions
            },
    ;

    /// The action list with the given index.
    fn program(&self, index: usize) -> (actions: &Vec<Action>)
        requires
            self@.wf(),
            index < self@.programs().len(),
        ensures
            actions@ == self@.programs()[index as int],
    ;
}

} // verus!
