//! A check of a table, made once before any scan, after which no scan can
//! break a rule: whatever the input, the scan completes and covers it.
//!
//! The check accepts transitions whose action list has one of seven shapes,
//! and puts two marks on each state: whether a segment end has been marked
//! whenever a scan is in the state, and whether a cluster kind has been
//! remembered. It holds every transition to what the marks of its two
//! states promise. This module says what the marks must promise, and proves
//! that a table which keeps the promises never fails.
use vstd::prelude::*;
use crate::automaton::{Action, Rules};
use crate::engine::{
    apply_actions, initial_cursor, progresses, run, scan_result, step, CursorModel, Outcome,
    Segment, Trace,
};

verus! {

/// The shapes of action list that the check accepts.
#[derive(Clone, Copy, Debug, PartialEq, Eq, Structural)]
pub enum Shape {
    /// No action: the unit joins the segment.
    Shift,
    /// The segment may end after this unit.
    Mark,
    /// The segment may end after this unit, as a cluster of this kind.
    MarkDefer(u8),
    /// The segment ends after this unit, as a cluster of this kind.
    AcceptHere(u8),
    /// The segment ends before this unit, as a cluster of this kind.
    AcceptBefore(u8),
    /// The segment ends at the marked end, as a cluster of this kind.
    AcceptMarked(u8),
    /// The segment ends at the marked end, as a cluster of the remembered
    /// kind.
    AcceptDeferred,
}

/// The shape of an action list, if it has one of the accepted shapes.
pub open spec fn shape_of(actions: Seq<Action>) -> Option<Shape> {
    if actions.len() == 0 {
        Some(Shape::Shift)
    } else if actions.len() == 1 {
        match actions[0] {
            Action::EndInclusive => Some(Shape::Mark),
            Action::CommitDeferred => Some(Shape::AcceptDeferred),
            _ => None,
        }
    } else if actions.len() == 2 {
        match (actions[0], actions[1]) {
            (Action::EndInclusive, Action::Defer(kind)) => Some(Shape::MarkDefer(kind)),
            (Action::EndInclusive, Action::Commit(kind)) => Some(Shape::AcceptHere(kind)),
            (Action::EndExclusive, Action::Commit(kind)) => Some(Shape::AcceptBefore(kind)),
            (Action::Defer(kind), Action::CommitDeferred) => Some(Shape::AcceptMarked(kind)),
            _ => None,
        }
    } else {
        None
    }
}

/// The shape of an action list, if it has one of the accepted shapes.
pub fn classify(actions: &Vec<Action>) -> (shape: Option<Shape>)
    ensures
        shape == shape_of(actions@),
{
    if actions.len() == 0 {
        Some(Shape::Shift)
    } else if actions.len() == 1 {
        match actions[0] {
            Action::EndInclusive => Some(Shape::Mark),
            Action::CommitDeferred => Some(Shape::AcceptDeferred),
            _ => None,
        }
    } else if actions.len() == 2 {
        match (actions[0], actions[1]) {
            (Action::EndInclusive, Action::Defer(kind)) => Some(Shape::MarkDefer(kind)),
            (Action::EndInclusive, Action::Commit(kind)) => Some(Shape::AcceptHere(kind)),
            (Action::EndExclusive, Action::Commit(kind)) => Some(Shape::AcceptBefore(kind)),
            (Action::Defer(kind), Action::CommitDeferred) => Some(Shape::AcceptMarked(kind)),
            _ => None,
        }
    } else {
        None
    }
}

/// What is known of a scan that is in a state, at the start of a step.
#[derive(Clone, Copy, Debug, PartialEq, Eq, Structural)]
pub struct Marks {
    /// The state resets the segment start: the last commit ended here.
    pub anchor: bool,
    /// A segment end has been marked inside the segment.
    pub marked: bool,
    /// A cluster kind has been remembered.
    pub deferring: bool,
}

/// Whether a transition on a unit, with an action list of shape `shape`,
/// may lead from a state with marks `from` to one with marks `to`, in a
/// machine with `kinds` cluster kinds.
pub open spec fn step_allowed(shape: Shape, from: Marks, to: Marks, kinds: u8) -> bool {
    match shape {
        Shape::Shift => !to.anchor && (to.marked ==> from.marked) && (to.deferring
            ==> from.deferring),
        Shape::Mark => !to.anchor && (to.deferring ==> from.deferring),
        Shape::MarkDefer(kind) => !to.anchor && kind < kinds,
        Shape::AcceptHere(kind) => to.anchor && kind < kinds,
        Shape::AcceptBefore(kind) => to.anchor && !from.anchor && kind < kinds,
        Shape::AcceptMarked(kind) => to.anchor && from.marked && kind < kinds,
        Shape::AcceptDeferred => to.anchor && from.marked && from.deferring,
    }
}

/// Whether a transition at the end of the input, with an action list of
/// shape `shape`, may lead from a state with marks `from` to one with marks
/// `to`, accepting or not.
pub open spec fn end_allowed(
    shape: Shape,
    from: Marks,
    to: Marks,
    accepting: bool,
    kinds: u8,
) -> bool {
    match shape {
        Shape::Shift => from.anchor && accepting,
        Shape::Mark => false,
        Shape::MarkDefer(_) => false,
        Shape::AcceptHere(_) => false,
        Shape::AcceptBefore(kind) => to.anchor && !from.anchor && kind < kinds,
        Shape::AcceptMarked(kind) => to.anchor && from.marked && kind < kinds,
        Shape::AcceptDeferred => to.anchor && from.marked && from.deferring,
    }
}

/// Whether a transition on a unit may lead from `from` to `to`.
pub fn may_step(shape: Shape, from: Marks, to: Marks, kinds: u8) -> (ok: bool)
    ensures
        ok == step_allowed(shape, from, to, kinds),
{
    match shape {
        Shape::Shift => !to.anchor && (!to.marked || from.marked) && (!to.deferring
            || from.deferring),
        Shape::Mark => !to.anchor && (!to.deferring || from.deferring),
        Shape::MarkDefer(kind) => !to.anchor && kind < kinds,
        Shape::AcceptHere(kind) => to.anchor && kind < kinds,
        Shape::AcceptBefore(kind) => to.anchor && !from.anchor && kind < kinds,
        Shape::AcceptMarked(kind) => to.anchor && from.marked && kind < kinds,
        Shape::AcceptDeferred => to.anchor && from.marked && from.deferring,
    }
}

/// Whether a transition at the end of the input may lead from `from` to
/// `to`.
pub fn may_end(shape: Shape, from: Marks, to: Marks, accepting: bool, kinds: u8) -> (ok: bool)
    ensures
        ok == end_allowed(shape, from, to, accepting, kinds),
{
    match shape {
        Shape::Shift => from.anchor && accepting,
        Shape::Mark => false,
        Shape::MarkDefer(_) => false,
        Shape::AcceptHere(_) => false,
        Shape::AcceptBefore(kind) => to.anchor && !from.anchor && kind < kinds,
        Shape::AcceptMarked(kind) => to.anchor && from.marked && kind < kinds,
        Shape::AcceptDeferred => to.anchor && from.marked && from.deferring,
    }
}

/// The marks of the states of a machine.
pub struct Labels {
    pub marked: Seq<bool>,
    pub deferring: Seq<bool>,
}

/// The marks of `state`.
pub open spec fn marks_of<R: Rules>(rules: &R, labels: Labels, state: nat) -> Marks {
    Marks {
        anchor: rules.anchors(state),
        marked: labels.marked[state as int],
        deferring: labels.deferring[state as int],
    }
}

/// The transition of `state` on `category` keeps to the marks.
pub open spec fn edge_ok<R: Rules>(
    rules: &R,
    labels: Labels,
    kinds: u8,
    state: nat,
    category: u8,
) -> bool {
    let rule = rules.rule(state, category);
    &&& rule.target < rules.state_count()
    &&& shape_of(rule.actions) matches Some(shape)
    &&& step_allowed(
        shape,
        marks_of(rules, labels, state),
        marks_of(rules, labels, rule.target),
        kinds,
    )
}

/// The transition of `state` at the end of the input keeps to the marks;
/// where there is none, the state is one in which a scan may stop.
pub open spec fn end_ok<R: Rules>(rules: &R, labels: Labels, kinds: u8, state: nat) -> bool {
    match rules.end_rule(state) {
        None => rules.anchors(state) && state >= rules.first_final(),
        Some(rule) => {
            &&& rule.target < rules.state_count()
            &&& shape_of(rule.actions) matches Some(shape)
            &&& end_allowed(
                shape,
                marks_of(rules, labels, state),
                marks_of(rules, labels, rule.target),
                rule.target >= rules.first_final(),
                kinds,
            )
        },
    }
}

/// A state that resets the segment start carries no other mark.
pub open spec fn anchor_clear<R: Rules>(rules: &R, labels: Labels, state: nat) -> bool {
    rules.anchors(state) ==> !labels.marked[state as int] && !labels.deferring[state as int]
}

/// Every transition of the machine keeps to the marks, and a scan starts in
/// a state that resets the segment start.
pub open spec fn flow_ok<R: Rules>(rules: &R, labels: Labels, kinds: u8) -> bool {
    &&& labels.marked.len() == rules.state_count()
    &&& labels.deferring.len() == rules.state_count()
    &&& rules.start() < rules.state_count()
    &&& rules.anchors(rules.start())
    &&& forall|state: nat|
        state < rules.state_count() ==> #[trigger] anchor_clear(rules, labels, state)
    &&& forall|state: nat, category: u8|
        state < rules.state_count() ==> #[trigger] edge_ok(rules, labels, kinds, state, category)
    &&& forall|state: nat|
        state < rules.state_count() ==> #[trigger] end_ok(rules, labels, kinds, state)
}

/// Every segment is of one of the first `kinds` kinds.
pub open spec fn kinds_below(segments: Seq<Segment>, kinds: u8) -> bool {
    forall|i: int| 0 <= i < segments.len() ==> (#[trigger] segments[i]).kind < kinds
}

/// What the marks of its state promise of a cursor at the start of a step,
/// over an input of `n` units.
pub open spec fn steady<R: Rules>(
    rules: &R,
    labels: Labels,
    kinds: u8,
    c: CursorModel,
    n: int,
) -> bool {
    let marks = marks_of(rules, labels, c.state);
    &&& c.state < rules.state_count()
    &&& 0 <= c.committed <= c.pos <= n
    &&& 0 <= c.seg_start
    &&& 0 <= c.seg_end
    &&& marks.anchor ==> c.pos == c.committed
    &&& !marks.anchor ==> c.seg_start == c.committed && c.seg_start < c.pos
    &&& marks.marked ==> c.seg_start < c.seg_end <= c.pos
    &&& marks.deferring ==> c.deferred is Some && c.deferred->0 < kinds
}

/// In a machine that passes the check, a step from a cursor that keeps the
/// promises of its state breaks no rule: either the scan is finished, or it
/// goes on, with progress, from a cursor that keeps the promises of its
/// state.
pub proof fn lemma_step_sound<R: Rules>(
    rules: &R,
    labels: Labels,
    kinds: u8,
    categories: Seq<u8>,
    t: Trace,
)
    requires
        flow_ok(rules, labels, kinds),
        steady(rules, labels, kinds, t.cursor, categories.len() as int),
        kinds_below(t.out, kinds),
    ensures
        match step(rules, categories, t) {
            Outcome::Continue(next) => {
                &&& steady(rules, labels, kinds, next.cursor, categories.len() as int)
                &&& progresses(t.cursor, next.cursor, categories.len() as int)
                &&& kinds_below(next.out, kinds)
            },
            Outcome::Finished(out) => kinds_below(out, kinds),
            Outcome::Violation => false,
        },
{
    reveal_with_fuel(apply_actions, 3);
    let n = categories.len() as int;
    let c = t.cursor;
    assert(anchor_clear(rules, labels, c.state));
    assert(end_ok(rules, labels, kinds, c.state));
    if c.pos < n {
        assert(edge_ok(rules, labels, kinds, c.state, categories[c.pos]));
    }
    let rule = if c.pos == n {
        rules.end_rule(c.state)
    } else {
        Some(rules.rule(c.state, categories[c.pos]))
    };
    if let Some(rule) = rule {
        assert(anchor_clear(rules, labels, rule.target));
    }
}

/// In a machine that passes the check, the scan that goes on from a cursor
/// that keeps the promises of its state completes.
pub proof fn lemma_run_sound<R: Rules>(
    rules: &R,
    labels: Labels,
    kinds: u8,
    categories: Seq<u8>,
    t: Trace,
)
    requires
        flow_ok(rules, labels, kinds),
        steady(rules, labels, kinds, t.cursor, categories.len() as int),
        kinds_below(t.out, kinds),
    ensures
        run(rules, categories, t) matches Some(out) && kinds_below(out, kinds),
    decreases categories.len() - t.cursor.committed, categories.len() - t.cursor.pos,
{
    lemma_step_sound(rules, labels, kinds, categories, t);
    if let Outcome::Continue(next) = step(rules, categories, t) {
        lemma_run_sound(rules, labels, kinds, categories, next);
    }
}

/// A machine that passes the check never fails: on every input the scan
/// completes, and commits clusters of known kinds only.
pub proof fn lemma_scan_sound<R: Rules>(rules: &R, labels: Labels, kinds: u8, categories: Seq<u8>)
    requires
        flow_ok(rules, labels, kinds),
    ensures
        scan_result(rules, categories) matches Some(segments) && kinds_below(segments, kinds),
{
    let first = Trace { cursor: initial_cursor(rules.start()), out: Seq::empty() };
    assert(anchor_clear(rules, labels, rules.start()));
    lemma_run_sound(rules, labels, kinds, categories, first);
}

} // verus!
