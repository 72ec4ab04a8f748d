//! The scan: longest-match segmentation of a category sequence by an
//! automaton, as a step function on an explicit cursor.
use vstd::prelude::*;
use crate::automaton::{Action, Automaton, Rules, Transition};

verus! {

/// A committed cluster as the contracts see it: the units `start .. end` and
/// their kind.
pub struct Segment {
    pub start: int,
    pub end: int,
    pub kind: u8,
}

/// A committed cluster.
#[derive(Clone, Copy, Debug, PartialEq, Eq, Structural)]
pub struct Commit {
    pub start: usize,
    pub end: usize,
    pub kind: u8,
}

impl View for Commit {
    type V = Segment;

    open spec fn view(&self) -> Segment {
        Segment { start: self.start as int, end: self.end as int, kind: self.kind }
    }
}

/// The segments of a list of commits.
pub open spec fn segments_of(commits: Seq<Commit>) -> Seq<Segment> {
    Seq::new(commits.len(), |i: int| commits[i]@)
}

/// The state of a scan between two steps, as the contracts see it.
pub struct CursorModel {
    /// The automaton state.
    pub state: nat,
    /// The position of the unit to examine next; the input length stands for
    /// the end of the input.
    pub pos: int,
    /// Where the segment being matched starts.
    pub seg_start: int,
    /// Where the segment being matched ends, once an action has marked it.
    pub seg_end: int,
    /// The cluster kind remembered for a deferred commit.
    pub deferred: Option<u8>,
    /// The end of the last committed segment.
    pub committed: int,
}

/// The state of a scan between two steps.
#[derive(Clone, Copy, Debug, PartialEq, Eq, Structural)]
pub struct Cursor {
    pub state: usize,
    pub pos: usize,
    pub seg_start: usize,
    pub seg_end: usize,
    pub deferred: Option<u8>,
    pub committed: usize,
}

impl View for Cursor {
    type V = CursorModel;

    open spec fn view(&self) -> CursorModel {
        CursorModel {
            state: self.state as nat,
            pos: self.pos as int,
            seg_start: self.seg_start as int,
            seg_end: self.seg_end as int,
            deferred: self.deferred,
            committed: self.committed as int,
        }
    }
}

/// A cursor together with the segments committed so far.
pub struct Trace {
    pub cursor: CursorModel,
    pub out: Seq<Segment>,
}

/// The cursor a scan starts with.
pub open spec fn initial_cursor(start: nat) -> CursorModel {
    CursorModel { state: start, pos: 0, seg_start: 0, seg_end: 0, deferred: None, committed: 0 }
}

impl CursorModel {
    /// The cursor lies inside an input of `n` units.
    pub open spec fn within(self, n: int) -> bool {
        &&& 0 <= self.pos <= n
        &&& 0 <= self.seg_start
        &&& 0 <= self.seg_end
        &&& 0 <= self.committed <= n
    }
}

/// The segment a commit emits, when the cursor allows the commit: the
/// segment starts where the last one ended and lies inside the input.
pub open spec fn commit_allowed(c: CursorModel, n: int) -> bool {
    c.seg_start == c.committed && c.seg_start <= c.seg_end <= n
}

/// The effect of one action on a trace over an input of `n` units; `None`
/// where the action breaks a rule that a table must keep:
/// - a segment ends after a unit only where there is a unit;
/// - a scan goes back before a unit only inside its segment;
/// - a commit takes a segment that starts where the last one ended, does
///   not end before it starts, and lies inside the input;
/// - a deferred commit needs a remembered kind and a segment that is not
///   empty.
pub open spec fn apply_action(action: Action, t: Trace, n: int) -> Option<Trace> {
    let c = t.cursor;
    match action {
        Action::Start => Some(Trace { cursor: CursorModel { seg_start: c.pos, ..c }, ..t }),
        Action::EndInclusive => if c.pos < n {
            Some(Trace { cursor: CursorModel { seg_end: c.pos + 1, ..c }, ..t })
        } else {
            None
        },
        Action::EndExclusive => if c.pos > c.seg_start {
            Some(Trace { cursor: CursorModel { seg_end: c.pos, pos: c.pos - 1, ..c }, ..t })
        } else {
            None
        },
        Action::Defer(kind) => Some(
            Trace { cursor: CursorModel { deferred: Some(kind), ..c }, ..t },
        ),
        Action::Commit(kind) => if commit_allowed(c, n) {
            Some(
                Trace {
                    cursor: CursorModel { committed: c.seg_end, deferred: None, ..c },
                    out: t.out.push(Segment { start: c.seg_start, end: c.seg_end, kind }),
                },
            )
        } else {
            None
        },
        Action::CommitDeferred => match c.deferred {
            Some(kind) => if commit_allowed(c, n) && c.seg_start < c.seg_end {
                Some(
                    Trace {
                        cursor: CursorModel {
                            pos: c.seg_end - 1,
                            committed: c.seg_end,
                            deferred: None,
                            ..c
                        },
                        out: t.out.push(Segment { start: c.seg_start, end: c.seg_end, kind }),
                    },
                )
            } else {
                None
            },
            None => None,
        },
    }
}

/// The effect of the actions `actions[from ..]`, run in order.
pub open spec fn apply_actions(actions: Seq<Action>, from: int, t: Trace, n: int) -> Option<Trace>
    decreases actions.len() - from,
{
    if from < 0 || from >= actions.len() {
        Some(t)
    } else {
        match apply_action(actions[from], t, n) {
            Some(next) => apply_actions(actions, from + 1, next, n),
            None => None,
        }
    }
}

/// How one step of a scan ends.
pub enum Outcome {
    /// The scan goes on from this trace.
    Continue(Trace),
    /// The scan has consumed the input; these are its segments.
    Finished(Seq<Segment>),
    /// The table broke the rules a table must keep.
    Violation,
}

/// The end of a scan. Two more rules that a table must keep: the segments
/// cover the input, and the automaton is in an accepting state.
pub open spec fn finish<R: Rules>(rules: &R, t: Trace, n: int) -> Outcome {
    if t.cursor.committed == n && t.cursor.state >= rules.first_final() {
        Outcome::Finished(t.out)
    } else {
        Outcome::Violation
    }
}

/// One step of a scan over `categories`: the entry hook of the state resets
/// the segment start; the transition for the unit at the cursor, or for the
/// end of the input, gives the next state and the actions to run; then the
/// scan moves on by one unit. The scan ends where a state has no transition
/// at the end of the input, or where the transition it has leaves the
/// cursor at the end.
pub open spec fn step<R: Rules>(rules: &R, categories: Seq<u8>, t: Trace) -> Outcome {
    let n = categories.len() as int;
    let c = t.cursor;
    let seg_start = if rules.anchors(c.state) {
        c.pos
    } else {
        c.seg_start
    };
    let rule = if c.pos == n {
        rules.end_rule(c.state)
    } else {
        Some(rules.rule(c.state, categories[c.pos]))
    };
    match rule {
        None => finish(rules, Trace { cursor: CursorModel { seg_start, ..c }, ..t }, n),
        Some(rule) => {
            let entered = Trace { cursor: CursorModel { state: rule.target, seg_start, ..c }, ..t };
            match apply_actions(rule.actions, 0, entered, n) {
                None => Outcome::Violation,
                Some(after) => if after.cursor.pos == n {
                    finish(rules, after, n)
                } else {
                    Outcome::Continue(
                        Trace {
                            cursor: CursorModel { pos: after.cursor.pos + 1, ..after.cursor },
                            ..after
                        },
                    )
                },
            }
        },
    }
}

/// A step makes progress: it commits a segment that is not empty, or it
/// moves on to a later unit. A scan that goes back without committing would
/// never end; that is the last rule a table must keep.
pub open spec fn progresses(before: CursorModel, after: CursorModel, n: int) -> bool {
    &&& after.within(n)
    &&& before.committed <= after.committed
    &&& before.committed < after.committed || before.pos < after.pos
}

/// The segments of the scan that goes on from `t`; `None` where the table
/// breaks its rules on this input.
pub open spec fn run<R: Rules>(rules: &R, categories: Seq<u8>, t: Trace) -> Option<Seq<Segment>>
    decreases categories.len() - t.cursor.committed, categories.len() - t.cursor.pos,
{
    match step(rules, categories, t) {
        Outcome::Violation => None,
        Outcome::Finished(out) => Some(out),
        Outcome::Continue(next) => if progresses(t.cursor, next.cursor, categories.len() as int) {
            run(rules, categories, next)
        } else {
            None
        },
    }
}

/// The segments of a scan of `categories` from the start state.
pub open spec fn scan_result<R: Rules>(rules: &R, categories: Seq<u8>) -> Option<Seq<Segment>> {
    run(rules, categories, Trace { cursor: initial_cursor(rules.start()), out: Seq::empty() })
}

/// Pushing a commit pushes its segment.
proof fn lemma_segments_push(commits: Seq<Commit>, commit: Commit)
    ensures
        segments_of(commits.push(commit)) == segments_of(commits).push(commit@),
{
    assert(segments_of(commits.push(commit)) =~= segments_of(commits).push(commit@));
}

/// How one step of a scan ends.
#[derive(Clone, Copy, Debug, PartialEq, Eq, Structural)]
pub enum Step {
    /// The scan goes on from this cursor.
    Continue(Cursor),
    /// The scan has consumed the input.
    Finished,
    /// The table broke the rules a table must keep.
    Violation,
}

/// Whether a commit is allowed at `cursor`.
fn may_commit(cursor: &Cursor, n: usize) -> (ok: bool)
    ensures
        ok == commit_allowed(cursor@, n as int),
{
    cursor.seg_start == cursor.committed && cursor.seg_start <= cursor.seg_end && cursor.seg_end
        <= n
}

/// Runs one action: returns the cursor after it and appends the segment it
/// commits, if any, to `out`.
pub fn perform(action: Action, cursor: Cursor, out: &mut Vec<Commit>, n: usize) -> (next:
    Option<Cursor>)
    requires
        cursor@.within(n as int),
    ensures
        match apply_action(
            action,
            Trace { cursor: cursor@, out: segments_of(old(out)@) },
            n as int,
        ) {
            Some(t) => next matches Some(c) && c@ == t.cursor && segments_of(final(out)@) == t.out
                && c@.within(n as int) && c.state == cursor.state,
            None => next is None && final(out)@ == old(out)@,
        },
{
    match action {
        Action::Start => Some(Cursor { seg_start: cursor.pos, ..cursor }),
        Action::EndInclusive => {
            if cursor.pos < n {
                Some(Cursor { seg_end: cursor.pos + 1, ..cursor })
            } else {
                None
            }
        },
        Action::EndExclusive => {
            if cursor.pos > cursor.seg_start {
                Some(Cursor { seg_end: cursor.pos, pos: cursor.pos - 1, ..cursor })
            } else {
                None
            }
        },
        Action::Defer(kind) => Some(Cursor { deferred: Some(kind), ..cursor }),
        Action::Commit(kind) => {
            if may_commit(&cursor, n) {
                let commit = Commit { start: cursor.seg_start, end: cursor.seg_end, kind };
                proof {
                    lemma_segments_push(out@, commit);
                }
                out.push(commit);
                Some(Cursor { committed: cursor.seg_end, deferred: None, ..cursor })
            } else {
                None
            }
        },
        Action::CommitDeferred => {
            match cursor.deferred {
                Some(kind) => {
                    if may_commit(&cursor, n) && cursor.seg_start < cursor.seg_end {
                        let commit = Commit { start: cursor.seg_start, end: cursor.seg_end, kind };
                        proof {
                            lemma_segments_push(out@, commit);
                        }
                        out.push(commit);
                        Some(
                            Cursor {
                                pos: cursor.seg_end - 1,
                                committed: cursor.seg_end,
                                deferred: None,
                                ..cursor
                            },
                        )
                    } else {
                        None
                    }
                },
                None => None,
            }
        },
    }
}

/// Runs the actions of a transition in order.
pub fn perform_all(actions: &Vec<Action>, cursor: Cursor, out: &mut Vec<Commit>, n: usize) -> (next:
    Option<Cursor>)
    requires
        cursor@.within(n as int),
    ensures
        match apply_actions(
            actions@,
            0,
            Trace { cursor: cursor@, out: segments_of(old(out)@) },
            n as int,
        ) {
            Some(t) => next matches Some(c) && c@ == t.cursor && segments_of(final(out)@) == t.out
                && c@.within(n as int) && c.state == cursor.state,
            None => next is None,
        },
{
    let ghost first = Trace { cursor: cursor@, out: segments_of(out@) };
    let mut current = cursor;
    let mut k: usize = 0;
    while k < actions.len()
        invariant
            k <= actions.len(),
            current@.within(n as int),
            current.state == cursor.state,
            first == (Trace { cursor: cursor@, out: segments_of(old(out)@) }),
            apply_actions(actions@, 0, first, n as int) == apply_actions(
                actions@,
                k as int,
                Trace { cursor: current@, out: segments_of(out@) },
                n as int,
            ),
        decreases actions.len() - k,
    {
        let ghost before = Trace { cursor: current@, out: segments_of(out@) };
        match perform(actions[k], current, out, n) {
            Some(next) => {
                current = next;
            },
            None => {
                assert(apply_actions(actions@, k as int, before, n as int) is None);
                return None;
            },
        }
        k += 1;
    }
    Some(current)
}

/// Ends the scan at `cursor`.
fn conclude<A: Automaton>(machine: &A, cursor: Cursor, n: usize) -> (s: Step)
    where A::V: Rules,
    requires
        machine@.wf(),
        cursor.state < machine@.state_count(),
    ensures
        s !is Continue,
        forall|out: Seq<Segment>|
            (s is Finished) == (#[trigger] finish(
                &machine@,
                Trace { cursor: cursor@, out },
                n as int,
            ) is Finished),
{
    if cursor.committed == n && machine.is_final(cursor.state) {
        Step::Finished
    } else {
        Step::Violation
    }
}

/// Takes one step of the scan over `categories`: runs the entry hook of the
/// current state, picks the transition for the unit at the cursor, or for
/// the end of the input, runs its actions, and moves on by one unit.
pub fn advance<A: Automaton>(
    machine: &A,
    categories: &Vec<u8>,
    cursor: Cursor,
    out: &mut Vec<Commit>,
) -> (s: Step)
    where A::V: Rules,
    requires
        machine@.wf(),
        cursor.state < machine@.state_count(),
        cursor@.within(categories@.len() as int),
    ensures
        match step(&machine@, categories@, Trace { cursor: cursor@, out: segments_of(old(out)@) }) {
            Outcome::Continue(t) => s matches Step::Continue(c) && c@ == t.cursor && segments_of(
                final(out)@,
            ) == t.out && c.state < machine@.state_count() && c.pos <= categories@.len()
                && c.committed <= categories@.len(),
            Outcome::Finished(segments) => s is Finished && segments_of(final(out)@) == segments,
            Outcome::Violation => s is Violation,
        },
{
    let n: usize = categories.len();
    let seg_start: usize = if machine.is_anchor(cursor.state) {
        cursor.pos
    } else {
        cursor.seg_start
    };
    let transition: Option<Transition> = if cursor.pos == n {
        machine.end_transition(cursor.state)
    } else {
        Some(machine.transition(cursor.state, categories[cursor.pos]))
    };
    match transition {
        None => conclude(machine, Cursor { seg_start, ..cursor }, n),
        Some(transition) => {
            let entered = Cursor { state: transition.target, seg_start, ..cursor };
            match perform_all(machine.program(transition.program), entered, out, n) {
                None => Step::Violation,
                Some(after) => {
                    if after.pos == n {
                        conclude(machine, after, n)
                    } else {
                        Step::Continue(Cursor { pos: after.pos + 1, ..after })
                    }
                },
            }
        },
    }
}

/// Whether the step from `before` to `after` made progress.
fn made_progress(before: &Cursor, after: &Cursor, n: usize) -> (ok: bool)
    ensures
        ok == progresses(before@, after@, n as int),
{
    after.pos <= n && after.committed <= n && before.committed <= after.committed && (
    before.committed < after.committed || before.pos < after.pos)
}

/// Scans `categories` from the start state and returns the committed
/// clusters in order, or `None` where the table breaks its rules on this
/// input.
pub fn scan<A: Automaton>(machine: &A, categories: &Vec<u8>) -> (commits: Option<Vec<Commit>>)
    where A::V: Rules,
    requires
        machine@.wf(),
    ensures
        match scan_result(&machine@, categories@) {
            Some(segments) => commits matches Some(c) && segments_of(c@) == segments,
            None => commits is None,
        },
{
    let n: usize = categories.len();
    let mut out: Vec<Commit> = Vec::new();
    let mut cursor = Cursor {
        state: machine.start_state(),
        pos: 0,
        seg_start: 0,
        seg_end: 0,
        deferred: None,
        committed: 0,
    };
    assert(segments_of(out@) =~= Seq::empty());
    loop
        invariant
            machine@.wf(),
            n == categories@.len(),
            cursor.state < machine@.state_count(),
            cursor@.within(n as int),
            scan_result(&machine@, categories@) == run(
                &machine@,
                categories@,
                Trace { cursor: cursor@, out: segments_of(out@) },
            ),
        decreases n - cursor.committed, n - cursor.pos,
    {
        match advance(machine, categories, cursor, &mut out) {
            Step::Violation => {
                return None;
            },
            Step::Finished => {
                return Some(out);
            },
            Step::Continue(next) => {
                if !made_progress(&cursor, &next, n) {
                    return None;
                }
                cursor = next;
            },
        }
    }
}

} // verus!
