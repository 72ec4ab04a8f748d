//! What holds of the segments of every scan that completes: they follow one
//! another from the first unit to the last, without gaps or overlaps.
use vstd::prelude::*;
use crate::automaton::{Action, Rules};
use crate::engine::{
    apply_action, apply_actions, initial_cursor, progresses, run, scan_result, step, CursorModel,
    Outcome, Segment, Trace,
};

verus! {

/// Segment `i` is well ordered and starts where segment `i - 1` ends; the
/// first segment starts at unit `0`.
pub open spec fn joined(segments: Seq<Segment>, i: int) -> bool {
    &&& segments[i].start <= segments[i].end
    &&& segments[i].start == if i == 0 {
        0
    } else {
        segments[i - 1].end
    }
}

/// The segments follow one another from unit `0` up to unit `to`: each
/// starts where the one before it ends, the first starts at `0`, and the
/// last ends at `to`. A segment may be empty.
pub open spec fn tiles(segments: Seq<Segment>, to: int) -> bool {
    &&& forall|i: int| 0 <= i < segments.len() ==> #[trigger] joined(segments, i)
    &&& to == if segments.len() == 0 {
        0
    } else {
        segments.last().end
    }
}

/// Whether unit `p` lies in `segment`.
pub open spec fn holds(segment: Segment, p: int) -> bool {
    segment.start <= p < segment.end
}

/// Whether unit `p` lies in one of `segments`.
pub open spec fn covered(segments: Seq<Segment>, p: int) -> bool {
    exists|i: int| 0 <= i < segments.len() && #[trigger] holds(segments[i], p)
}

/// In a tiling, a segment ends no later than a later segment starts.
pub proof fn lemma_tiles_ordered(segments: Seq<Segment>, to: int, i: int, j: int)
    requires
        tiles(segments, to),
        0 <= i <= j < segments.len(),
    ensures
        segments[i].end <= segments[j].end,
        i < j ==> segments[i].end <= segments[j].start,
    decreases j - i,
{
    assert(joined(segments, j));
    if i < j {
        lemma_tiles_ordered(segments, to, i, j - 1);
    }
}

/// In a tiling up to `to`, every segment lies in `0 ..= to`.
pub proof fn lemma_tiles_bounded(segments: Seq<Segment>, to: int, i: int)
    requires
        tiles(segments, to),
        0 <= i < segments.len(),
    ensures
        0 <= segments[i].start <= segments[i].end <= to,
{
    assert(joined(segments, i));
    assert(joined(segments, 0));
    if i > 0 {
        lemma_tiles_ordered(segments, to, 0, i - 1);
    }
    lemma_tiles_ordered(segments, to, i, segments.len() - 1);
}

/// The tiling that is left when the last segment is taken away.
pub proof fn lemma_tiles_front(segments: Seq<Segment>, to: int)
    requires
        tiles(segments, to),
        segments.len() > 0,
    ensures
        tiles(segments.drop_last(), segments.last().start),
{
    let front = segments.drop_last();
    assert forall|k: int| 0 <= k < front.len() implies #[trigger] joined(front, k) by {
        assert(joined(segments, k));
    }
    assert(joined(segments, segments.len() - 1));
}

/// In a tiling of `0 .. to`, every unit lies in some segment.
pub proof fn lemma_tiles_cover(segments: Seq<Segment>, to: int, p: int) -> (i: int)
    requires
        tiles(segments, to),
        0 <= p < to,
    ensures
        0 <= i < segments.len(),
        holds(segments[i], p),
    decreases segments.len(),
{
    let last = segments.len() - 1;
    if segments[last].start <= p {
        last
    } else {
        lemma_tiles_front(segments, to);
        lemma_tiles_cover(segments.drop_last(), segments[last].start, p)
    }
}

/// In a tiling, no unit lies in two segments.
pub proof fn lemma_tiles_disjoint(segments: Seq<Segment>, to: int, i: int, j: int, p: int)
    requires
        tiles(segments, to),
        0 <= i < segments.len(),
        0 <= j < segments.len(),
        holds(segments[i], p),
        holds(segments[j], p),
    ensures
        i == j,
{
    if i < j {
        lemma_tiles_ordered(segments, to, i, j);
    } else if j < i {
        lemma_tiles_ordered(segments, to, j, i);
    }
}

/// A tiling stays one when a segment that starts at its end is added.
pub proof fn lemma_tiles_push(segments: Seq<Segment>, to: int, segment: Segment)
    requires
        tiles(segments, to),
        segment.start == to,
        segment.start <= segment.end,
    ensures
        tiles(segments.push(segment), segment.end),
{
    let longer = segments.push(segment);
    assert forall|k: int| 0 <= k < longer.len() implies #[trigger] joined(longer, k) by {
        if k < segments.len() {
            assert(joined(segments, k));
        }
    }
}

/// An action keeps the committed segments a tiling up to the last commit.
proof fn lemma_action_keeps_tiling(action: Action, t: Trace, n: int)
    requires
        tiles(t.out, t.cursor.committed),
        apply_action(action, t, n) is Some,
    ensures
        tiles(apply_action(action, t, n)->0.out, apply_action(action, t, n)->0.cursor.committed),
{
    let after = apply_action(action, t, n)->0;
    if after.out.len() != t.out.len() {
        lemma_tiles_push(t.out, t.cursor.committed, after.out.last());
    }
}

/// A list of actions keeps the committed segments a tiling up to the last
/// commit.
proof fn lemma_actions_keep_tiling(actions: Seq<Action>, from: int, t: Trace, n: int)
    requires
        tiles(t.out, t.cursor.committed),
        apply_actions(actions, from, t, n) is Some,
    ensures
        tiles(
            apply_actions(actions, from, t, n)->0.out,
            apply_actions(actions, from, t, n)->0.cursor.committed,
        ),
    decreases actions.len() - from,
{
    if 0 <= from < actions.len() {
        lemma_action_keeps_tiling(actions[from], t, n);
        lemma_actions_keep_tiling(actions, from + 1, apply_action(actions[from], t, n)->0, n);
    }
}

/// A step keeps the committed segments a tiling up to the last commit, and
/// a scan that finishes has tiled the whole input.
proof fn lemma_step_keeps_tiling<R: Rules>(rules: &R, categories: Seq<u8>, t: Trace)
    requires
        tiles(t.out, t.cursor.committed),
    ensures
        match step(rules, categories, t) {
            Outcome::Continue(next) => tiles(next.out, next.cursor.committed),
            Outcome::Finished(out) => tiles(out, categories.len() as int),
            Outcome::Violation => true,
        },
{
    let n = categories.len() as int;
    let c = t.cursor;
    let rule = if c.pos == n {
        rules.end_rule(c.state)
    } else {
        Some(rules.rule(c.state, categories[c.pos]))
    };
    if let Some(rule) = rule {
        let seg_start = if rules.anchors(c.state) {
            c.pos
        } else {
            c.seg_start
        };
        let entered = Trace {
            cursor: CursorModel { state: rule.target, seg_start, ..c },
            ..t
        };
        if apply_actions(rule.actions, 0, entered, n) is Some {
            lemma_actions_keep_tiling(rule.actions, 0, entered, n);
        }
    }
}

/// The scan that goes on from a tiling ends with a tiling of the input.
proof fn lemma_run_tiles<R: Rules>(rules: &R, categories: Seq<u8>, t: Trace)
    requires
        tiles(t.out, t.cursor.committed),
    ensures
        run(rules, categories, t) matches Some(out) ==> tiles(out, categories.len() as int),
    decreases categories.len() - t.cursor.committed, categories.len() - t.cursor.pos,
{
    lemma_step_keeps_tiling(rules, categories, t);
    if let Outcome::Continue(next) = step(rules, categories, t) {
        if progresses(t.cursor, next.cursor, categories.len() as int) {
            lemma_run_tiles(rules, categories, next);
        }
    }
}

/// Coverage: the segments of a scan that completes cover the input exactly.
/// They follow one another from unit `0` to the last unit, so every unit
/// lies in one segment and in no other.
pub proof fn lemma_scan_tiles<R: Rules>(rules: &R, categories: Seq<u8>)
    ensures
        scan_result(rules, categories) matches Some(segments) ==> {
            &&& tiles(segments, categories.len() as int)
            &&& forall|p: int| 0 <= p < categories.len() ==> #[trigger] covered(segments, p)
            &&& forall|i: int, j: int, p: int|
                0 <= i < segments.len() && 0 <= j < segments.len() && #[trigger] holds(
                    segments[i],
                    p,
                ) && #[trigger] holds(segments[j], p) ==> i == j
        },
{
    let first = Trace { cursor: initial_cursor(rules.start()), out: Seq::empty() };
    lemma_run_tiles(rules, categories, first);
    if let Some(segments) = scan_result(rules, categories) {
        let n = categories.len() as int;
        assert forall|p: int| 0 <= p < n implies #[trigger] covered(segments, p) by {
            let i = lemma_tiles_cover(segments, n, p);
        }
        assert forall|i: int, j: int, p: int|
            0 <= i < segments.len() && 0 <= j < segments.len() && #[trigger] holds(
                segments[i],
                p,
            ) && #[trigger] holds(segments[j], p) implies i == j by {
            lemma_tiles_disjoint(segments, n, i, j, p);
        }
    }
}

} // verus!
