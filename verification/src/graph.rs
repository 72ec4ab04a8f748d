//! The states and transitions of a table, apart from the way a state finds
//! the transition for a category, and the check of their flow.
use vstd::prelude::*;
use crate::automaton::{Action, Rule, Rules, Transition};
use crate::flow::{
    anchor_clear, classify, edge_ok, end_allowed, end_ok, flow_ok, may_end, may_step, shape_of,
    step_allowed, Labels, Marks, Shape,
};
use crate::reach::{reach, rows_of, Net};

verus! {

/// The states of a table, with their hooks and their transitions at the end
/// of the input, and its transitions, with their targets and action lists.
#[derive(Debug)]
pub struct Graph {
    /// The state a scan starts in.
    pub start: usize,
    /// States from this one on are accepting.
    pub first_final: usize,
    /// For each state, whether its entry hook resets the segment start.
    pub anchor: Vec<bool>,
    /// For each state, `0` where it has no transition at the end of the
    /// input, else the index of that transition plus one.
    pub end_transitions: Vec<u16>,
    /// For each transition, the state it leads to.
    pub targets: Vec<u16>,
    /// For each transition, the index of its action list in `programs`.
    pub actions: Vec<u16>,
    /// The action lists.
    pub programs: Vec<Vec<Action>>,
}

/// What a `Graph` holds, as the contracts see it.
pub struct GraphModel {
    pub start: usize,
    pub first_final: usize,
    pub anchor: Seq<bool>,
    pub end_transitions: Seq<u16>,
    pub targets: Seq<u16>,
    pub actions: Seq<u16>,
    pub programs: Seq<Seq<Action>>,
}

impl View for Graph {
    type V = GraphModel;

    open spec fn view(&self) -> GraphModel {
        GraphModel {
            start: self.start,
            first_final: self.first_final,
            anchor: self.anchor@,
            end_transitions: self.end_transitions@,
            targets: self.targets@,
            actions: self.actions@,
            programs: Seq::new(self.programs@.len(), |p: int| self.programs@[p]@),
        }
    }
}

/// The shapes of a list of action lists.
pub open spec fn shapes_of(programs: Seq<Seq<Action>>) -> Seq<Option<Shape>> {
    Seq::new(programs.len(), |p: int| shape_of(programs[p]))
}

impl GraphModel {
    /// The number of states.
    pub open spec fn rows(&self) -> int {
        self.anchor.len() as int
    }

    /// The per-state arrays have one entry for each state, and the
    /// per-transition arrays one for each transition.
    pub open spec fn aligned(&self) -> bool {
        &&& self.end_transitions.len() == self.rows()
        &&& self.actions.len() == self.targets.len()
    }

    /// Transition `t` leads to a state of the table and names one of its
    /// action lists.
    pub open spec fn transition_ok(&self, t: int) -> bool {
        &&& self.targets[t] < self.rows()
        &&& self.actions[t] < self.programs.len()
    }

    /// The transition of state `s` at the end of the input, where it has
    /// one, exists.
    pub open spec fn end_exists(&self, s: int) -> bool {
        self.end_transitions[s] <= self.targets.len()
    }

    /// The shape a graph must have for lookups to stay inside it.
    pub open spec fn shape_ok(&self) -> bool {
        &&& self.aligned()
        &&& self.start < self.rows()
        &&& forall|s: int| 0 <= s < self.rows() ==> #[trigger] self.end_exists(s)
        &&& forall|t: int| 0 <= t < self.targets.len() ==> #[trigger] self.transition_ok(t)
    }

    /// The transition with index `t`.
    pub open spec fn rule_at(&self, t: int) -> Rule {
        Rule { target: self.targets[t] as nat, actions: self.programs[self.actions[t] as int] }
    }

    /// The transition of state `s` at the end of the input, if it has one.
    pub open spec fn end_rule(&self, s: int) -> Option<Rule> {
        if self.end_transitions[s] == 0 {
            None
        } else {
            Some(self.rule_at(self.end_transitions[s] - 1))
        }
    }

    /// `rows` names, for each state, transitions of the graph.
    pub open spec fn rows_ok(&self, rows: Seq<Seq<usize>>) -> bool {
        &&& rows.len() == self.rows()
        &&& forall|s: int, i: int|
            0 <= s < rows.len() && 0 <= i < rows[s].len() ==> #[trigger] rows[s][i]
                < self.targets.len()
    }

    /// Whether transition `t` hands on to its target that no segment end
    /// has been marked or, where `kind` is set, that no cluster kind has
    /// been remembered: it neither commits nor sets what is missing.
    pub open spec fn passes(&self, t: int, kind: bool) -> bool {
        match shape_of(self.rule_at(t).actions) {
            Some(Shape::Shift) => true,
            Some(Shape::Mark) => kind,
            _ => false,
        }
    }

    /// The net of the transitions that hand on what is missing, with the
    /// states that reset the segment start as roots. The states it reaches
    /// are those in which a scan may be without a marked segment end or,
    /// where `kind` is set, without a remembered cluster kind.
    pub open spec fn net(&self, rows: Seq<Seq<usize>>, kind: bool) -> Net {
        Net {
            roots: self.anchor,
            rows,
            open: Seq::new(self.targets.len(), |t: int| self.passes(t, kind)),
            targets: self.targets,
        }
    }

    /// The marks of state `s`: it is marked where no scan can be in it
    /// without a marked segment end, and deferring where no scan can be in
    /// it without a remembered cluster kind.
    pub open spec fn marks(&self, rows: Seq<Seq<usize>>, s: int) -> Marks {
        Marks {
            anchor: self.anchor[s],
            marked: !self.net(rows, false).reached(s),
            deferring: !self.net(rows, true).reached(s),
        }
    }

    /// The marks of the states.
    pub open spec fn labels(&self, rows: Seq<Seq<usize>>) -> Labels {
        Labels {
            marked: Seq::new(self.anchor.len(), |s: int| self.marks(rows, s).marked),
            deferring: Seq::new(self.anchor.len(), |s: int| self.marks(rows, s).deferring),
        }
    }

    /// Transition `t`, taken from state `s` on a unit, keeps to the marks.
    pub open spec fn edge_flows(&self, rows: Seq<Seq<usize>>, s: int, t: int, kinds: u8) -> bool {
        &&& shape_of(self.rule_at(t).actions) matches Some(shape)
        &&& step_allowed(
            shape,
            self.marks(rows, s),
            self.marks(rows, self.targets[t] as int),
            kinds,
        )
    }

    /// Transition `i` of state `s` keeps to the marks.
    pub open spec fn entry_flows(&self, rows: Seq<Seq<usize>>, s: int, i: int, kinds: u8) -> bool {
        self.edge_flows(rows, s, rows[s][i] as int, kinds)
    }

    /// The transition of state `s` at the end of the input keeps to the
    /// marks; where there is none, the state is one in which a scan may
    /// stop.
    pub open spec fn end_flows(&self, rows: Seq<Seq<usize>>, s: int, kinds: u8) -> bool {
        if self.end_transitions[s] == 0 {
            self.anchor[s] && s >= self.first_final
        } else {
            let t = self.end_transitions[s] - 1;
            &&& shape_of(self.rule_at(t).actions) matches Some(shape)
            &&& end_allowed(
                shape,
                self.marks(rows, s),
                self.marks(rows, self.targets[t] as int),
                self.targets[t] >= self.first_final,
                kinds,
            )
        }
    }

    /// Every transition of state `s` keeps to the marks.
    pub open spec fn state_flows(&self, rows: Seq<Seq<usize>>, s: int, kinds: u8) -> bool {
        &&& self.end_flows(rows, s, kinds)
        &&& forall|i: int| 0 <= i < rows[s].len() ==> #[trigger] self.entry_flows(rows, s, i, kinds)
    }

    /// The graph passes the flow check for a machine with `kinds` cluster
    /// kinds: a scan starts in a state that resets the segment start, and
    /// every transition keeps to the marks.
    pub open spec fn flow_sound(&self, rows: Seq<Seq<usize>>, kinds: u8) -> bool {
        &&& self.anchor[self.start as int]
        &&& forall|s: int| 0 <= s < self.rows() ==> #[trigger] self.state_flows(rows, s, kinds)
    }

    /// The transition that `rules` gives state `s` on `category` is one of
    /// the row of `s`.
    pub open spec fn serves<R: Rules>(
        &self,
        rules: &R,
        rows: Seq<Seq<usize>>,
        s: nat,
        category: u8,
    ) -> bool {
        exists|i: int|
            0 <= i < rows[s as int].len() && rules.rule(s, category) == self.rule_at(
                #[trigger] rows[s as int][i] as int,
            )
    }

    /// Rules that take their transitions from this graph, each state from
    /// its row, keep to the marks where the graph passes the flow check.
    pub proof fn lemma_flow_ok<R: Rules>(&self, rules: &R, rows: Seq<Seq<usize>>, kinds: u8)
        requires
            self.shape_ok(),
            self.rows_ok(rows),
            self.flow_sound(rows, kinds),
            rules.state_count() == self.rows(),
            rules.start() == self.start,
            rules.first_final() == self.first_final,
            forall|s: nat| s < self.rows() ==> #[trigger] rules.anchors(s) == self.anchor[s as int],
            forall|s: nat|
                s < self.rows() ==> #[trigger] rules.end_rule(s) == self.end_rule(s as int),
            forall|s: nat, category: u8|
                s < self.rows() ==> #[trigger] self.serves(rules, rows, s, category),
        ensures
            flow_ok(rules, self.labels(rows), kinds),
    {
        let labels = self.labels(rows);
        assert forall|state: nat| state < rules.state_count() implies #[trigger] anchor_clear(
            rules,
            labels,
            state,
        ) by {
            if self.anchor[state as int] {
                assert(self.net(rows, false).reached_within(state as int, 0));
                assert(self.net(rows, true).reached_within(state as int, 0));
            }
        }
        assert forall|state: nat, category: u8| state < rules.state_count() implies #[trigger] edge_ok(
            rules,
            labels,
            kinds,
            state,
            category,
        ) by {
            let s = state as int;
            assert(self.serves(rules, rows, state, category));
            let i = choose|i: int|
                0 <= i < rows[s].len() && rules.rule(state, category) == self.rule_at(
                    #[trigger] rows[s][i] as int,
                );
            assert(self.state_flows(rows, s, kinds));
            assert(self.entry_flows(rows, s, i, kinds));
            assert(self.transition_ok(rows[s][i] as int));
        }
        assert forall|state: nat| state < rules.state_count() implies #[trigger] end_ok(
            rules,
            labels,
            kinds,
            state,
        ) by {
            assert(self.state_flows(rows, state as int, kinds));
            assert(self.end_exists(state as int));
            assert(rules.end_rule(state) == self.end_rule(state as int));
            if self.end_transitions[state as int] != 0 {
                let t = self.end_transitions[state as int] - 1;
                assert(self.transition_ok(t));
                let target = self.targets[t];
                assert(rules.anchors(target as nat) == self.anchor[target as int]);
            }
        }
    }
}

impl Graph {
    /// Checks the shape of the graph.
    pub fn check(&self) -> (ok: bool)
        ensures
            ok == self@.shape_ok(),
    {
        let n: usize = self.anchor.len();
        let count: usize = self.targets.len();
        if self.end_transitions.len() != n || self.actions.len() != count || self.start >= n {
            return false;
        }
        let mut s: usize = 0;
        while s < n
            invariant
                self@.aligned(),
                n == self@.rows(),
                count == self@.targets.len(),
                s <= n,
                forall|i: int| 0 <= i < s ==> #[trigger] self@.end_exists(i),
            decreases n - s,
        {
            if self.end_transitions[s] as usize > count {
                assert(!self@.end_exists(s as int));
                return false;
            }
            s += 1;
        }
        let mut t: usize = 0;
        while t < count
            invariant
                self@.aligned(),
                n == self@.rows(),
                count == self@.targets.len(),
                t <= count,
                forall|i: int| 0 <= i < n ==> #[trigger] self@.end_exists(i),
                forall|i: int| 0 <= i < t ==> #[trigger] self@.transition_ok(i),
            decreases count - t,
        {
            if self.targets[t] as usize >= n || self.actions[t] as usize >= self.programs.len() {
                assert(!self@.transition_ok(t as int));
                return false;
            }
            t += 1;
        }
        true
    }

    /// The transition with index `t`.
    pub fn transition_at(&self, t: usize) -> (transition: Transition)
        requires
            self@.shape_ok(),
            t < self@.targets.len(),
        ensures
            transition.target == self@.rule_at(t as int).target,
            transition.target < self@.rows(),
            transition.program < self@.programs.len(),
            self@.programs[transition.program as int] == self@.rule_at(t as int).actions,
    {
        proof {
            assert(self@.transition_ok(t as int));
        }
        Transition { target: self.targets[t] as usize, program: self.actions[t] as usize }
    }

    /// The transition of state `s` at the end of the input, if it has one.
    pub fn end_transition(&self, s: usize) -> (transition: Option<Transition>)
        requires
            self@.shape_ok(),
            s < self@.rows(),
        ensures
            match transition {
                Some(t) => {
                    &&& self@.end_rule(s as int) matches Some(rule)
                    &&& t.target == rule.target
                    &&& t.target < self@.rows()
                    &&& t.program < self@.programs.len()
                    &&& self@.programs[t.program as int] == rule.actions
                },
                None => self@.end_rule(s as int) is None,
            },
    {
        proof {
            assert(self@.end_exists(s as int));
        }
        let end: usize = self.end_transitions[s] as usize;
        if end == 0 {
            None
        } else {
            Some(self.transition_at(end - 1))
        }
    }

    /// The shapes of the action lists.
    pub fn shapes(&self) -> (shapes: Vec<Option<Shape>>)
        ensures
            shapes@ == shapes_of(self@.programs),
    {
        let mut shapes: Vec<Option<Shape>> = Vec::with_capacity(self.programs.len());
        let mut p: usize = 0;
        while p < self.programs.len()
            invariant
                p <= self.programs@.len(),
                shapes@ == shapes_of(self@.programs).subrange(0, p as int),
            decreases self.programs@.len() - p,
        {
            shapes.push(classify(&self.programs[p]));
            assert(shapes@ =~= shapes_of(self@.programs).subrange(0, p + 1));
            p += 1;
        }
        assert(shapes@ =~= shapes_of(self@.programs));
        shapes
    }

    /// For each transition, whether it hands on what is missing.
    fn passing(&self, shapes: &Vec<Option<Shape>>, kind: bool) -> (open: Vec<bool>)
        requires
            self@.shape_ok(),
            shapes@ == shapes_of(self@.programs),
        ensures
            open@ == Seq::new(self@.targets.len(), |t: int| self@.passes(t, kind)),
    {
        let ghost all = Seq::new(self@.targets.len(), |t: int| self@.passes(t, kind));
        let mut open: Vec<bool> = Vec::with_capacity(self.targets.len());
        let mut t: usize = 0;
        while t < self.targets.len()
            invariant
                self@.shape_ok(),
                shapes@ == shapes_of(self@.programs),
                all == Seq::new(self@.targets.len(), |t: int| self@.passes(t, kind)),
                t <= self@.targets.len(),
                open@ == all.subrange(0, t as int),
            decreases self@.targets.len() - t,
        {
            proof {
                assert(self@.transition_ok(t as int));
            }
            let passes = match shapes[self.actions[t] as usize] {
                Some(Shape::Shift) => true,
                Some(Shape::Mark) => kind,
                _ => false,
            };
            open.push(passes);
            assert(open@ =~= all.subrange(0, t + 1));
            t += 1;
        }
        assert(open@ =~= all);
        open
    }

    /// Whether every transition of state `s` keeps to the marks, given the
    /// states that a scan may be in without a marked segment end and those
    /// that it may be in without a remembered kind.
    fn state_is_sound(
        &self,
        rows: &Vec<Vec<usize>>,
        shapes: &Vec<Option<Shape>>,
        unmarked: &Vec<bool>,
        forgetful: &Vec<bool>,
        s: usize,
        kinds: u8,
    ) -> (ok: bool)
        requires
            self@.shape_ok(),
            self@.rows_ok(rows_of(rows@)),
            shapes@ == shapes_of(self@.programs),
            unmarked@.len() == self@.rows(),
            forgetful@.len() == self@.rows(),
            forall|r: int|
                0 <= r < self@.rows() ==> unmarked@[r] == self@.net(rows_of(rows@), false).reached(
                    r,
                ),
            forall|r: int|
                0 <= r < self@.rows() ==> forgetful@[r] == self@.net(rows_of(rows@), true).reached(
                    r,
                ),
            s < self@.rows(),
        ensures
            ok == self@.state_flows(rows_of(rows@), s as int, kinds),
    {
        let ghost all = rows_of(rows@);
        proof {
            assert(self@.end_exists(s as int));
        }
        let from = Marks { anchor: self.anchor[s], marked: !unmarked[s], deferring: !forgetful[s] };
        let end: usize = self.end_transitions[s] as usize;
        if end == 0 {
            if !(from.anchor && s >= self.first_final) {
                return false;
            }
        } else {
            let t: usize = end - 1;
            proof {
                assert(self@.transition_ok(t as int));
            }
            let target: usize = self.targets[t] as usize;
            let to = Marks {
                anchor: self.anchor[target],
                marked: !unmarked[target],
                deferring: !forgetful[target],
            };
            let ok = match shapes[self.actions[t] as usize] {
                Some(shape) => may_end(shape, from, to, target >= self.first_final, kinds),
                None => false,
            };
            if !ok {
                return false;
            }
        }
        let row = &rows[s];
        assert(row@ == all[s as int]);
        let mut i: usize = 0;
        while i < row.len()
            invariant
                self@.shape_ok(),
                self@.rows_ok(all),
                all == rows_of(rows@),
                shapes@ == shapes_of(self@.programs),
                unmarked@.len() == self@.rows(),
                forgetful@.len() == self@.rows(),
                forall|r: int|
                    0 <= r < self@.rows() ==> unmarked@[r] == self@.net(all, false).reached(r),
                forall|r: int|
                    0 <= r < self@.rows() ==> forgetful@[r] == self@.net(all, true).reached(r),
                s < self@.rows(),
                row@ == all[s as int],
                from == self@.marks(all, s as int),
                self@.end_flows(all, s as int, kinds),
                i <= row@.len(),
                forall|k: int| 0 <= k < i ==> #[trigger] self@.entry_flows(all, s as int, k, kinds),
            decreases row@.len() - i,
        {
            let t: usize = row[i];
            proof {
                assert(all[s as int][i as int] < self@.targets.len());
                assert(self@.transition_ok(t as int));
            }
            let target: usize = self.targets[t] as usize;
            let to = Marks {
                anchor: self.anchor[target],
                marked: !unmarked[target],
                deferring: !forgetful[target],
            };
            let ok = match shapes[self.actions[t] as usize] {
                Some(shape) => may_step(shape, from, to, kinds),
                None => false,
            };
            if !ok {
                assert(!self@.entry_flows(all, s as int, i as int, kinds));
                return false;
            }
            i += 1;
        }
        true
    }

    /// Checks the flow of the graph for a machine with `kinds` cluster
    /// kinds, where `rows` gives for each state the transitions it can take
    /// on a unit.
    pub fn check_flow(&self, rows: &Vec<Vec<usize>>, kinds: u8) -> (ok: bool)
        requires
            self@.shape_ok(),
            self@.rows_ok(rows_of(rows@)),
        ensures
            ok == self@.flow_sound(rows_of(rows@), kinds),
    {
        let ghost all = rows_of(rows@);
        if !self.anchor[self.start] {
            return false;
        }
        let shapes = self.shapes();
        let plain = self.passing(&shapes, false);
        let plain_or_marking = self.passing(&shapes, true);
        proof {
            assert forall|t: int| 0 <= t < self@.targets.len() implies #[trigger] self@.targets[t]
                < self@.anchor.len() by {
                assert(self@.transition_ok(t));
            }
        }
        let unmarked = reach(&self.anchor, rows, &plain, &self.targets);
        let forgetful = reach(&self.anchor, rows, &plain_or_marking, &self.targets);
        let n: usize = self.anchor.len();
        let mut s: usize = 0;
        while s < n
            invariant
                self@.shape_ok(),
                self@.rows_ok(all),
                all == rows_of(rows@),
                shapes@ == shapes_of(self@.programs),
                unmarked@.len() == self@.rows(),
                forgetful@.len() == self@.rows(),
                forall|r: int|
                    0 <= r < self@.rows() ==> unmarked@[r] == self@.net(all, false).reached(r),
                forall|r: int|
                    0 <= r < self@.rows() ==> forgetful@[r] == self@.net(all, true).reached(r),
                n == self@.rows(),
                s <= n,
                forall|r: int| 0 <= r < s ==> #[trigger] self@.state_flows(all, r, kinds),
            decreases n - s,
        {
            if !self.state_is_sound(rows, &shapes, &unmarked, &forgetful, s, kinds) {
                return false;
            }
            s += 1;
        }
        true
    }
}

} // verus!
