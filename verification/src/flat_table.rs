//! A transition table that folds raw categories into a compact class
//! alphabet and keeps, for each state, one dense window of classes with a
//! transition for each class in it, and a default transition for the rest.
use vstd::prelude::*;
use crate::automaton::{Action, Automaton, Rule, Rules, Transition};
use crate::coverage::{lemma_scan_tiles, tiles};
use crate::engine::scan_result;
use crate::flow::{kinds_below, lemma_scan_sound};
use crate::graph::{Graph, GraphModel};
use crate::machine::{Checkable, Sound};
use crate::reach::rows_of;

verus! {

/// The table, laid out in flat arrays.
///
/// A category `c < classes.len()` belongs to class `classes[c]`; a larger
/// one belongs to no class. State `s` has the window of classes from
/// `windows[s].0` to `windows[s].1`; the transition for the class at
/// distance `d` from the low end of the window is
/// `indices[index_offsets[s] + d]`. Every other class, and every category
/// without a class, takes `defaults[s]`.
#[derive(Debug)]
pub struct FlatTable {
    /// The states and the transitions.
    pub graph: Graph,
    /// For each category below the ceiling, its class.
    pub classes: Vec<u8>,
    /// For each state, the lowest and the highest class of its window.
    pub windows: Vec<(u8, u8)>,
    /// For each state, the index in `indices` of the first class of its
    /// window.
    pub index_offsets: Vec<u16>,
    /// The transition indices of all windows.
    pub indices: Vec<u16>,
    /// For each state, the index of its default transition.
    pub defaults: Vec<u16>,
}

/// What a `FlatTable` holds, as the contracts see it.
pub struct FlatRules {
    pub graph: GraphModel,
    pub classes: Seq<u8>,
    pub windows: Seq<(u8, u8)>,
    pub index_offsets: Seq<u16>,
    pub indices: Seq<u16>,
    pub defaults: Seq<u16>,
}

impl View for FlatTable {
    type V = FlatRules;

    open spec fn view(&self) -> FlatRules {
        FlatRules {
            graph: self.graph@,
            classes: self.classes@,
            windows: self.windows@,
            index_offsets: self.index_offsets@,
            indices: self.indices@,
            defaults: self.defaults@,
        }
    }
}

impl FlatRules {
    /// The number of states.
    pub open spec fn rows(&self) -> int {
        self.graph.rows()
    }

    /// The per-state arrays have one entry for each state.
    pub open spec fn aligned(&self) -> bool {
        &&& self.windows.len() == self.rows()
        &&& self.index_offsets.len() == self.rows()
        &&& self.defaults.len() == self.rows()
    }

    /// The lowest class of the window of state `s`.
    pub open spec fn low(&self, s: int) -> u8 {
        self.windows[s].0
    }

    /// The highest class of the window of state `s`.
    pub open spec fn high(&self, s: int) -> u8 {
        self.windows[s].1
    }

    /// The number of classes in the window of state `s`.
    pub open spec fn width(&self, s: int) -> int {
        if self.low(s) <= self.high(s) {
            self.high(s) - self.low(s) + 1
        } else {
            0
        }
    }

    /// The index of the transition for the class at distance `d` from the
    /// low end of the window of state `s`.
    pub open spec fn entry(&self, s: int, d: int) -> int {
        self.indices[self.index_offsets[s] + d] as int
    }

    /// State `s` stays inside the table: its window lies inside `indices`,
    /// and its default transition exists.
    pub open spec fn row_ok(&self, s: int) -> bool {
        &&& self.index_offsets[s] + self.width(s) <= self.indices.len()
        &&& self.defaults[s] < self.graph.targets.len()
    }

    /// Entry `i` of `indices` names a transition.
    pub open spec fn index_ok(&self, i: int) -> bool {
        self.indices[i] < self.graph.targets.len()
    }

    /// The shape a table must have for lookups to stay inside it.
    pub open spec fn shape_ok(&self) -> bool {
        &&& self.graph.shape_ok()
        &&& self.aligned()
        &&& forall|s: int| 0 <= s < self.rows() ==> #[trigger] self.row_ok(s)
        &&& forall|i: int| 0 <= i < self.indices.len() ==> #[trigger] self.index_ok(i)
    }

    /// Whether state `s` has a transition of its own for `category`: the
    /// category has a class, and the class lies in the window of the state.
    pub open spec fn in_window(&self, s: int, category: u8) -> bool {
        &&& category < self.classes.len()
        &&& self.low(s) <= self.classes[category as int] <= self.high(s)
    }

    /// The index of the transition that state `s` takes on `category`.
    pub open spec fn selected(&self, s: int, category: u8) -> int {
        if self.in_window(s, category) {
            self.entry(s, self.classes[category as int] - self.low(s))
        } else {
            self.defaults[s] as int
        }
    }

    /// The indices of the transitions of state `s`: the default, and one
    /// for each class of its window.
    pub open spec fn row(&self, s: int) -> Seq<usize> {
        Seq::new(
            (self.width(s) + 1) as nat,
            |i: int|
                if i == 0 {
                    self.defaults[s] as usize
                } else {
                    self.entry(s, i - 1) as usize
                },
        )
    }

    /// For each state, the indices of its transitions.
    pub open spec fn row_lists(&self) -> Seq<Seq<usize>> {
        Seq::new(self.rows() as nat, |s: int| self.row(s))
    }

    /// The table passes the flow check for a machine with `kinds` cluster
    /// kinds.
    pub open spec fn flow_sound(&self, kinds: u8) -> bool {
        self.graph.flow_sound(self.row_lists(), kinds)
    }

    /// The rows of a table name transitions of its graph.
    pub proof fn lemma_rows_ok(&self)
        requires
            self.shape_ok(),
        ensures
            self.graph.rows_ok(self.row_lists()),
    {
        let rows = self.row_lists();
        assert forall|s: int, i: int|
            0 <= s < rows.len() && 0 <= i < rows[s].len() implies #[trigger] rows[s][i]
            < self.graph.targets.len() by {
            assert(self.row_ok(s));
            if i > 0 {
                assert(self.index_ok(self.index_offsets[s] + i - 1));
            }
        }
    }

    /// A table that passes the flow check never fails: on every input the
    /// scan completes, its clusters cover the input, and they are of known
    /// kinds.
    pub proof fn lemma_never_fails(&self, kinds: u8, categories: Seq<u8>)
        requires
            self.shape_ok(),
            self.flow_sound(kinds),
        ensures
            scan_result(self, categories) matches Some(segments)
                && kinds_below(segments, kinds) && tiles(
                segments,
                categories.len() as int,
            ),
    {
        let rows = self.row_lists();
        self.lemma_rows_ok();
        assert forall|s: nat, category: u8| s < self.graph.rows() implies #[trigger] self.graph.serves(
            self,
            rows,
            s,
            category,
        ) by {
            let r = s as int;
            assert(self.row_ok(r));
            if self.in_window(r, category) {
                let d = self.classes[category as int] - self.low(r);
                assert(self.index_ok(self.index_offsets[r] + d));
                assert(rows[r][d + 1] == self.selected(r, category));
            } else {
                assert(rows[r][0] == self.selected(r, category));
            }
        }
        self.graph.lemma_flow_ok(self, rows, kinds);
        lemma_scan_sound(self, self.graph.labels(rows), kinds, categories);
        lemma_scan_tiles(self, categories);
    }
}

impl Rules for FlatRules {
    open spec fn wf(&self) -> bool {
        self.shape_ok()
    }

    open spec fn state_count(&self) -> nat {
        self.rows() as nat
    }

    open spec fn start(&self) -> nat {
        self.graph.start as nat
    }

    open spec fn first_final(&self) -> nat {
        self.graph.first_final as nat
    }

    open spec fn anchors(&self, state: nat) -> bool {
        self.graph.anchor[state as int]
    }

    open spec fn rule(&self, state: nat, category: u8) -> Rule {
        self.graph.rule_at(self.selected(state as int, category))
    }

    open spec fn end_rule(&self, state: nat) -> Option<Rule> {
        self.graph.end_rule(state as int)
    }

    open spec fn programs(&self) -> Seq<Seq<Action>> {
        self.graph.programs
    }
}

impl Sound for FlatRules {
    open spec fn sound(&self, kinds: u8) -> bool {
        self.flow_sound(kinds)
    }

    proof fn lemma_sound(&self, kinds: u8, categories: Seq<u8>) {
        self.lemma_never_fails(kinds, categories);
    }
}

impl FlatTable {
    /// Whether the per-state arrays line up.
    fn is_aligned(&self) -> (ok: bool)
        ensures
            ok == self@.aligned(),
    {
        let n: usize = self.graph.anchor.len();
        self.windows.len() == n && self.index_offsets.len() == n && self.defaults.len() == n
    }

    /// The number of classes in the window of state `s`.
    fn width_of(&self, s: usize) -> (width: usize)
        requires
            self@.aligned(),
            s < self@.rows(),
        ensures
            width == self@.width(s as int),
    {
        let (low, high) = self.windows[s];
        if low <= high {
            (high - low) as usize + 1
        } else {
            0
        }
    }

    /// Whether state `s` stays inside the table.
    fn row_is_sound(&self, s: usize) -> (ok: bool)
        requires
            self@.aligned(),
            s < self@.rows(),
        ensures
            ok == self@.row_ok(s as int),
    {
        self.index_offsets[s] as usize + self.width_of(s) <= self.indices.len() && (
        self.defaults[s] as usize) < self.graph.targets.len()
    }

    /// Checks the shape of the table, so that a table that would lead a scan
    /// outside its arrays is refused before any scan.
    pub fn check(&self) -> (ok: bool)
        ensures
            ok == self@.shape_ok(),
    {
        if !self.graph.check() || !self.is_aligned() {
            return false;
        }
        let n: usize = self.graph.anchor.len();
        let mut s: usize = 0;
        while s < n
            invariant
                self@.aligned(),
                n == self@.rows(),
                s <= n,
                forall|i: int| 0 <= i < s ==> #[trigger] self@.row_ok(i),
            decreases n - s,
        {
            if !self.row_is_sound(s) {
                return false;
            }
            s += 1;
        }
        let count: usize = self.graph.targets.len();
        let mut i: usize = 0;
        while i < self.indices.len()
            invariant
                count == self@.graph.targets.len(),
                i <= self@.indices.len(),
                forall|k: int| 0 <= k < i ==> #[trigger] self@.index_ok(k),
            decreases self@.indices.len() - i,
        {
            if self.indices[i] as usize >= count {
                assert(!self@.index_ok(i as int));
                return false;
            }
            i += 1;
        }
        true
    }

    /// For each state, the indices of its transitions.
    pub fn rows(&self) -> (rows: Vec<Vec<usize>>)
        requires
            self@.shape_ok(),
        ensures
            rows_of(rows@) == self@.row_lists(),
    {
        let n: usize = self.graph.anchor.len();
        let mut rows: Vec<Vec<usize>> = Vec::with_capacity(n);
        let mut s: usize = 0;
        while s < n
            invariant
                self@.shape_ok(),
                n == self@.rows(),
                s <= n,
                rows@.len() == s,
                forall|r: int| 0 <= r < s ==> (#[trigger] rows@[r])@ == self@.row(r),
            decreases n - s,
        {
            proof {
                assert(self@.row_ok(s as int));
            }
            let first: usize = self.index_offsets[s] as usize;
            let width: usize = self.width_of(s);
            let mut row: Vec<usize> = Vec::with_capacity(width + 1);
            row.push(self.defaults[s] as usize);
            assert(row@ =~= self@.row(s as int).subrange(0, 1));
            let mut d: usize = 0;
            while d < width
                invariant
                    s < self@.rows(),
                    first == self@.index_offsets[s as int],
                    width == self@.width(s as int),
                    first + width <= self@.indices.len(),
                    d <= width,
                    row@ == self@.row(s as int).subrange(0, d + 1),
                decreases width - d,
            {
                row.push(self.indices[first + d] as usize);
                assert(row@ =~= self@.row(s as int).subrange(0, d + 2));
                d += 1;
            }
            assert(row@ =~= self@.row(s as int));
            rows.push(row);
            s += 1;
        }
        assert(rows_of(rows@) =~= self@.row_lists());
        rows
    }

    /// Checks the flow of the table for a machine with `kinds` cluster
    /// kinds, so that a table on which some scan would break a rule is
    /// refused before any scan.
    pub fn check_flow(&self, kinds: u8) -> (ok: bool)
        requires
            self@.shape_ok(),
        ensures
            ok == self@.flow_sound(kinds),
    {
        proof {
            self@.lemma_rows_ok();
        }
        self.graph.check_flow(&self.rows(), kinds)
    }

    /// The index of the transition that state `s` takes on `category`.
    pub fn select(&self, s: usize, category: u8) -> (t: usize)
        requires
            self@.shape_ok(),
            s < self@.rows(),
        ensures
            t == self@.selected(s as int, category),
            t < self@.graph.targets.len(),
    {
        proof {
            assert(self@.row_ok(s as int));
        }
        if (category as usize) < self.classes.len() {
            let class: u8 = self.classes[category as usize];
            let (low, high) = self.windows[s];
            if low <= class && class <= high {
                let i: usize = self.index_offsets[s] as usize + (class - low) as usize;
                proof {
                    assert(self@.index_ok(i as int));
                }
                return self.indices[i] as usize;
            }
        }
        self.defaults[s] as usize
    }
}

impl Automaton for FlatTable {
    fn start_state(&self) -> (s: usize) {
        self.graph.start
    }

    fn is_final(&self, state: usize) -> (b: bool) {
        state >= self.graph.first_final
    }

    fn is_anchor(&self, state: usize) -> (b: bool) {
        self.graph.anchor[state]
    }

    fn transition(&self, state: usize, category: u8) -> (t: Transition) {
        self.graph.transition_at(self.select(state, category))
    }

    fn end_transition(&self, state: usize) -> (t: Option<Transition>) {
        self.graph.end_transition(state)
    }

    fn program(&self, index: usize) -> (actions: &Vec<Action>) {
        &self.graph.programs[index]
    }
}

impl Checkable for FlatTable {
    fn is_well_formed(&self) -> (ok: bool) {
        self.check()
    }

    fn is_sound(&self, kinds: u8) -> (ok: bool) {
        self.check_flow(kinds)
    }
}

} // verus!
