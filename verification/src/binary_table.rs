//! A transition table that keeps, for each state, a sorted list of single
//! keys, a sorted list of key ranges and a default transition, and finds the
//! transition for a category by bisection.
use vstd::prelude::*;
use crate::automaton::{Action, Automaton, Rule, Rules, Transition};
use crate::coverage::{lemma_scan_tiles, tiles};
use crate::engine::scan_result;
use crate::flow::{kinds_below, lemma_scan_sound};
use crate::graph::{Graph, GraphModel};
use crate::machine::{Checkable, Sound};
use crate::reach::rows_of;

verus! {

/// The table, laid out in flat arrays.
///
/// State `s` owns the keys `keys[key_offsets[s] ..]`: first
/// `single_lengths[s]` single keys, then `range_lengths[s]` pairs of a low
/// and a high key. It owns the transitions from `index_offsets[s]` on: one
/// for each single key, one for each range, and one default.
#[derive(Debug)]
pub struct BinaryTable {
    /// The states and the transitions.
    pub graph: Graph,
    /// For each state, the index of its first key.
    pub key_offsets: Vec<u16>,
    /// For each state, the number of its single keys.
    pub single_lengths: Vec<u16>,
    /// For each state, the number of its key ranges.
    pub range_lengths: Vec<u16>,
    /// For each state, the index of its first transition.
    pub index_offsets: Vec<u16>,
    /// The keys of all states.
    pub keys: Vec<u8>,
}

/// What a `BinaryTable` holds, as the contracts see it.
pub struct BinaryRules {
    pub graph: GraphModel,
    pub key_offsets: Seq<u16>,
    pub single_lengths: Seq<u16>,
    pub range_lengths: Seq<u16>,
    pub index_offsets: Seq<u16>,
    pub keys: Seq<u8>,
}

impl View for BinaryTable {
    type V = BinaryRules;

    open spec fn view(&self) -> BinaryRules {
        BinaryRules {
            graph: self.graph@,
            key_offsets: self.key_offsets@,
            single_lengths: self.single_lengths@,
            range_lengths: self.range_lengths@,
            index_offsets: self.index_offsets@,
            keys: self.keys@,
        }
    }
}

impl BinaryRules {
    /// The number of states.
    pub open spec fn rows(&self) -> int {
        self.graph.rows()
    }

    /// The per-state arrays have one entry for each state.
    pub open spec fn aligned(&self) -> bool {
        &&& self.key_offsets.len() == self.rows()
        &&& self.single_lengths.len() == self.rows()
        &&& self.range_lengths.len() == self.rows()
        &&& self.index_offsets.len() == self.rows()
    }

    /// The number of single keys of state `s`.
    pub open spec fn singles(&self, s: int) -> int {
        self.single_lengths[s] as int
    }

    /// The number of key ranges of state `s`.
    pub open spec fn ranges(&self, s: int) -> int {
        self.range_lengths[s] as int
    }

    /// Single key `k` of state `s`.
    pub open spec fn single_key(&self, s: int, k: int) -> u8 {
        self.keys[self.key_offsets[s] + k]
    }

    /// The low key of range `j` of state `s`.
    pub open spec fn range_low(&self, s: int, j: int) -> u8 {
        self.keys[self.key_offsets[s] + self.singles(s) + 2 * j]
    }

    /// The high key of range `j` of state `s`.
    pub open spec fn range_high(&self, s: int, j: int) -> u8 {
        self.keys[self.key_offsets[s] + self.singles(s) + 2 * j + 1]
    }

    /// Single key `k` of state `s` is larger than the one before it.
    pub open spec fn single_ascends(&self, s: int, k: int) -> bool {
        k > 0 ==> self.single_key(s, k - 1) < self.single_key(s, k)
    }

    /// Range `j` of state `s` is not empty and lies above the one before it.
    pub open spec fn range_ascends(&self, s: int, j: int) -> bool {
        &&& self.range_low(s, j) <= self.range_high(s, j)
        &&& j > 0 ==> self.range_high(s, j - 1) < self.range_low(s, j)
    }

    /// The index of the first transition of state `s`.
    pub open spec fn first(&self, s: int) -> int {
        self.index_offsets[s] as int
    }

    /// The index of the default transition of state `s`, the last of its
    /// transitions.
    pub open spec fn default_of(&self, s: int) -> int {
        self.first(s) + self.singles(s) + self.ranges(s)
    }

    /// State `s` stays inside the table: its keys and its transitions exist,
    /// the default among them, and its keys are sorted.
    pub open spec fn row_ok(&self, s: int) -> bool {
        &&& self.key_offsets[s] + self.singles(s) + 2 * self.ranges(s) <= self.keys.len()
        &&& self.default_of(s) < self.graph.targets.len()
        &&& forall|k: int| 0 <= k < self.singles(s) ==> #[trigger] self.single_ascends(s, k)
        &&& forall|j: int| 0 <= j < self.ranges(s) ==> #[trigger] self.range_ascends(s, j)
    }

    /// The shape a table must have for lookups to stay inside it.
    pub open spec fn shape_ok(&self) -> bool {
        &&& self.graph.shape_ok()
        &&& self.aligned()
        &&& forall|s: int| 0 <= s < self.rows() ==> #[trigger] self.row_ok(s)
    }

    /// Whether `category` is single key `k` of state `s`.
    pub open spec fn single_matches(&self, s: int, category: u8, k: int) -> bool {
        0 <= k < self.singles(s) && self.single_key(s, k) == category
    }

    /// Whether `category` lies in range `j` of state `s`.
    pub open spec fn range_matches(&self, s: int, category: u8, j: int) -> bool {
        0 <= j < self.ranges(s) && self.range_low(s, j) <= category <= self.range_high(s, j)
    }

    /// The index of the transition that state `s` takes on `category`: that
    /// of the single key equal to it; failing that, that of the range that
    /// holds it; failing that, the default.
    pub open spec fn selected(&self, s: int, category: u8) -> int {
        if exists|k: int| self.single_matches(s, category, k) {
            self.first(s) + choose|k: int| self.single_matches(s, category, k)
        } else if exists|j: int| self.range_matches(s, category, j) {
            self.first(s) + self.singles(s) + choose|j: int| self.range_matches(s, category, j)
        } else {
            self.default_of(s)
        }
    }

    /// The indices of the transitions of state `s`: one for each single
    /// key, one for each range, and the default.
    pub open spec fn row(&self, s: int) -> Seq<usize> {
        Seq::new(
            (self.singles(s) + self.ranges(s) + 1) as nat,
            |i: int| (self.first(s) + i) as usize,
        )
    }

    /// For each state, the indices of its transitions.
    pub open spec fn row_lists(&self) -> Seq<Seq<usize>> {
        Seq::new(self.rows() as nat, |s: int| self.row(s))
    }

    /// The table passes the flow check for a machine with `kinds` cluster
    /// kinds.
    pub open spec fn flow_sound(&self, kinds: u8) -> bool {
        self.graph.flow_sound(self.row_lists(), kinds)
    }

    /// Single keys of a state ascend strictly.
    pub proof fn lemma_singles_sorted(&self, s: int, a: int, b: int)
        requires
            self.shape_ok(),
            0 <= s < self.rows(),
            0 <= a < b < self.singles(s),
        ensures
            self.single_key(s, a) < self.single_key(s, b),
        decreases b - a,
    {
        assert(self.row_ok(s));
        assert(self.single_ascends(s, b));
        if a < b - 1 {
            self.lemma_singles_sorted(s, a, b - 1);
        }
    }

    /// Ranges of a state ascend strictly and do not overlap.
    pub proof fn lemma_ranges_sorted(&self, s: int, a: int, b: int)
        requires
            self.shape_ok(),
            0 <= s < self.rows(),
            0 <= a < b < self.ranges(s),
        ensures
            self.range_high(s, a) < self.range_low(s, b),
        decreases b - a,
    {
        assert(self.row_ok(s));
        assert(self.range_ascends(s, b));
        assert(self.range_ascends(s, b - 1));
        if a < b - 1 {
            self.lemma_ranges_sorted(s, a, b - 1);
        }
    }

    /// At most one single key of a state equals a category, and at most one
    /// range holds it.
    pub proof fn lemma_match_unique(&self, s: int, category: u8, a: int, b: int)
        requires
            self.shape_ok(),
            0 <= s < self.rows(),
        ensures
            self.single_matches(s, category, a) && self.single_matches(s, category, b) ==> a == b,
            self.range_matches(s, category, a) && self.range_matches(s, category, b) ==> a == b,
    {
        assert(self.row_ok(s));
        if self.single_matches(s, category, a) && self.single_matches(s, category, b) {
            if a < b {
                self.lemma_singles_sorted(s, a, b);
            } else if b < a {
                self.lemma_singles_sorted(s, b, a);
            }
        }
        if self.range_matches(s, category, a) && self.range_matches(s, category, b) {
            if a < b {
                self.lemma_ranges_sorted(s, a, b);
            } else if b < a {
                self.lemma_ranges_sorted(s, b, a);
            }
        }
    }

    /// The transition a state takes is one of its own.
    pub proof fn lemma_selected_in_row(&self, s: int, category: u8)
        requires
            self.shape_ok(),
            0 <= s < self.rows(),
        ensures
            self.first(s) <= self.selected(s, category) <= self.default_of(s),
            self.selected(s, category) < self.graph.targets.len(),
    {
        assert(self.row_ok(s));
    }

    /// The rows of a table name transitions of its graph.
    pub proof fn lemma_rows_ok(&self)
        requires
            self.shape_ok(),
        ensures
            self.graph.rows_ok(self.row_lists()),
    {
        let rows = self.row_lists();
        assert forall|s: int, i: int|
            0 <= s < rows.len() && 0 <= i < rows[s].len() implies #[trigger] rows[s][i]
            < self.graph.targets.len() by {
            assert(self.row_ok(s));
        }
    }

    /// A table that passes the flow check never fails: on every input the
    /// scan completes, its clusters cover the input, and they are of known
    /// kinds.
    pub proof fn lemma_never_fails(&self, kinds: u8, categories: Seq<u8>)
        requires
            self.shape_ok(),
            self.flow_sound(kinds),
        ensures
            scan_result(self, categories) matches Some(segments)
                && kinds_below(segments, kinds) && tiles(
                segments,
                categories.len() as int,
            ),
    {
        let rows = self.row_lists();
        self.lemma_rows_ok();
        assert forall|s: nat, category: u8| s < self.graph.rows() implies #[trigger] self.graph.serves(
            self,
            rows,
            s,
            category,
        ) by {
            self.lemma_selected_in_row(s as int, category);
            let i = self.selected(s as int, category) - self.first(s as int);
            assert(rows[s as int][i] == self.selected(s as int, category));
        }
        self.graph.lemma_flow_ok(self, rows, kinds);
        lemma_scan_sound(self, self.graph.labels(rows), kinds, categories);
        lemma_scan_tiles(self, categories);
    }
}

impl Rules for BinaryRules {
    open spec fn wf(&self) -> bool {
        self.shape_ok()
    }

    open spec fn state_count(&self) -> nat {
        self.rows() as nat
    }

    open spec fn start(&self) -> nat {
        self.graph.start as nat
    }

    open spec fn first_final(&self) -> nat {
        self.graph.first_final as nat
    }

    open spec fn anchors(&self, state: nat) -> bool {
        self.graph.anchor[state as int]
    }

    open spec fn rule(&self, state: nat, category: u8) -> Rule {
        self.graph.rule_at(self.selected(state as int, category))
    }

    open spec fn end_rule(&self, state: nat) -> Option<Rule> {
        self.graph.end_rule(state as int)
    }

    open spec fn programs(&self) -> Seq<Seq<Action>> {
        self.graph.programs
    }
}

impl Sound for BinaryRules {
    open spec fn sound(&self, kinds: u8) -> bool {
        self.flow_sound(kinds)
    }

    proof fn lemma_sound(&self, kinds: u8, categories: Seq<u8>) {
        self.lemma_never_fails(kinds, categories);
    }
}

impl BinaryTable {
    /// Whether the keys of state `s` are sorted.
    fn keys_sorted(&self, s: usize) -> (ok: bool)
        requires
            self@.aligned(),
            s < self@.rows(),
            self@.key_offsets[s as int] + self@.singles(s as int) + 2 * self@.ranges(s as int)
                <= self@.keys.len(),
        ensures
            ok == ((forall|k: int|
                0 <= k < self@.singles(s as int) ==> #[trigger] self@.single_ascends(s as int, k))
                && (forall|j: int|
                0 <= j < self@.ranges(s as int) ==> #[trigger] self@.range_ascends(s as int, j))),
    {
        let first: usize = self.key_offsets[s] as usize;
        let singles: usize = self.single_lengths[s] as usize;
        let ranges: usize = self.range_lengths[s] as usize;
        let mut k: usize = 1;
        while k < singles
            invariant
                self@.aligned(),
                s < self@.rows(),
                first == self@.key_offsets[s as int],
                singles == self@.singles(s as int),
                first + singles <= self@.keys.len(),
                1 <= k,
                forall|i: int|
                    0 <= i < k && i < singles ==> #[trigger] self@.single_ascends(s as int, i),
            decreases singles - k,
        {
            if self.keys[first + k - 1] >= self.keys[first + k] {
                assert(!self@.single_ascends(s as int, k as int));
                return false;
            }
            k += 1;
        }
        let base: usize = first + singles;
        let mut j: usize = 0;
        while j < ranges
            invariant
                self@.aligned(),
                s < self@.rows(),
                first == self@.key_offsets[s as int],
                singles == self@.singles(s as int),
                ranges == self@.ranges(s as int),
                base == first + singles,
                base + 2 * ranges <= self@.keys.len(),
                forall|i: int| 0 <= i < singles ==> #[trigger] self@.single_ascends(s as int, i),
                forall|i: int| 0 <= i < j ==> #[trigger] self@.range_ascends(s as int, i),
            decreases ranges - j,
        {
            if self.keys[base + 2 * j] > self.keys[base + 2 * j + 1] {
                assert(!self@.range_ascends(s as int, j as int));
                return false;
            }
            if j > 0 && self.keys[base + 2 * j - 1] >= self.keys[base + 2 * j] {
                assert(!self@.range_ascends(s as int, j as int));
                return false;
            }
            j += 1;
        }
        true
    }

    /// Whether state `s` stays inside the table.
    fn row_is_sound(&self, s: usize) -> (ok: bool)
        requires
            self@.aligned(),
            s < self@.rows(),
        ensures
            ok == self@.row_ok(s as int),
    {
        let first: usize = self.key_offsets[s] as usize;
        let singles: usize = self.single_lengths[s] as usize;
        let ranges: usize = self.range_lengths[s] as usize;
        if first + singles + 2 * ranges > self.keys.len() {
            return false;
        }
        if self.index_offsets[s] as usize + singles + ranges >= self.graph.targets.len() {
            return false;
        }
        self.keys_sorted(s)
    }

    /// Whether the per-state arrays line up.
    fn is_aligned(&self) -> (ok: bool)
        ensures
            ok == self@.aligned(),
    {
        let n: usize = self.graph.anchor.len();
        self.key_offsets.len() == n && self.single_lengths.len() == n && self.range_lengths.len()
            == n && self.index_offsets.len() == n
    }

    /// Checks the shape of the table, so that a table that would lead a scan
    /// outside its arrays is refused before any scan.
    pub fn check(&self) -> (ok: bool)
        ensures
            ok == self@.shape_ok(),
    {
        if !self.graph.check() || !self.is_aligned() {
            return false;
        }
        let n: usize = self.graph.anchor.len();
        let mut s: usize = 0;
        while s < n
            invariant
                self@.aligned(),
                n == self@.rows(),
                s <= n,
                forall|i: int| 0 <= i < s ==> #[trigger] self@.row_ok(i),
            decreases n - s,
        {
            if !self.row_is_sound(s) {
                return false;
            }
            s += 1;
        }
        true
    }

    /// For each state, the indices of its transitions.
    pub fn rows(&self) -> (rows: Vec<Vec<usize>>)
        requires
            self@.shape_ok(),
        ensures
            rows_of(rows@) == self@.row_lists(),
    {
        let n: usize = self.graph.anchor.len();
        let mut rows: Vec<Vec<usize>> = Vec::with_capacity(n);
        let mut s: usize = 0;
        while s < n
            invariant
                self@.shape_ok(),
                n == self@.rows(),
                s <= n,
                rows@.len() == s,
                forall|r: int| 0 <= r < s ==> (#[trigger] rows@[r])@ == self@.row(r),
            decreases n - s,
        {
            proof {
                assert(self@.row_ok(s as int));
            }
            let first: usize = self.index_offsets[s] as usize;
            let count: usize = self.single_lengths[s] as usize + self.range_lengths[s] as usize + 1;
            let mut row: Vec<usize> = Vec::with_capacity(count);
            let mut i: usize = 0;
            while i < count
                invariant
                    first == self@.first(s as int),
                    count == self@.row(s as int).len(),
                    first + count <= usize::MAX,
                    i <= count,
                    row@ == self@.row(s as int).subrange(0, i as int),
                decreases count - i,
            {
                row.push(first + i);
                assert(row@ =~= self@.row(s as int).subrange(0, i + 1));
                i += 1;
            }
            assert(row@ =~= self@.row(s as int));
            rows.push(row);
            s += 1;
        }
        assert(rows_of(rows@) =~= self@.row_lists());
        rows
    }

    /// Checks the flow of the table for a machine with `kinds` cluster
    /// kinds, so that a table on which some scan would break a rule is
    /// refused before any scan.
    pub fn check_flow(&self, kinds: u8) -> (ok: bool)
        requires
            self@.shape_ok(),
        ensures
            ok == self@.flow_sound(kinds),
    {
        proof {
            self@.lemma_rows_ok();
        }
        self.graph.check_flow(&self.rows(), kinds)
    }

    /// Finds the single key of state `s` that equals `category`.
    fn find_single(&self, s: usize, category: u8) -> (found: Option<usize>)
        requires
            self@.shape_ok(),
            s < self@.rows(),
        ensures
            match found {
                Some(k) => self@.single_matches(s as int, category, k as int),
                None => forall|k: int| !self@.single_matches(s as int, category, k),
            },
    {
        proof {
            assert(self@.row_ok(s as int));
        }
        let first: usize = self.key_offsets[s] as usize;
        let mut low: usize = 0;
        let mut high: usize = self.single_lengths[s] as usize;
        while low < high
            invariant
                self@.shape_ok(),
                s < self@.rows(),
                first == self@.key_offsets[s as int],
                first + self@.singles(s as int) <= self@.keys.len(),
                low <= high <= self@.singles(s as int),
                forall|k: int| 0 <= k < low ==> self@.single_key(s as int, k) < category,
                forall|k: int|
                    high <= k < self@.singles(s as int) ==> self@.single_key(s as int, k)
                        > category,
            decreases high - low,
        {
            let mid: usize = low + (high - low) / 2;
            let key: u8 = self.keys[first + mid];
            if category < key {
                assert forall|k: int| mid <= k < self@.singles(s as int) implies self@.single_key(
                    s as int,
                    k,
                ) > category by {
                    if mid < k {
                        self@.lemma_singles_sorted(s as int, mid as int, k);
                    }
                }
                high = mid;
            } else if category > key {
                assert forall|k: int| 0 <= k < mid + 1 implies self@.single_key(s as int, k)
                    < category by {
                    if k < mid {
                        self@.lemma_singles_sorted(s as int, k, mid as int);
                    }
                }
                low = mid + 1;
            } else {
                return Some(mid);
            }
        }
        None
    }

    /// Finds the range of state `s` that holds `category`.
    fn find_range(&self, s: usize, category: u8) -> (found: Option<usize>)
        requires
            self@.shape_ok(),
            s < self@.rows(),
        ensures
            match found {
                Some(j) => self@.range_matches(s as int, category, j as int),
                None => forall|j: int| !self@.range_matches(s as int, category, j),
            },
    {
        proof {
            assert(self@.row_ok(s as int));
        }
        let base: usize = self.key_offsets[s] as usize + self.single_lengths[s] as usize;
        let mut low: usize = 0;
        let mut high: usize = self.range_lengths[s] as usize;
        while low < high
            invariant
                self@.shape_ok(),
                s < self@.rows(),
                base == self@.key_offsets[s as int] + self@.singles(s as int),
                base + 2 * self@.ranges(s as int) <= self@.keys.len(),
                low <= high <= self@.ranges(s as int),
                forall|j: int| 0 <= j < low ==> self@.range_high(s as int, j) < category,
                forall|j: int|
                    high <= j < self@.ranges(s as int) ==> self@.range_low(s as int, j) > category,
            decreases high - low,
        {
            let mid: usize = low + (high - low) / 2;
            proof {
                assert(self@.row_ok(s as int));
                assert(self@.range_ascends(s as int, mid as int));
            }
            if category < self.keys[base + 2 * mid] {
                assert forall|j: int| mid <= j < self@.ranges(s as int) implies self@.range_low(
                    s as int,
                    j,
                ) > category by {
                    if mid < j {
                        self@.lemma_ranges_sorted(s as int, mid as int, j);
                    }
                }
                high = mid;
            } else if category > self.keys[base + 2 * mid + 1] {
                assert forall|j: int| 0 <= j < mid + 1 implies self@.range_high(s as int, j)
                    < category by {
                    if j < mid {
                        self@.lemma_ranges_sorted(s as int, j, mid as int);
                        assert(self@.range_ascends(s as int, j));
                    }
                }
                low = mid + 1;
            } else {
                return Some(mid);
            }
        }
        None
    }

    /// The index of the transition that state `s` takes on `category`.
    pub fn select(&self, s: usize, category: u8) -> (t: usize)
        requires
            self@.shape_ok(),
            s < self@.rows(),
        ensures
            t == self@.selected(s as int, category),
            t < self@.graph.targets.len(),
    {
        proof {
            assert(self@.row_ok(s as int));
        }
        let first: usize = self.index_offsets[s] as usize;
        let singles: usize = self.single_lengths[s] as usize;
        match self.find_single(s, category) {
            Some(k) => {
                proof {
                    let chosen = choose|k: int| self@.single_matches(s as int, category, k);
                    self@.lemma_match_unique(s as int, category, k as int, chosen);
                }
                first + k
            },
            None => match self.find_range(s, category) {
                Some(j) => {
                    proof {
                        let chosen = choose|j: int| self@.range_matches(s as int, category, j);
                        self@.lemma_match_unique(s as int, category, j as int, chosen);
                    }
                    first + singles + j
                },
                None => first + singles + self.range_lengths[s] as usize,
            },
        }
    }
}

impl Automaton for BinaryTable {
    fn start_state(&self) -> (s: usize) {
        self.graph.start
    }

    fn is_final(&self, state: usize) -> (b: bool) {
        state >= self.graph.first_final
    }

    fn is_anchor(&self, state: usize) -> (b: bool) {
        self.graph.anchor[state]
    }

    fn transition(&self, state: usize, category: u8) -> (t: Transition) {
        self.graph.transition_at(self.select(state, category))
    }

    fn end_transition(&self, state: usize) -> (t: Option<Transition>) {
        self.graph.end_transition(state)
    }

    fn program(&self, index: usize) -> (actions: &Vec<Action>) {
        &self.graph.programs[index]
    }
}

impl Checkable for BinaryTable {
    fn is_well_formed(&self) -> (ok: bool) {
        self.check()
    }

    fn is_sound(&self, kinds: u8) -> (ok: bool) {
        self.check_flow(kinds)
    }
}

} // verus!
