//! Which states can be reached from given roots over the open transitions
//! of a table.
use vstd::prelude::*;

verus! {

/// States, some of them roots, and their transitions, some of them open.
pub struct Net {
    /// For each state, whether it is a root.
    pub roots: Seq<bool>,
    /// For each state, the indices of its transitions.
    pub rows: Seq<Seq<usize>>,
    /// For each transition, whether it is open.
    pub open: Seq<bool>,
    /// For each transition, the state it leads to.
    pub targets: Seq<u16>,
}

/// The rows of a table as the contracts see them.
pub open spec fn rows_of(rows: Seq<Vec<usize>>) -> Seq<Seq<usize>> {
    Seq::new(rows.len(), |s: int| rows[s]@)
}

/// The number of entries of `set` that are `false`.
pub open spec fn zeros(set: Seq<bool>) -> nat
    decreases set.len(),
{
    if set.len() == 0 {
        0
    } else if set.last() {
        zeros(set.drop_last())
    } else {
        zeros(set.drop_last()) + 1
    }
}

/// Setting an entry that was `false` leaves one `false` entry less.
pub proof fn lemma_zeros_set(set: Seq<bool>, i: int)
    requires
        0 <= i < set.len(),
        !set[i],
    ensures
        zeros(set.update(i, true)) + 1 == zeros(set),
    decreases set.len(),
{
    let after = set.update(i, true);
    if i == set.len() - 1 {
        assert(after.drop_last() =~= set.drop_last());
    } else {
        assert(after.drop_last() =~= set.drop_last().update(i, true));
        lemma_zeros_set(set.drop_last(), i);
    }
}

impl Net {
    /// Every state has a row, every transition in a row exists, and every
    /// transition leads to a state.
    pub open spec fn wf(self) -> bool {
        &&& self.rows.len() == self.roots.len()
        &&& self.open.len() == self.targets.len()
        &&& forall|s: int, i: int|
            0 <= s < self.rows.len() && 0 <= i < self.rows[s].len() ==> #[trigger] self.rows[s][i]
                < self.targets.len()
        &&& forall|t: int|
            0 <= t < self.targets.len() ==> #[trigger] self.targets[t] < self.roots.len()
    }

    /// Transition `i` of state `s` is open and leads to state `to`.
    pub open spec fn hop(self, s: int, i: int, to: int) -> bool {
        &&& 0 <= s < self.rows.len()
        &&& 0 <= i < self.rows[s].len()
        &&& self.open[self.rows[s][i] as int]
        &&& self.targets[self.rows[s][i] as int] == to
    }

    /// State `to` is a root, or lies at most `k` open transitions from one.
    pub open spec fn reached_within(self, to: int, k: nat) -> bool
        decreases k,
    {
        &&& 0 <= to < self.roots.len()
        &&& (self.roots[to] || (k > 0 && exists|s: int, i: int| #[trigger]
            self.hop(s, i, to) && self.reached_within(s, (k - 1) as nat)))
    }

    /// State `to` is a root, or can be reached from one over open
    /// transitions.
    pub open spec fn reached(self, to: int) -> bool {
        exists|k: nat| self.reached_within(to, k)
    }

    /// Every state in `set` can be reached.
    pub open spec fn sound(self, set: Seq<bool>) -> bool {
        forall|s: int| 0 <= s < set.len() && set[s] ==> #[trigger] self.reached(s)
    }

    /// Where state `s` is in `set`, so is every state that its first `upto`
    /// transitions lead to, as far as they are open.
    pub open spec fn closed_upto(self, set: Seq<bool>, s: int, upto: int) -> bool {
        set[s] ==> forall|i: int, to: int|
            0 <= i < upto && #[trigger] self.hop(s, i, to) ==> set[to]
    }

    /// Where state `s` is in `set`, so is every state that an open
    /// transition of `s` leads to.
    pub open spec fn closed_at(self, set: Seq<bool>, s: int) -> bool {
        self.closed_upto(set, s, self.rows[s].len() as int)
    }

    /// A set that holds the roots and is closed under open transitions
    /// holds every state that can be reached.
    pub proof fn lemma_closed_holds_reached(self, set: Seq<bool>, to: int, k: nat)
        requires
            set.len() == self.roots.len(),
            forall|s: int| 0 <= s < set.len() && self.roots[s] ==> set[s],
            forall|s: int| 0 <= s < set.len() ==> #[trigger] self.closed_at(set, s),
            self.reached_within(to, k),
        ensures
            set[to],
        decreases k,
    {
        if !self.roots[to] {
            let (s, i) = choose|s: int, i: int| #[trigger]
                self.hop(s, i, to) && self.reached_within(s, (k - 1) as nat);
            self.lemma_closed_holds_reached(set, s, (k - 1) as nat);
            assert(self.closed_at(set, s));
        }
    }

    /// A state that an open transition leads to from a state that can be
    /// reached can be reached.
    pub proof fn lemma_reached_step(self, s: int, i: int, to: int)
        requires
            self.wf(),
            self.reached(s),
            self.hop(s, i, to),
        ensures
            self.reached(to),
    {
        let k = choose|k: nat| self.reached_within(s, k);
        assert(self.reached_within(to, k + 1));
    }
}

/// The net over the given roots, rows, open transitions and targets.
pub open spec fn net_of(
    roots: Seq<bool>,
    rows: Seq<Vec<usize>>,
    open: Seq<bool>,
    targets: Seq<u16>,
) -> Net {
    Net { roots, rows: rows_of(rows), open, targets }
}

/// Adds to `set` the states that the open transitions of state `s` lead to,
/// where `s` is in it.
fn spread_from(
    rows: &Vec<Vec<usize>>,
    open: &Vec<bool>,
    targets: &Vec<u16>,
    set: &mut Vec<bool>,
    s: usize,
    Ghost(net): Ghost<Net>,
) -> (changed: bool)
    requires
        net.wf(),
        net.rows == rows_of(rows@),
        net.open == open@,
        net.targets == targets@,
        old(set)@.len() == net.roots.len(),
        s < old(set)@.len(),
        net.sound(old(set)@),
    ensures
        final(set)@.len() == old(set)@.len(),
        forall|t: int| 0 <= t < old(set)@.len() && old(set)@[t] ==> final(set)@[t],
        net.sound(final(set)@),
        changed ==> zeros(final(set)@) < zeros(old(set)@),
        !changed ==> final(set)@ == old(set)@ && net.closed_at(final(set)@, s as int),
{
    let mut changed = false;
    if !set[s] {
        return false;
    }
    let row = &rows[s];
    assert(row@ == net.rows[s as int]);
    let mut i: usize = 0;
    while i < row.len()
        invariant
            net.wf(),
            net.rows == rows_of(rows@),
            net.open == open@,
            net.targets == targets@,
            row@ == net.rows[s as int],
            set@.len() == net.roots.len(),
            old(set)@.len() == set@.len(),
            s < set@.len(),
            set@[s as int],
            i <= row@.len(),
            forall|t: int| 0 <= t < old(set)@.len() && old(set)@[t] ==> set@[t],
            net.sound(set@),
            changed ==> zeros(set@) < zeros(old(set)@),
            !changed ==> set@ == old(set)@ && net.closed_upto(set@, s as int, i as int),
        decreases row@.len() - i,
    {
        let t: usize = row[i];
        assert(net.rows[s as int][i as int] < net.targets.len());
        assert(net.targets[t as int] < net.roots.len());
        let to: usize = targets[t] as usize;
        if open[t] && !set[to] {
            proof {
                assert(net.hop(s as int, i as int, to as int));
                assert(net.reached(s as int));
                net.lemma_reached_step(s as int, i as int, to as int);
                lemma_zeros_set(set@, to as int);
            }
            set[to] = true;
            changed = true;
        }
        i += 1;
    }
    changed
}

/// Adds to `set` the states that one open transition leads to from a state
/// in it.
fn spread_once(
    rows: &Vec<Vec<usize>>,
    open: &Vec<bool>,
    targets: &Vec<u16>,
    set: &mut Vec<bool>,
    Ghost(net): Ghost<Net>,
) -> (changed: bool)
    requires
        net.wf(),
        net.rows == rows_of(rows@),
        net.open == open@,
        net.targets == targets@,
        old(set)@.len() == net.roots.len(),
        net.sound(old(set)@),
    ensures
        final(set)@.len() == old(set)@.len(),
        forall|t: int| 0 <= t < old(set)@.len() && old(set)@[t] ==> final(set)@[t],
        net.sound(final(set)@),
        changed ==> zeros(final(set)@) < zeros(old(set)@),
        !changed ==> final(set)@ == old(set)@ && forall|s: int|
            0 <= s < final(set)@.len() ==> #[trigger] net.closed_at(final(set)@, s),
{
    let n: usize = set.len();
    let mut changed = false;
    let mut s: usize = 0;
    while s < n
        invariant
            net.wf(),
            net.rows == rows_of(rows@),
            net.open == open@,
            net.targets == targets@,
            n == net.roots.len(),
            set@.len() == n,
            old(set)@.len() == n,
            s <= n,
            forall|t: int| 0 <= t < n && old(set)@[t] ==> set@[t],
            net.sound(set@),
            changed ==> zeros(set@) < zeros(old(set)@),
            !changed ==> set@ == old(set)@ && forall|r: int|
                0 <= r < s ==> #[trigger] net.closed_at(set@, r),
        decreases n - s,
    {
        if spread_from(rows, open, targets, set, s, Ghost(net)) {
            changed = true;
        }
        s += 1;
    }
    changed
}

/// The states that are roots or can be reached from a root over open
/// transitions.
pub fn reach(
    roots: &Vec<bool>,
    rows: &Vec<Vec<usize>>,
    open: &Vec<bool>,
    targets: &Vec<u16>,
) -> (set: Vec<bool>)
    requires
        net_of(roots@, rows@, open@, targets@).wf(),
    ensures
        set@.len() == roots@.len(),
        forall|s: int|
            0 <= s < set@.len() ==> set@[s] == net_of(roots@, rows@, open@, targets@).reached(s),
{
    let ghost net = net_of(roots@, rows@, open@, targets@);
    let mut set: Vec<bool> = Vec::with_capacity(roots.len());
    let mut s: usize = 0;
    while s < roots.len()
        invariant
            s <= roots@.len(),
            set@ == roots@.subrange(0, s as int),
        decreases roots@.len() - s,
    {
        set.push(roots[s]);
        assert(set@ =~= roots@.subrange(0, s + 1));
        s += 1;
    }
    assert(set@ =~= roots@);
    assert forall|r: int| 0 <= r < set@.len() && set@[r] implies #[trigger] net.reached(r) by {
        assert(net.reached_within(r, 0));
    }
    let mut changed = true;
    while changed
        invariant
            net == net_of(roots@, rows@, open@, targets@),
            net.wf(),
            set@.len() == roots@.len(),
            forall|r: int| 0 <= r < set@.len() && roots@[r] ==> set@[r],
            net.sound(set@),
            !changed ==> forall|r: int| 0 <= r < set@.len() ==> #[trigger] net.closed_at(set@, r),
        decreases zeros(set@), changed as int,
    {
        changed = spread_once(rows, open, targets, &mut set, Ghost(net));
    }
    assert forall|r: int| 0 <= r < set@.len() implies set@[r] == net.reached(r) by {
        if net.reached(r) {
            let k = choose|k: nat| net.reached_within(r, k);
            net.lemma_closed_holds_reached(set@, r, k);
        }
    }
    set
}

} // verus!
