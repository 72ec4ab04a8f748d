//! The syllable machine of the Universal Shaping Engine: the scan of the
//! included units of a buffer with its table.
use vstd::prelude::*;
use crate::buffer::{same_units, Buffer, GlyphInfo};
use crate::coverage::{holds, lemma_tiles_bounded, lemma_tiles_cover, tiles};
use crate::emitter::{
    ascending, emitted_through, has_kind, lemma_emitted_through_skips, lemma_emitted_through_tag,
    lemma_emitted_through_tags_agree, lemma_emitted_through_units, raised, stamp_through,
    stamped_through,
};
use crate::engine::{scan_result, segments_of, Commit, Segment};
use crate::error::TableError;
use crate::flat_table::FlatTable;
use crate::flow::kinds_below;
use crate::machine::{table_error, Machine};
use crate::syllable::{
    advance_serial, lemma_serial_cycle, lemma_tag_byte_fields, next_serial, serial_at, tag_byte,
    valid_serial, SyllableTag, FIRST_SERIAL,
};
use crate::use_actions::{
    BROKEN_CLUSTER, HIEROGLYPH_CLUSTER, INDEPENDENT_CLUSTER, KINDS, NON_CLUSTER,
    NUMBER_JOINER_TERMINATED_CLUSTER, NUMERAL_CLUSTER, SAKOT_TERMINATED_CLUSTER, STANDARD_CLUSTER,
    SYMBOL_CLUSTER, VIRAMA_TERMINATED_CLUSTER,
};
use crate::use_table::{use_rules, use_table};

verus! {

/// The category of the combining grapheme joiner, which no scan walks over.
pub const CGJ: u8 = 6;

/// The category of the zero-width non-joiner, which a scan walks over only
/// where no combining mark follows it.
pub const ZWNJ: u8 = 14;

/// The kinds of cluster this machine commits.
#[derive(Clone, Copy, Debug, PartialEq, Eq, Structural)]
pub enum SyllableType {
    IndependentCluster,
    ViramaTerminatedCluster,
    SakotTerminatedCluster,
    StandardCluster,
    NumberJoinerTerminatedCluster,
    NumeralCluster,
    SymbolCluster,
    HieroglyphCluster,
    BrokenCluster,
    NonCluster,
}

impl SyllableType {
    /// The code of this kind in a syllable tag.
    pub open spec fn code_of(self) -> u8 {
        match self {
            SyllableType::IndependentCluster => INDEPENDENT_CLUSTER,
            SyllableType::ViramaTerminatedCluster => VIRAMA_TERMINATED_CLUSTER,
            SyllableType::SakotTerminatedCluster => SAKOT_TERMINATED_CLUSTER,
            SyllableType::StandardCluster => STANDARD_CLUSTER,
            SyllableType::NumberJoinerTerminatedCluster => NUMBER_JOINER_TERMINATED_CLUSTER,
            SyllableType::NumeralCluster => NUMERAL_CLUSTER,
            SyllableType::SymbolCluster => SYMBOL_CLUSTER,
            SyllableType::HieroglyphCluster => HIEROGLYPH_CLUSTER,
            SyllableType::BrokenCluster => BROKEN_CLUSTER,
            SyllableType::NonCluster => NON_CLUSTER,
        }
    }

    /// The code of this kind in a syllable tag.
    pub fn code(self) -> (code: u8)
        ensures
            code == self.code_of(),
            code <= NON_CLUSTER,
    {
        match self {
            SyllableType::IndependentCluster => INDEPENDENT_CLUSTER,
            SyllableType::ViramaTerminatedCluster => VIRAMA_TERMINATED_CLUSTER,
            SyllableType::SakotTerminatedCluster => SAKOT_TERMINATED_CLUSTER,
            SyllableType::StandardCluster => STANDARD_CLUSTER,
            SyllableType::NumberJoinerTerminatedCluster => NUMBER_JOINER_TERMINATED_CLUSTER,
            SyllableType::NumeralCluster => NUMERAL_CLUSTER,
            SyllableType::SymbolCluster => SYMBOL_CLUSTER,
            SyllableType::HieroglyphCluster => HIEROGLYPH_CLUSTER,
            SyllableType::BrokenCluster => BROKEN_CLUSTER,
            SyllableType::NonCluster => NON_CLUSTER,
        }
    }

    /// The kind with the given code, if there is one.
    pub fn from_code(code: u8) -> (kind: Option<SyllableType>)
        ensures
            match kind {
                Some(k) => k.code_of() == code,
                None => code > NON_CLUSTER,
            },
    {
        if code == INDEPENDENT_CLUSTER {
            Some(SyllableType::IndependentCluster)
        } else if code == VIRAMA_TERMINATED_CLUSTER {
            Some(SyllableType::ViramaTerminatedCluster)
        } else if code == SAKOT_TERMINATED_CLUSTER {
            Some(SyllableType::SakotTerminatedCluster)
        } else if code == STANDARD_CLUSTER {
            Some(SyllableType::StandardCluster)
        } else if code == NUMBER_JOINER_TERMINATED_CLUSTER {
            Some(SyllableType::NumberJoinerTerminatedCluster)
        } else if code == NUMERAL_CLUSTER {
            Some(SyllableType::NumeralCluster)
        } else if code == SYMBOL_CLUSTER {
            Some(SyllableType::SymbolCluster)
        } else if code == HIEROGLYPH_CLUSTER {
            Some(SyllableType::HieroglyphCluster)
        } else if code == BROKEN_CLUSTER {
            Some(SyllableType::BrokenCluster)
        } else if code == NON_CLUSTER {
            Some(SyllableType::NonCluster)
        } else {
            None
        }
    }
}

/// Whether a unit is anything but a combining grapheme joiner.
pub open spec fn visible(unit: GlyphInfo) -> bool {
    unit.category != CGJ
}

/// The index of the first visible unit at or after `from`; the length of
/// `info` where there is none.
pub open spec fn next_visible(info: Seq<GlyphInfo>, from: int) -> int
    decreases info.len() - from,
{
    if from < 0 || from >= info.len() {
        info.len() as int
    } else if visible(info[from]) {
        from
    } else {
        next_visible(info, from + 1)
    }
}

/// Whether a scan walks over unit `i`. It skips every combining grapheme
/// joiner, and every zero-width non-joiner whose next visible unit is a
/// combining mark.
pub open spec fn is_included(info: Seq<GlyphInfo>, i: int) -> bool {
    &&& visible(info[i])
    &&& info[i].category == ZWNJ ==> {
        let next = next_visible(info, i + 1);
        next < info.len() ==> !info[next].unicode_mark
    }
}

/// The included units among the first `k` units, in order.
pub open spec fn included_before(info: Seq<GlyphInfo>, k: int) -> Seq<usize>
    decreases k,
{
    if k <= 0 {
        Seq::empty()
    } else if is_included(info, k - 1) {
        included_before(info, k - 1).push((k - 1) as usize)
    } else {
        included_before(info, k - 1)
    }
}

/// The units a scan walks over, in order.
pub open spec fn included_positions(info: Seq<GlyphInfo>) -> Seq<usize> {
    included_before(info, info.len() as int)
}

/// The categories of the units at `positions`.
pub open spec fn categories_at(info: Seq<GlyphInfo>, positions: Seq<usize>) -> Seq<u8> {
    Seq::new(positions.len(), |p: int| info[positions[p] as int].category)
}

/// Why the table of this machine is unfit for scanning, if it is.
pub open spec fn use_table_error() -> Option<TableError> {
    table_error(&use_rules(), KINDS)
}

/// The clusters that a scan of the included units of `info` commits, as
/// intervals of `included_positions(info)`.
pub open spec fn use_segments(info: Seq<GlyphInfo>) -> Option<Seq<Segment>> {
    scan_result(&use_rules(), categories_at(info, included_positions(info)))
}

/// What a scan of `info` with the table of this machine leaves in `after`:
/// the clusters of the scan cover the included units, they are of the kinds
/// of this machine, and every included unit carries the tag of its cluster.
/// A unit that is not included carries the tag it had.
pub open spec fn use_scanned(info: Seq<GlyphInfo>, after: Seq<GlyphInfo>) -> bool {
    &&& use_segments(info) matches Some(segments)
    &&& tiles(segments, included_positions(info).len() as int)
    &&& kinds_below(segments, KINDS)
    &&& after == emitted_through(info, included_positions(info), segments, 0)
}

/// Whether a scan of `info` commits a broken cluster.
pub open spec fn use_broken(info: Seq<GlyphInfo>) -> bool {
    use_segments(info) matches Some(segments) && has_kind(segments, BROKEN_CLUSTER)
}

/// The included units among the first `k` are units below `k`, in
/// ascending order: exactly the included ones.
pub proof fn lemma_included_before(info: Seq<GlyphInfo>, k: int)
    requires
        0 <= k <= info.len(),
        info.len() <= usize::MAX,
    ensures
        ascending(included_before(info, k), k),
        included_before(info, k).len() <= k,
        forall|p: int|
            0 <= p < included_before(info, k).len() ==> is_included(
                info,
                #[trigger] included_before(info, k)[p] as int,
            ),
        forall|i: int|
            0 <= i < k && is_included(info, i) ==> #[trigger] included_before(info, k).contains(
                i as usize,
            ),
    decreases k,
{
    if k > 0 {
        lemma_included_before(info, k - 1);
        let front = included_before(info, k - 1);
        let all = included_before(info, k);
        if is_included(info, k - 1) {
            assert(all[front.len() as int] == (k - 1) as usize);
            assert forall|i: int| 0 <= i < k && is_included(info, i) implies #[trigger] all.contains(
                i as usize,
            ) by {
                if i < k - 1 {
                    assert(front.contains(i as usize));
                    let p = choose|p: int| 0 <= p < front.len() && front[p] == i as usize;
                    assert(all[p] == i as usize);
                } else {
                    assert(all[front.len() as int] == i as usize);
                }
            }
        }
    }
}

/// Whether a unit is anything but a combining grapheme joiner.
pub fn not_ccs_default_ignorable(i: &GlyphInfo) -> (b: bool)
    ensures
        b == visible(*i),
{
    i.category != CGJ
}

/// Whether a scan walks over the unit at `i`.
pub fn included(infos: &[GlyphInfo], i: usize) -> (b: bool)
    requires
        i < infos@.len(),
    ensures
        b == is_included(infos@, i as int),
{
    let glyph = infos[i];
    if !not_ccs_default_ignorable(&glyph) {
        return false;
    }
    if glyph.category == ZWNJ {
        let mut j: usize = i + 1;
        while j < infos.len()
            invariant
                i < j <= infos@.len(),
                visible(infos@[i as int]),
                infos@[i as int].category == ZWNJ,
                next_visible(infos@, i + 1) == next_visible(infos@, j as int),
            decreases infos@.len() - j,
        {
            let glyph2 = infos[j];
            if not_ccs_default_ignorable(&glyph2) {
                return !glyph2.unicode_mark;
            }
            j += 1;
        }
    }
    true
}

/// The units of `infos` a scan walks over, in order.
pub fn included_units(infos: &[GlyphInfo]) -> (positions: Vec<usize>)
    ensures
        positions@ == included_positions(infos@),
        ascending(positions@, infos@.len() as int),
{
    let mut positions: Vec<usize> = Vec::new();
    let mut i: usize = 0;
    while i < infos.len()
        invariant
            i <= infos@.len(),
            positions@ == included_before(infos@, i as int),
        decreases infos@.len() - i,
    {
        if included(infos, i) {
            positions.push(i);
        }
        i += 1;
    }
    proof {
        lemma_included_before(infos@, infos@.len() as int);
    }
    positions
}

/// The categories of the units at `positions`.
fn categories_of_units(infos: &[GlyphInfo], positions: &Vec<usize>) -> (categories: Vec<u8>)
    requires
        forall|p: int| 0 <= p < positions@.len() ==> #[trigger] positions@[p] < infos@.len(),
    ensures
        categories@ == categories_at(infos@, positions@),
{
    let mut categories: Vec<u8> = Vec::with_capacity(positions.len());
    let mut p: usize = 0;
    while p < positions.len()
        invariant
            p <= positions@.len(),
            forall|q: int| 0 <= q < positions@.len() ==> #[trigger] positions@[q] < infos@.len(),
            categories@ == categories_at(infos@, positions@).subrange(0, p as int),
        decreases positions@.len() - p,
    {
        categories.push(infos[positions[p]].category);
        assert(categories@ =~= categories_at(infos@, positions@).subrange(0, p + 1));
        p += 1;
    }
    assert(categories@ =~= categories_at(infos@, positions@));
    categories
}

/// Commits the cluster of the included units `positions[start .. end]`:
/// stamps the tag of `syllable_serial` and `kind` on them, moves the serial
/// number on, and raises the buffer's flag where the cluster is broken. A
/// unit that is not included gets no tag. An empty cluster changes no unit
/// and still takes a serial number.
pub fn found_syllable(
    start: usize,
    end: usize,
    syllable_serial: &mut u8,
    kind: SyllableType,
    positions: &Vec<usize>,
    buffer: &mut Buffer,
)
    requires
        start <= end <= positions@.len(),
        forall|p: int| start <= p < end ==> #[trigger] positions@[p] < old(buffer).info@.len(),
        valid_serial(*old(syllable_serial)),
    ensures
        final(buffer).info@ == stamped_through(
            old(buffer).info@,
            positions@,
            start as int,
            end as int,
            tag_byte(*old(syllable_serial), kind.code_of()),
        ),
        *final(syllable_serial) == next_serial(*old(syllable_serial)),
        valid_serial(*final(syllable_serial)),
        final(buffer).has_broken_syllable == (old(buffer).has_broken_syllable
            || kind == SyllableType::BrokenCluster),
{
    let tag = SyllableTag { serial: *syllable_serial, kind: kind.code() };
    stamp_through(buffer, positions, start, end, tag.pack());
    *syllable_serial = advance_serial(*syllable_serial);
    if kind.code() == BROKEN_CLUSTER {
        buffer.has_broken_syllable = true;
    }
}

/// Stamps the clusters of a scan on the included units of the buffer, in
/// order, with serial numbers from the first on.
fn emit_all(commits: &Vec<Commit>, positions: &Vec<usize>, buffer: &mut Buffer)
    requires
        ascending(positions@, old(buffer).info@.len() as int),
        tiles(segments_of(commits@), positions@.len() as int),
        kinds_below(segments_of(commits@), KINDS),
    ensures
        final(buffer).info@ == emitted_through(
            old(buffer).info@,
            positions@,
            segments_of(commits@),
            0,
        ),
        final(buffer).has_broken_syllable == (old(buffer).has_broken_syllable || has_kind(
            segments_of(commits@),
            BROKEN_CLUSTER,
        )),
{
    let ghost segments = segments_of(commits@);
    let ghost n = buffer.info@.len() as int;
    let mut serial: u8 = FIRST_SERIAL;
    let mut i: usize = 0;
    while i < commits.len()
        invariant
            i <= commits@.len(),
            segments == segments_of(commits@),
            ascending(positions@, n),
            tiles(segments, positions@.len() as int),
            kinds_below(segments, KINDS),
            buffer.info@.len() == n,
            serial == serial_at(i as nat),
            emitted_through(old(buffer).info@, positions@, segments, 0) == emitted_through(
                buffer.info@,
                positions@,
                segments,
                i as int,
            ),
            buffer.has_broken_syllable == raised(
                old(buffer).has_broken_syllable,
                segments,
                i as int,
                BROKEN_CLUSTER,
            ),
        decreases commits@.len() - i,
    {
        let commit = commits[i];
        proof {
            lemma_tiles_bounded(segments, positions@.len() as int, i as int);
            lemma_serial_cycle(i as nat);
            assert(segments[i as int] == commit@);
        }
        let kind = SyllableType::from_code(commit.kind).unwrap();
        found_syllable(commit.start, commit.end, &mut serial, kind, positions, buffer);
        i += 1;
    }
}

/// The syllable machine of the Universal Shaping Engine, loaded and
/// checked: a scan with it cannot fail.
pub struct UseMachine {
    machine: Machine<FlatTable>,
}

impl UseMachine {
    #[verifier::type_invariant]
    spec fn sound(&self) -> bool {
        &&& self.machine.table@ == use_rules()
        &&& self.machine.kinds == KINDS
        &&& self.machine.wf()
    }

    /// Loads the table and checks its shape and its flow.
    pub fn load() -> (machine: Result<UseMachine, TableError>)
        ensures
            match machine {
                Ok(_) => use_table_error() is None,
                Err(error) => use_table_error() == Some(error),
            },
    {
        match Machine::new(use_table(), KINDS) {
            Ok(machine) => Ok(UseMachine { machine }),
            Err(error) => Err(error),
        }
    }

    /// Finds the syllables of a text: scans the categories of the included
    /// units of `buffer` and stamps on every included unit the tag of the
    /// cluster that holds it. The clusters cover the included units; a unit
    /// that is not included keeps the tag it had. The buffer's flag is
    /// raised where a broken cluster was committed, and never cleared.
    pub fn find_syllables(&self, buffer: &mut Buffer)
        ensures
            use_table_error() is None,
            same_units(old(buffer).info@, final(buffer).info@),
            use_scanned(old(buffer).info@, final(buffer).info@),
            final(buffer).has_broken_syllable == (old(buffer).has_broken_syllable || use_broken(
                old(buffer).info@,
            )),
    {
        proof {
            use_type_invariant(self);
        }
        let positions = included_units(buffer.info.as_slice());
        let categories = categories_of_units(buffer.info.as_slice(), &positions);
        let commits = self.machine.scan(&categories);
        proof {
            lemma_emitted_through_units(buffer.info@, positions@, segments_of(commits@), 0);
        }
        emit_all(&commits, &positions, buffer);
    }
}

/// Coverage and serial numbers: after a scan, every included unit carries
/// the tag of the one cluster that holds it, made of the serial number of
/// that cluster, which is never zero, and of its kind.
pub proof fn lemma_use_tags(info: Seq<GlyphInfo>, after: Seq<GlyphInfo>, p: int) -> (i: int)
    requires
        info.len() <= usize::MAX,
        use_scanned(info, after),
        0 <= p < included_positions(info).len(),
    ensures
        use_segments(info) matches Some(segments) && 0 <= i < segments.len()
            && holds(segments[i], p) && ({
            let tag = after[included_positions(info)[p] as int].syllable;
            tag == tag_byte(serial_at(i as nat), segments[i].kind) && tag / 16 == serial_at(
                i as nat,
            ) && tag % 16 == segments[i].kind
        }),
{
    let segments = use_segments(info)->0;
    let positions = included_positions(info);
    lemma_included_before(info, info.len() as int);
    let i = lemma_tiles_cover(segments, positions.len() as int, p);
    lemma_emitted_through_tag(info, positions, segments, i, p);
    lemma_serial_cycle(i as nat);
    lemma_tag_byte_fields(serial_at(i as nat), segments[i].kind);
    i
}

/// A unit that a scan does not walk over carries after the scan the tag it
/// had before.
pub proof fn lemma_use_skips(info: Seq<GlyphInfo>, after: Seq<GlyphInfo>, r: int)
    requires
        info.len() <= usize::MAX,
        use_scanned(info, after),
        0 <= r < info.len(),
        !is_included(info, r),
    ensures
        after[r] == info[r],
{
    let segments = use_segments(info)->0;
    let positions = included_positions(info);
    lemma_included_before(info, info.len() as int);
    lemma_emitted_through_skips(info, positions, segments, r);
}

/// The units a scan walks over and their categories depend on the
/// categories and the mark property of the units alone, not on their tags.
pub proof fn lemma_included_same(first: Seq<GlyphInfo>, second: Seq<GlyphInfo>, k: int)
    requires
        same_units(first, second),
        0 <= k <= first.len(),
    ensures
        included_before(first, k) == included_before(second, k),
    decreases k,
{
    if k > 0 {
        lemma_included_same(first, second, k - 1);
        lemma_next_visible_same(first, second, k);
        assert(first[k - 1].category == second[k - 1].category);
        let next = next_visible(first, k);
        lemma_next_visible_bounds(first, k);
        if next < first.len() {
            assert(first[next].unicode_mark == second[next].unicode_mark);
        }
    }
}

/// The next visible unit at or after a unit lies at or after it.
proof fn lemma_next_visible_bounds(info: Seq<GlyphInfo>, from: int)
    requires
        0 <= from,
    ensures
        from <= next_visible(info, from) || next_visible(info, from) == info.len(),
        0 <= next_visible(info, from) <= info.len() || from > info.len(),
    decreases info.len() - from,
{
    if from < info.len() && !visible(info[from]) {
        lemma_next_visible_bounds(info, from + 1);
    }
}

/// The next visible unit depends on the categories alone.
proof fn lemma_next_visible_same(first: Seq<GlyphInfo>, second: Seq<GlyphInfo>, from: int)
    requires
        same_units(first, second),
    ensures
        next_visible(first, from) == next_visible(second, from),
    decreases first.len() - from,
{
    if 0 <= from < first.len() {
        assert(first[from].category == second[from].category);
        if !visible(first[from]) {
            lemma_next_visible_same(first, second, from + 1);
        }
    }
}

/// Determinism: two scans of units with the same categories and mark
/// properties walk over the same units, leave the same tags on them,
/// whatever tags they carried before, and commit a broken cluster in the
/// one as in the other, so from equal flags they leave equal flags.
pub proof fn lemma_use_deterministic(
    first: Seq<GlyphInfo>,
    second: Seq<GlyphInfo>,
    first_after: Seq<GlyphInfo>,
    second_after: Seq<GlyphInfo>,
    p: int,
)
    requires
        first.len() <= usize::MAX,
        same_units(first, second),
        use_scanned(first, first_after),
        use_scanned(second, second_after),
        0 <= p < included_positions(first).len(),
    ensures
        included_positions(first) == included_positions(second),
        use_segments(first) == use_segments(second),
        first_after[included_positions(first)[p] as int].syllable
            == second_after[included_positions(first)[p] as int].syllable,
        use_broken(first) == use_broken(second),
{
    lemma_included_same(first, second, first.len() as int);
    let positions = included_positions(first);
    lemma_included_before(first, first.len() as int);
    assert(categories_at(first, positions) =~= categories_at(second, positions)) by {
        assert forall|q: int| 0 <= q < positions.len() implies first[positions[q] as int].category
            == second[positions[q] as int].category by {
            assert(positions[q] < first.len());
        }
    }
    let segments = use_segments(first)->0;
    lemma_emitted_through_tags_agree(first, second, positions, segments, p);
}

/// Finds the syllables of a text: loads the machine and scans `buffer` with
/// it. Where the table is refused, the buffer is left as it was.
pub fn find_syllables(buffer: &mut Buffer) -> (done: Result<(), TableError>)
    ensures
        same_units(old(buffer).info@, final(buffer).info@),
        old(buffer).has_broken_syllable ==> final(buffer).has_broken_syllable,
        match use_table_error() {
            None => {
                &&& done is Ok
                &&& use_scanned(old(buffer).info@, final(buffer).info@)
                &&& final(buffer).has_broken_syllable == (old(buffer).has_broken_syllable
                    || use_broken(old(buffer).info@))
            },
            Some(error) => {
                &&& done == Err::<(), TableError>(error)
                &&& final(buffer).info@ == old(buffer).info@
                &&& final(buffer).has_broken_syllable == old(buffer).has_broken_syllable
            },
        },
{
    match UseMachine::load() {
        Ok(machine) => {
            machine.find_syllables(buffer);
            Ok(())
        },
        Err(error) => Err(error),
    }
}

} // verus!
