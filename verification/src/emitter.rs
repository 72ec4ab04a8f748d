//! Writing committed clusters onto the units of a buffer: every unit of a
//! cluster gets the tag made of the cluster's serial number and kind.
use vstd::prelude::*;
use crate::buffer::{same_units, syllables_of, Buffer, GlyphInfo};
use crate::coverage::{
    holds, lemma_tiles_bounded, lemma_tiles_cover, lemma_tiles_disjoint, lemma_tiles_ordered, tiles,
};
use crate::engine::Segment;
use crate::syllable::{serial_at, tag_byte};

verus! {

/// The unit `unit` with `tag` as its syllable tag.
pub open spec fn tagged(unit: GlyphInfo, tag: u8) -> GlyphInfo {
    GlyphInfo { syllable: tag, ..unit }
}

/// `info` with `tag` on the units `start .. end`.
pub open spec fn stamped(info: Seq<GlyphInfo>, start: int, end: int, tag: u8) -> Seq<GlyphInfo> {
    Seq::new(
        info.len(),
        |p: int|
            if start <= p < end {
                tagged(info[p], tag)
            } else {
                info[p]
            },
    )
}

/// The tag of the segment with index `i`: the serial number of the commit
/// with that index, and the kind of the segment.
pub open spec fn segment_tag(segments: Seq<Segment>, i: int) -> u8 {
    tag_byte(serial_at(i as nat), segments[i].kind)
}

/// `info` after the segments `segments[from ..]` have been stamped on it,
/// one after the other.
pub open spec fn emitted(info: Seq<GlyphInfo>, segments: Seq<Segment>, from: int) -> Seq<
    GlyphInfo,
>
    decreases segments.len() - from,
{
    if from < 0 || from >= segments.len() {
        info
    } else {
        emitted(
            stamped(info, segments[from].start, segments[from].end, segment_tag(segments, from)),
            segments,
            from + 1,
        )
    }
}

/// Whether one of `segments` is of kind `kind`.
pub open spec fn has_kind(segments: Seq<Segment>, kind: u8) -> bool {
    exists|i: int| 0 <= i < segments.len() && (#[trigger] segments[i]).kind == kind
}

/// The flag of a buffer after the first `upto` segments of a scan have been
/// emitted: raised where it was raised before the scan, or where one of
/// those segments is of the kind `broken`.
pub open spec fn raised(before: bool, segments: Seq<Segment>, upto: int, broken: u8) -> bool {
    before || exists|i: int| 0 <= i < upto && i < segments.len() && (#[trigger] segments[i]).kind
        == broken
}

/// The flag is sticky: once it is raised, before a scan or by a segment of
/// the scan, it stays raised whatever segments follow.
pub proof fn lemma_raised_stays(
    before: bool,
    segments: Seq<Segment>,
    upto: int,
    later: int,
    broken: u8,
)
    requires
        upto <= later,
        raised(before, segments, upto, broken),
    ensures
        raised(before, segments, later, broken),
        before ==> raised(before, segments, upto, broken),
        raised(before, segments, segments.len() as int, broken) == (before || has_kind(
            segments,
            broken,
        )),
{
    if !before {
        let i = choose|i: int|
            0 <= i < upto && i < segments.len() && (#[trigger] segments[i]).kind == broken;
        assert(segments[i].kind == broken);
    }
}

/// Stamps `tag` on the units `start .. end` of `buffer`.
pub fn stamp(buffer: &mut Buffer, start: usize, end: usize, tag: u8)
    requires
        start <= end <= old(buffer).info@.len(),
    ensures
        final(buffer).info@ == stamped(old(buffer).info@, start as int, end as int, tag),
        final(buffer).has_broken_syllable == old(buffer).has_broken_syllable,
{
    let mut p: usize = start;
    while p < end
        invariant
            start <= p <= end <= buffer.info@.len(),
            buffer.info@ == stamped(old(buffer).info@, start as int, p as int, tag),
            buffer.has_broken_syllable == old(buffer).has_broken_syllable,
        decreases end - p,
    {
        buffer.set_syllable(p, tag);
        assert(buffer.info@ =~= stamped(old(buffer).info@, start as int, p + 1, tag));
        p += 1;
    }
    assert(buffer.info@ =~= stamped(old(buffer).info@, start as int, end as int, tag));
}

/// Stamping changes nothing but syllable tags.
pub proof fn lemma_emitted_units(info: Seq<GlyphInfo>, segments: Seq<Segment>, from: int)
    ensures
        same_units(info, emitted(info, segments, from)),
    decreases segments.len() - from,
{
    if 0 <= from < segments.len() {
        let next = stamped(
            info,
            segments[from].start,
            segments[from].end,
            segment_tag(segments, from),
        );
        lemma_emitted_units(next, segments, from + 1);
    }
}

/// A unit that none of the segments `segments[from ..]` holds keeps its tag.
pub proof fn lemma_emitted_elsewhere(
    info: Seq<GlyphInfo>,
    segments: Seq<Segment>,
    from: int,
    p: int,
)
    requires
        0 <= p < info.len(),
        forall|j: int| from <= j < segments.len() && 0 <= j ==> !holds(#[trigger] segments[j], p),
    ensures
        emitted(info, segments, from)[p] == info[p],
    decreases segments.len() - from,
{
    lemma_emitted_units(info, segments, from);
    if 0 <= from < segments.len() {
        let next = stamped(
            info,
            segments[from].start,
            segments[from].end,
            segment_tag(segments, from),
        );
        assert(!holds(segments[from], p));
        lemma_emitted_elsewhere(next, segments, from + 1, p);
    }
}

/// The tags of a scan: where the segments tile the units, every unit ends
/// with the tag of the one segment that holds it, whatever tag it had
/// before. The serial number in it is that of the segment's commit, so the
/// serial numbers run 1, 2, ..., 15, 1, 2, ... whatever the kinds are.
pub proof fn lemma_emitted_tag(info: Seq<GlyphInfo>, segments: Seq<Segment>, i: int, p: int)
    requires
        tiles(segments, info.len() as int),
        0 <= i < segments.len(),
        holds(segments[i], p),
    ensures
        0 <= p < info.len(),
        emitted(info, segments, 0)[p] == tagged(info[p], segment_tag(segments, i)),
{
    lemma_tiles_bounded(segments, info.len() as int, i);
    lemma_emitted_tag_from(info, segments, 0, i, p);
}

/// The step of `lemma_emitted_tag`: the same, for the segments from `from`
/// on.
proof fn lemma_emitted_tag_from(
    info: Seq<GlyphInfo>,
    segments: Seq<Segment>,
    from: int,
    i: int,
    p: int,
)
    requires
        tiles(segments, segments.last().end),
        0 <= from <= i < segments.len(),
        0 <= p < info.len(),
        holds(segments[i], p),
    ensures
        emitted(info, segments, from)[p] == tagged(info[p], segment_tag(segments, i)),
    decreases i - from,
{
    let to = segments.last().end;
    let next = stamped(info, segments[from].start, segments[from].end, segment_tag(segments, from));
    if from < i {
        lemma_tiles_ordered(segments, to, from, i);
        assert(!holds(segments[from], p));
        lemma_emitted_tag_from(next, segments, from + 1, i, p);
    } else {
        assert forall|j: int| i + 1 <= j < segments.len() && 0 <= j implies !holds(
            #[trigger] segments[j],
            p,
        ) by {
            lemma_tiles_ordered(segments, to, i, j);
        }
        lemma_emitted_elsewhere(next, segments, i + 1, p);
    }
}

/// The tags of a scan depend on its segments alone: where the segments tile
/// the units, two buffers of the same length end with the same tags,
/// whatever tags they had before.
pub proof fn lemma_emitted_tags_agree(
    a: Seq<GlyphInfo>,
    b: Seq<GlyphInfo>,
    segments: Seq<Segment>,
)
    requires
        a.len() == b.len(),
        tiles(segments, a.len() as int),
    ensures
        syllables_of(emitted(a, segments, 0)) == syllables_of(emitted(b, segments, 0)),
{
    lemma_emitted_units(a, segments, 0);
    lemma_emitted_units(b, segments, 0);
    let left = syllables_of(emitted(a, segments, 0));
    let right = syllables_of(emitted(b, segments, 0));
    assert forall|p: int| 0 <= p < left.len() implies left[p] == right[p] by {
        let i = lemma_tiles_cover(segments, a.len() as int, p);
        lemma_emitted_tag(a, segments, i, p);
        lemma_emitted_tag(b, segments, i, p);
    }
    assert(left =~= right);
}

/// Each position is larger than the one before it.
pub open spec fn increasing(positions: Seq<usize>) -> bool {
    forall|p: int, q: int|
        0 <= p < q < positions.len() ==> #[trigger] positions[p] < #[trigger] positions[q]
}

/// The positions are units of a buffer of `n` units, in ascending order.
pub open spec fn ascending(positions: Seq<usize>, n: int) -> bool {
    &&& forall|p: int| 0 <= p < positions.len() ==> #[trigger] positions[p] < n
    &&& increasing(positions)
}

/// Whether unit `r` is one of the units `positions[start .. end]`.
pub open spec fn reaches(positions: Seq<usize>, start: int, end: int, r: int) -> bool {
    exists|p: int| start <= p < end && 0 <= p < positions.len() && #[trigger] positions[p] == r
}

/// `info` with `tag` on the units `positions[start .. end]`.
pub open spec fn stamped_through(
    info: Seq<GlyphInfo>,
    positions: Seq<usize>,
    start: int,
    end: int,
    tag: u8,
) -> Seq<GlyphInfo> {
    Seq::new(
        info.len(),
        |r: int|
            if reaches(positions, start, end, r) {
                tagged(info[r], tag)
            } else {
                info[r]
            },
    )
}

/// `info` after the segments `segments[from ..]`, which are intervals of
/// `positions`, have been stamped on it, one after the other.
pub open spec fn emitted_through(
    info: Seq<GlyphInfo>,
    positions: Seq<usize>,
    segments: Seq<Segment>,
    from: int,
) -> Seq<GlyphInfo>
    decreases segments.len() - from,
{
    if from < 0 || from >= segments.len() {
        info
    } else {
        emitted_through(
            stamped_through(
                info,
                positions,
                segments[from].start,
                segments[from].end,
                segment_tag(segments, from),
            ),
            positions,
            segments,
            from + 1,
        )
    }
}

/// Stamps `tag` on the units `positions[start .. end]` of `buffer`.
pub fn stamp_through(buffer: &mut Buffer, positions: &Vec<usize>, start: usize, end: usize, tag: u8)
    requires
        start <= end <= positions@.len(),
        forall|p: int| start <= p < end ==> #[trigger] positions@[p] < old(buffer).info@.len(),
    ensures
        final(buffer).info@ == stamped_through(
            old(buffer).info@,
            positions@,
            start as int,
            end as int,
            tag,
        ),
        final(buffer).has_broken_syllable == old(buffer).has_broken_syllable,
{
    assert(buffer.info@ =~= stamped_through(
        old(buffer).info@,
        positions@,
        start as int,
        start as int,
        tag,
    ));
    let mut p: usize = start;
    while p < end
        invariant
            start <= p <= end <= positions@.len(),
            forall|q: int| start <= q < end ==> #[trigger] positions@[q] < old(buffer).info@.len(),
            buffer.info@ == stamped_through(
                old(buffer).info@,
                positions@,
                start as int,
                p as int,
                tag,
            ),
            buffer.has_broken_syllable == old(buffer).has_broken_syllable,
        decreases end - p,
    {
        let ghost before = buffer.info@;
        let unit: usize = positions[p];
        buffer.set_syllable(unit, tag);
        proof {
            let after = stamped_through(old(buffer).info@, positions@, start as int, p + 1, tag);
            assert forall|r: int| 0 <= r < after.len() implies buffer.info@[r] == after[r] by {
                if r == unit {
                    assert(positions@[p as int] == r);
                    assert(reaches(positions@, start as int, p + 1, r));
                } else if reaches(positions@, start as int, p + 1, r) {
                    let q = choose|q: int|
                        start <= q < p + 1 && 0 <= q < positions@.len() && #[trigger] positions@[q]
                            == r;
                    assert(positions@[q] == r);
                    assert(reaches(positions@, start as int, p as int, r));
                }
            }
            assert(buffer.info@ =~= after);
        }
        p += 1;
    }
}

/// Stamping through positions changes nothing but syllable tags.
pub proof fn lemma_emitted_through_units(
    info: Seq<GlyphInfo>,
    positions: Seq<usize>,
    segments: Seq<Segment>,
    from: int,
)
    ensures
        same_units(info, emitted_through(info, positions, segments, from)),
    decreases segments.len() - from,
{
    if 0 <= from < segments.len() {
        let next = stamped_through(
            info,
            positions,
            segments[from].start,
            segments[from].end,
            segment_tag(segments, from),
        );
        lemma_emitted_through_units(next, positions, segments, from + 1);
    }
}

/// A unit that none of the segments `segments[from ..]` reaches keeps its
/// tag.
pub proof fn lemma_emitted_through_elsewhere(
    info: Seq<GlyphInfo>,
    positions: Seq<usize>,
    segments: Seq<Segment>,
    from: int,
    r: int,
)
    requires
        0 <= r < info.len(),
        forall|j: int|
            from <= j < segments.len() && 0 <= j ==> !reaches(
                positions,
                (#[trigger] segments[j]).start,
                segments[j].end,
                r,
            ),
    ensures
        emitted_through(info, positions, segments, from)[r] == info[r],
    decreases segments.len() - from,
{
    if 0 <= from < segments.len() {
        let next = stamped_through(
            info,
            positions,
            segments[from].start,
            segments[from].end,
            segment_tag(segments, from),
        );
        assert(!reaches(positions, segments[from].start, segments[from].end, r));
        lemma_emitted_through_elsewhere(next, positions, segments, from + 1, r);
    }
}

/// A unit that is not among the positions keeps its tag.
pub proof fn lemma_emitted_through_skips(
    info: Seq<GlyphInfo>,
    positions: Seq<usize>,
    segments: Seq<Segment>,
    r: int,
)
    requires
        0 <= r < info.len(),
        forall|p: int| 0 <= p < positions.len() ==> #[trigger] positions[p] != r,
    ensures
        emitted_through(info, positions, segments, 0)[r] == info[r],
{
    lemma_emitted_through_elsewhere(info, positions, segments, 0, r);
}

/// The tags of a scan over positions: where the segments tile the
/// positions, the unit at every position ends with the tag of the one
/// segment that holds the position, whatever tag it had before.
pub proof fn lemma_emitted_through_tag(
    info: Seq<GlyphInfo>,
    positions: Seq<usize>,
    segments: Seq<Segment>,
    i: int,
    p: int,
)
    requires
        ascending(positions, info.len() as int),
        tiles(segments, positions.len() as int),
        0 <= i < segments.len(),
        holds(segments[i], p),
    ensures
        0 <= p < positions.len(),
        emitted_through(info, positions, segments, 0)[positions[p] as int] == tagged(
            info[positions[p] as int],
            segment_tag(segments, i),
        ),
{
    lemma_tiles_bounded(segments, positions.len() as int, i);
    lemma_emitted_through_tag_from(info, positions, segments, 0, i, p);
}

/// The tags that a scan over positions stamps depend on its segments
/// alone: where the segments tile the positions, the units at the positions
/// of two buffers of the same length end with the same tags, whatever tags
/// they had before.
pub proof fn lemma_emitted_through_tags_agree(
    a: Seq<GlyphInfo>,
    b: Seq<GlyphInfo>,
    positions: Seq<usize>,
    segments: Seq<Segment>,
    p: int,
)
    requires
        a.len() == b.len(),
        ascending(positions, a.len() as int),
        tiles(segments, positions.len() as int),
        0 <= p < positions.len(),
    ensures
        emitted_through(a, positions, segments, 0)[positions[p] as int].syllable
            == emitted_through(b, positions, segments, 0)[positions[p] as int].syllable,
{
    let i = lemma_tiles_cover(segments, positions.len() as int, p);
    lemma_emitted_through_tag(a, positions, segments, i, p);
    lemma_emitted_through_tag(b, positions, segments, i, p);
}

/// No segment but the one that holds a position reaches the unit there.
proof fn lemma_reached_once(positions: Seq<usize>, segments: Seq<Segment>, i: int, j: int, p: int)
    requires
        increasing(positions),
        tiles(segments, segments.last().end),
        0 <= i < segments.len(),
        0 <= j < segments.len(),
        i != j,
        0 <= p < positions.len(),
        holds(segments[i], p),
    ensures
        !reaches(positions, segments[j].start, segments[j].end, positions[p] as int),
{
    let to = segments.last().end;
    if reaches(positions, segments[j].start, segments[j].end, positions[p] as int) {
        let q = choose|q: int|
            segments[j].start <= q < segments[j].end && 0 <= q < positions.len()
                && #[trigger] positions[q] == positions[p] as int;
        if q < p {
            assert(positions[q] < positions[p]);
        } else if p < q {
            assert(positions[p] < positions[q]);
        }
        lemma_tiles_disjoint(segments, to, i, j, p);
    }
}

/// The step of `lemma_emitted_through_tag`: the same, for the segments from
/// `from` on.
proof fn lemma_emitted_through_tag_from(
    info: Seq<GlyphInfo>,
    positions: Seq<usize>,
    segments: Seq<Segment>,
    from: int,
    i: int,
    p: int,
)
    requires
        ascending(positions, info.len() as int),
        tiles(segments, segments.last().end),
        0 <= from <= i < segments.len(),
        0 <= p < positions.len(),
        holds(segments[i], p),
    ensures
        emitted_through(info, positions, segments, from)[positions[p] as int] == tagged(
            info[positions[p] as int],
            segment_tag(segments, i),
        ),
    decreases i - from,
{
    let r = positions[p] as int;
    let next = stamped_through(
        info,
        positions,
        segments[from].start,
        segments[from].end,
        segment_tag(segments, from),
    );
    if from < i {
        lemma_reached_once(positions, segments, i, from, p);
        lemma_emitted_through_tag_from(next, positions, segments, from + 1, i, p);
    } else {
        assert(reaches(positions, segments[i].start, segments[i].end, r));
        assert forall|j: int| i + 1 <= j < segments.len() && 0 <= j implies !reaches(
            positions,
            (#[trigger] segments[j]).start,
            segments[j].end,
            r,
        ) by {
            lemma_reached_once(positions, segments, i, j, p);
        }
        lemma_emitted_through_elsewhere(next, positions, segments, i + 1, r);
    }
}

} // verus!
