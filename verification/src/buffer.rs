//! The text buffer a scan works on: classified units with a tag each, and one
//! sticky flag.
use vstd::prelude::*;

verus! {

/// One classified text unit.
#[derive(Clone, Copy, Debug, PartialEq, Eq, Structural)]
pub struct GlyphInfo {
    /// The category code the classifier gave this unit.
    pub category: u8,
    /// Whether the unit is a Unicode combining mark.
    pub unicode_mark: bool,
    /// The syllable tag a scan stamps on this unit.
    pub syllable: u8,
}

/// An ordered run of text units, with the flag that records that some scan
/// has committed a broken cluster.
#[derive(Debug)]
pub struct Buffer {
    /// The units, in text order.
    pub info: Vec<GlyphInfo>,
    /// Whether a broken cluster has been committed. A scan raises the flag
    /// and never clears it.
    pub has_broken_syllable: bool,
}

/// The category codes of `info`, in order.
pub open spec fn categories_of(info: Seq<GlyphInfo>) -> Seq<u8> {
    Seq::new(info.len(), |i: int| info[i].category)
}

/// The syllable tags of `info`, in order.
pub open spec fn syllables_of(info: Seq<GlyphInfo>) -> Seq<u8> {
    Seq::new(info.len(), |i: int| info[i].syllable)
}

/// `after` differs from `before` in the syllable tags at most.
pub open spec fn same_units(before: Seq<GlyphInfo>, after: Seq<GlyphInfo>) -> bool {
    &&& after.len() == before.len()
    &&& forall|i: int|
        0 <= i < before.len() ==> (#[trigger] after[i]).category == before[i].category
            && after[i].unicode_mark == before[i].unicode_mark
}

impl GlyphInfo {
    /// A unit of the given category with no tag yet.
    pub fn new(category: u8, unicode_mark: bool) -> (g: GlyphInfo)
        ensures
            g.category == category,
            g.unicode_mark == unicode_mark,
            g.syllable == 0,
    {
        GlyphInfo { category, unicode_mark, syllable: 0 }
    }
}

impl Buffer {
    /// The category codes of the units.
    pub open spec fn categories(&self) -> Seq<u8> {
        categories_of(self.info@)
    }

    /// The syllable tags of the units.
    pub open spec fn syllables(&self) -> Seq<u8> {
        syllables_of(self.info@)
    }

    /// A buffer over `info` with the flag unset.
    pub fn new(info: Vec<GlyphInfo>) -> (b: Buffer)
        ensures
            b.info == info,
            !b.has_broken_syllable,
    {
        Buffer { info, has_broken_syllable: false }
    }

    /// The number of units.
    pub fn len(&self) -> (n: usize)
        ensures
            n == self.info@.len(),
    {
        self.info.len()
    }

    /// The category codes of the units, in order.
    pub fn category_codes(&self) -> (codes: Vec<u8>)
        ensures
            codes@ == self.categories(),
    {
        let mut codes: Vec<u8> = Vec::with_capacity(self.info.len());
        let mut i: usize = 0;
        while i < self.info.len()
            invariant
                i <= self.info@.len(),
                codes@ == self.categories().subrange(0, i as int),
            decreases self.info@.len() - i,
        {
            codes.push(self.info[i].category);
            assert(codes@ =~= self.categories().subrange(0, i + 1));
            i += 1;
        }
        assert(codes@ =~= self.categories());
        codes
    }

    /// Stamps `tag` on the unit at `i`.
    pub fn set_syllable(&mut self, i: usize, tag: u8)
        requires
            i < old(self).info@.len(),
        ensures
            final(self).info@ == old(self).info@.update(
                i as int,
                (GlyphInfo { syllable: tag, ..old(self).info@[i as int] }),
            ),
            final(self).has_broken_syllable == old(self).has_broken_syllable,
    {
        let unit = self.info[i];
        self.info[i] = GlyphInfo {
            category: unit.category,
            unicode_mark: unit.unicode_mark,
            syllable: tag,
        };
    }
}

} // verus!
