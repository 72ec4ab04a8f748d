//! The Indic syllable machine: the scan of a buffer with the Indic table.
use vstd::prelude::*;
use crate::binary_table::BinaryTable;
use crate::buffer::{categories_of, same_units, syllables_of, Buffer, GlyphInfo};
use crate::coverage::{holds, lemma_tiles_bounded, lemma_tiles_cover, tiles};
use crate::emitter::{
    emitted, has_kind, lemma_emitted_tag, lemma_emitted_tags_agree, lemma_emitted_units, raised,
    stamp, stamped,
};
use crate::engine::{scan_result, segments_of, Commit};
use crate::error::TableError;
use crate::flow::kinds_below;
use crate::indic_actions::{
    BROKEN_CLUSTER, CONSONANT_SYLLABLE, KINDS, NON_INDIC_CLUSTER, STANDALONE_CLUSTER,
    SYMBOL_CLUSTER, VOWEL_SYLLABLE,
};
use crate::indic_table::{indic_rules, indic_table};
use crate::machine::{table_error, Machine};
use crate::syllable::{
    advance_serial, lemma_serial_cycle, lemma_tag_byte_fields, next_serial, serial_at, tag_byte,
    valid_serial, SyllableTag, FIRST_SERIAL,
};

verus! {

/// The kinds of cluster the Indic machine commits.
#[derive(Clone, Copy, Debug, PartialEq, Eq, Structural)]
pub enum SyllableType {
    ConsonantSyllable,
    VowelSyllable,
    StandaloneCluster,
    SymbolCluster,
    BrokenCluster,
    NonIndicCluster,
}

impl SyllableType {
    /// The code of this kind in a syllable tag.
    pub open spec fn code_of(self) -> u8 {
        match self {
            SyllableType::ConsonantSyllable => CONSONANT_SYLLABLE,
            SyllableType::VowelSyllable => VOWEL_SYLLABLE,
            SyllableType::StandaloneCluster => STANDALONE_CLUSTER,
            SyllableType::SymbolCluster => SYMBOL_CLUSTER,
            SyllableType::BrokenCluster => BROKEN_CLUSTER,
            SyllableType::NonIndicCluster => NON_INDIC_CLUSTER,
        }
    }

    /// The code of this kind in a syllable tag.
    pub fn code(self) -> (code: u8)
        ensures
            code == self.code_of(),
            code <= NON_INDIC_CLUSTER,
    {
        match self {
            SyllableType::ConsonantSyllable => CONSONANT_SYLLABLE,
            SyllableType::VowelSyllable => VOWEL_SYLLABLE,
            SyllableType::StandaloneCluster => STANDALONE_CLUSTER,
            SyllableType::SymbolCluster => SYMBOL_CLUSTER,
            SyllableType::BrokenCluster => BROKEN_CLUSTER,
            SyllableType::NonIndicCluster => NON_INDIC_CLUSTER,
        }
    }

    /// The kind with the given code, if there is one.
    pub fn from_code(code: u8) -> (kind: Option<SyllableType>)
        ensures
            match kind {
                Some(k) => k.code_of() == code,
                None => code > NON_INDIC_CLUSTER,
            },
    {
        if code == CONSONANT_SYLLABLE {
            Some(SyllableType::ConsonantSyllable)
        } else if code == VOWEL_SYLLABLE {
            Some(SyllableType::VowelSyllable)
        } else if code == STANDALONE_CLUSTER {
            Some(SyllableType::StandaloneCluster)
        } else if code == SYMBOL_CLUSTER {
            Some(SyllableType::SymbolCluster)
        } else if code == BROKEN_CLUSTER {
            Some(SyllableType::BrokenCluster)
        } else if code == NON_INDIC_CLUSTER {
            Some(SyllableType::NonIndicCluster)
        } else {
            None
        }
    }
}

/// Why the Indic table is unfit for scanning, if it is.
pub open spec fn indic_table_error() -> Option<TableError> {
    table_error(&indic_rules(), KINDS)
}

/// What a scan of `info` with the Indic table leaves in `after`: the
/// clusters of the scan cover the units, they are of the kinds of this
/// machine, and every unit carries the tag of its cluster.
pub open spec fn indic_scanned(info: Seq<GlyphInfo>, after: Seq<GlyphInfo>) -> bool {
    &&& scan_result(&indic_rules(), categories_of(info)) matches Some(segments)
    &&& tiles(segments, info.len() as int)
    &&& kinds_below(segments, KINDS)
    &&& after == emitted(info, segments, 0)
}

/// Whether a scan of `info` with the Indic table commits a broken cluster.
pub open spec fn indic_broken(info: Seq<GlyphInfo>) -> bool {
    scan_result(&indic_rules(), categories_of(info)) matches Some(segments)
        && has_kind(segments, BROKEN_CLUSTER)
}

/// Commits the cluster `start .. end`: stamps the tag of `syllable_serial`
/// and `kind` on its units, moves the serial number on, and raises the
/// buffer's flag where the cluster is broken. An empty cluster changes no
/// unit and still takes a serial number.
pub fn found_syllable(
    start: usize,
    end: usize,
    syllable_serial: &mut u8,
    kind: SyllableType,
    buffer: &mut Buffer,
)
    requires
        start <= end <= old(buffer).info@.len(),
        valid_serial(*old(syllable_serial)),
    ensures
        final(buffer).info@ == stamped(
            old(buffer).info@,
            start as int,
            end as int,
            tag_byte(*old(syllable_serial), kind.code_of()),
        ),
        *final(syllable_serial) == next_serial(*old(syllable_serial)),
        valid_serial(*final(syllable_serial)),
        final(buffer).has_broken_syllable == (old(buffer).has_broken_syllable
            || kind == SyllableType::BrokenCluster),
{
    let tag = SyllableTag { serial: *syllable_serial, kind: kind.code() };
    stamp(buffer, start, end, tag.pack());
    *syllable_serial = advance_serial(*syllable_serial);
    if kind.code() == BROKEN_CLUSTER {
        buffer.has_broken_syllable = true;
    }
}

/// Stamps the clusters of a scan on the buffer, in order, with serial
/// numbers from the first on.
fn emit_all(commits: &Vec<Commit>, buffer: &mut Buffer)
    requires
        tiles(segments_of(commits@), old(buffer).info@.len() as int),
        kinds_below(segments_of(commits@), KINDS),
    ensures
        final(buffer).info@ == emitted(old(buffer).info@, segments_of(commits@), 0),
        final(buffer).has_broken_syllable == (old(buffer).has_broken_syllable || has_kind(
            segments_of(commits@),
            BROKEN_CLUSTER,
        )),
{
    let ghost segments = segments_of(commits@);
    let ghost n = buffer.info@.len() as int;
    let mut serial: u8 = FIRST_SERIAL;
    let mut i: usize = 0;
    while i < commits.len()
        invariant
            i <= commits@.len(),
            segments == segments_of(commits@),
            tiles(segments, n),
            kinds_below(segments, KINDS),
            buffer.info@.len() == n,
            serial == serial_at(i as nat),
            emitted(old(buffer).info@, segments, 0) == emitted(buffer.info@, segments, i as int),
            buffer.has_broken_syllable == raised(
                old(buffer).has_broken_syllable,
                segments,
                i as int,
                BROKEN_CLUSTER,
            ),
        decreases commits@.len() - i,
    {
        let commit = commits[i];
        proof {
            lemma_tiles_bounded(segments, n, i as int);
            lemma_serial_cycle(i as nat);
            assert(segments[i as int] == commit@);
        }
        let kind = SyllableType::from_code(commit.kind).unwrap();
        found_syllable(commit.start, commit.end, &mut serial, kind, buffer);
        i += 1;
    }
}

/// The Indic syllable machine, loaded and checked: a scan with it cannot
/// fail.
pub struct IndicMachine {
    machine: Machine<BinaryTable>,
}

impl IndicMachine {
    #[verifier::type_invariant]
    spec fn sound(&self) -> bool {
        &&& self.machine.table@ == indic_rules()
        &&& self.machine.kinds == KINDS
        &&& self.machine.wf()
    }

    /// Loads the Indic table and checks its shape and its flow.
    pub fn load() -> (machine: Result<IndicMachine, TableError>)
        ensures
            match machine {
                Ok(_) => indic_table_error() is None,
                Err(error) => indic_table_error() == Some(error),
            },
    {
        match Machine::new(indic_table(), KINDS) {
            Ok(machine) => Ok(IndicMachine { machine }),
            Err(error) => Err(error),
        }
    }

    /// Finds the syllables of an Indic text: scans the categories of the
    /// units of `buffer` and stamps on every unit the tag of the cluster
    /// that holds it. The clusters cover the buffer, so every unit gets a
    /// tag, whatever it carried before. The buffer's flag is raised where a
    /// broken cluster was committed, and never cleared.
    pub fn find_syllables(&self, buffer: &mut Buffer)
        ensures
            indic_table_error() is None,
            same_units(old(buffer).info@, final(buffer).info@),
            indic_scanned(old(buffer).info@, final(buffer).info@),
            final(buffer).has_broken_syllable == (old(buffer).has_broken_syllable || indic_broken(
                old(buffer).info@,
            )),
    {
        proof {
            use_type_invariant(self);
        }
        let categories = buffer.category_codes();
        let commits = self.machine.scan(&categories);
        proof {
            lemma_emitted_units(buffer.info@, segments_of(commits@), 0);
        }
        emit_all(&commits, buffer);
    }
}

/// Coverage and serial numbers: after a scan, every unit carries the tag
/// of the one cluster that holds it, made of the serial number of that
/// cluster, which is never zero, and of its kind.
pub proof fn lemma_indic_tags(info: Seq<GlyphInfo>, after: Seq<GlyphInfo>, p: int) -> (i: int)
    requires
        indic_scanned(info, after),
        0 <= p < info.len(),
    ensures
        scan_result(&indic_rules(), categories_of(info)) matches Some(segments) && 0 <= i
            < segments.len() && holds(segments[i], p) && after[p].syllable
            == tag_byte(serial_at(i as nat), segments[i].kind) && after[p].syllable / 16
            == serial_at(i as nat) && after[p].syllable % 16 == segments[i].kind,
{
    let segments = scan_result(&indic_rules(), categories_of(info))->0;
    let i = lemma_tiles_cover(segments, info.len() as int, p);
    lemma_emitted_tag(info, segments, i, p);
    lemma_serial_cycle(i as nat);
    lemma_tag_byte_fields(serial_at(i as nat), segments[i].kind);
    i
}

/// Determinism: two scans of the same categories leave the same tags,
/// whatever tags the units carried before, and commit a broken cluster in
/// the one as in the other, so from equal flags they leave equal flags.
pub proof fn lemma_indic_deterministic(
    first: Seq<GlyphInfo>,
    second: Seq<GlyphInfo>,
    first_after: Seq<GlyphInfo>,
    second_after: Seq<GlyphInfo>,
)
    requires
        categories_of(first) == categories_of(second),
        indic_scanned(first, first_after),
        indic_scanned(second, second_after),
    ensures
        syllables_of(first_after) == syllables_of(second_after),
        indic_broken(first) == indic_broken(second),
{
    let segments = scan_result(&indic_rules(), categories_of(first))->0;
    assert(first.len() == categories_of(first).len());
    assert(second.len() == categories_of(second).len());
    lemma_emitted_tags_agree(first, second, segments);
}

/// Finds the syllables of an Indic text: loads the Indic machine and scans
/// `buffer` with it. Where the table is refused, the buffer is left as it
/// was.
pub fn find_syllables_indic(buffer: &mut Buffer) -> (done: Result<(), TableError>)
    ensures
        same_units(old(buffer).info@, final(buffer).info@),
        old(buffer).has_broken_syllable ==> final(buffer).has_broken_syllable,
        match indic_table_error() {
            None => {
                &&& done is Ok
                &&& indic_scanned(old(buffer).info@, final(buffer).info@)
                &&& final(buffer).has_broken_syllable == (old(buffer).has_broken_syllable
                    || indic_broken(old(buffer).info@))
            },
            Some(error) => {
                &&& done == Err::<(), TableError>(error)
                &&& final(buffer).info@ == old(buffer).info@
                &&& final(buffer).has_broken_syllable == old(buffer).has_broken_syllable
            },
        },
{
    match IndicMachine::load() {
        Ok(machine) => {
            machine.find_syllables(buffer);
            Ok(())
        },
        Err(error) => Err(error),
    }
}

} // verus!
