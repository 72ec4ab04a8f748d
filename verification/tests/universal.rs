use syllable_machine::buffer::{Buffer, GlyphInfo};
use syllable_machine::engine::{advance, Commit, Cursor, Step};
use syllable_machine::use_machine::{
    find_syllables, found_syllable, included, included_units, not_ccs_default_ignorable,
    SyllableType, UseMachine, CGJ, ZWNJ,
};
use syllable_machine::automaton::Action;
use syllable_machine::use_actions::load_programs;
use syllable_machine::use_table::use_table;

fn buffer_of(categories: &[u8]) -> Buffer {
    Buffer::new(categories.iter().map(|&c| GlyphInfo::new(c, false)).collect())
}

fn buffer_with_marks(units: &[(u8, bool)]) -> Buffer {
    Buffer::new(units.iter().map(|&(c, m)| GlyphInfo::new(c, m)).collect())
}

fn tags(buffer: &Buffer) -> Vec<u8> {
    buffer.info.iter().map(|g| g.syllable).collect()
}

fn tag(serial: u8, kind: SyllableType) -> u8 {
    (serial << 4) | kind.code()
}

// Inputs with the tags and the flag that a scan must leave.
const USE_CASES: &[(&[(u8, bool)], &[u8], bool)] = &[
    (&[(4, true), (0, false), (31, false), (41, false), (1, true), (34, false), (37, false), (43, true), (30, false), (29, false), (31, false), (49, false), (45, true), (28, true), (99, false), (52, true), (1, false), (26, false), (35, true), (34, true), (43, true), (51, false), (29, false), (41, false), (33, false), (1, false), (1, true), (53, false), (14, true), (30, false), (28, true), (51, false), (39, true), (6, false), (44, false), (48, true), (54, false), (18, false), (39, true), (1, true)], &[21, 38, 38, 56, 67, 67, 67, 89, 104, 104, 120, 135, 152, 168, 185, 201, 211, 211, 232, 248, 25, 39, 56, 72, 88, 99, 115, 115, 115, 136, 136, 151, 168, 0, 184, 200, 217, 232, 232, 243], true),
    (&[(18, true), (39, false), (1, false), (22, false), (1, true), (39, false), (30, true), (23, false), (37, false), (1, false), (29, true), (18, false), (27, false), (53, false), (1, false), (14, true), (38, true), (34, false), (11, false), (45, false)], &[24, 24, 35, 35, 51, 51, 72, 72, 72, 83, 83, 104, 104, 104, 115, 0, 115, 136, 152, 152], true),
    (&[(52, true), (14, true), (1, false), (46, true), (18, true), (47, false), (41, false), (31, false), (12, false), (11, false), (6, true), (53, true), (13, false), (38, false), (45, true), (6, false), (6, false), (27, false), (6, false), (38, false), (37, true)], &[25, 40, 51, 51, 72, 72, 88, 104, 104, 120, 0, 120, 136, 152, 152, 0, 0, 168, 0, 168, 184], true),
    (&[(1, false), (23, true), (53, false), (23, true), (1, false), (24, true), (41, false), (32, true), (44, true), (42, true), (54, false), (23, true), (30, false), (49, false), (33, true), (27, false), (37, true), (52, true), (14, false), (26, false)], &[19, 19, 40, 40, 51, 51, 72, 88, 88, 104, 121, 136, 152, 167, 184, 200, 200, 217, 232, 248], true),
    (&[(22, true)], &[24], true),
    (&[(33, true), (50, false), (31, true), (51, true), (6, false), (99, false)], &[24, 41, 56, 71, 0, 89], true),
    (&[(50, false), (14, false), (50, true), (1, true), (46, true), (12, false), (28, true), (48, false), (28, false), (52, false), (14, false), (50, false), (35, false), (99, true), (0, true), (30, true), (29, true), (32, true), (34, false), (33, false), (43, true), (39, false)], &[25, 0, 41, 51, 51, 72, 88, 88, 104, 121, 136, 153, 168, 185, 198, 198, 198, 216, 216, 232, 249, 24], true),
    (&[(13, false), (22, false), (53, false), (18, true), (47, true), (25, false), (0, false)], &[24, 40, 40, 56, 56, 72, 86], true),
    (&[(42, true), (43, false), (99, false), (99, false), (99, true), (99, false), (38, false), (49, true), (54, false), (42, false)], &[24, 41, 57, 73, 89, 105, 120, 135, 153, 168], true),
    (&[(31, false), (44, true), (46, false), (48, false), (1, false), (1, false), (1, false), (99, true), (26, false)], &[24, 24, 40, 56, 56, 67, 83, 105, 120], true),
    (&[(28, true), (45, true), (53, false), (44, false), (29, false), (46, false), (32, false), (54, false), (27, true), (39, true), (38, false), (6, true), (11, false), (38, false), (49, true), (22, false), (11, false)], &[24, 24, 40, 56, 72, 72, 88, 105, 120, 120, 136, 0, 152, 152, 167, 184, 200], true),
    (&[(14, false), (33, true), (27, true), (6, false), (33, false), (23, true), (6, true), (1, false), (43, false)], &[0, 24, 40, 0, 40, 40, 0, 51, 73], true),
    (&[(47, false), (18, false), (22, true), (6, true), (18, true), (14, false), (32, false), (39, false), (39, false), (38, false), (46, false), (46, false), (38, false)], &[24, 40, 40, 0, 56, 56, 72, 72, 72, 88, 88, 88, 104], true),
    (&[(25, false), (46, true)], &[24, 24], true),
    (&[(28, true), (14, false), (51, true), (5, true), (1, false), (31, true), (39, true), (25, false), (99, false), (35, true), (31, false), (14, true), (0, false), (35, false), (24, false), (29, true), (38, false), (1, true), (24, false)], &[24, 0, 39, 51, 67, 67, 67, 67, 89, 104, 120, 120, 134, 134, 134, 152, 152, 163, 163], true),
    (&[(49, false), (26, false), (13, false), (43, false), (49, false), (1, false), (38, true), (53, true), (49, true), (13, true), (48, false), (53, false), (4, true)], &[23, 40, 56, 73, 87, 99, 99, 120, 135, 152, 168, 184, 197], true),
    (&[(25, false), (39, false), (54, true), (48, false), (23, true), (6, false)], &[24, 40, 57, 72, 88, 0], true),
    (&[(0, false), (24, true), (6, false), (44, true), (31, false), (1, false), (99, false), (1, true)], &[22, 22, 0, 40, 56, 67, 89, 99], true),
    (&[(37, true), (14, false), (29, false), (6, false), (6, false)], &[24, 24, 40, 0, 0], true),
    (&[(37, false), (47, false), (43, true), (26, true), (0, false), (14, true), (33, false), (1, false), (51, true), (34, false), (54, true), (24, false), (39, true)], &[24, 24, 41, 56, 70, 70, 88, 99, 119, 136, 153, 168, 184], true),
    (&[(48, false), (32, false), (44, false), (26, true), (28, true), (1, true)], &[24, 40, 40, 56, 72, 83], true),
    (&[(6, false), (18, false), (42, false), (5, true), (35, true), (27, false), (34, false), (1, true), (26, true), (25, true), (43, false)], &[0, 24, 24, 35, 35, 56, 56, 67, 67, 88, 105], true),
    (&[(41, false), (14, true), (31, true), (14, true), (6, false), (26, false), (22, true), (43, false), (30, false), (48, false), (37, false), (1, true), (47, false), (51, false), (14, false), (0, false), (53, false), (53, true), (0, false), (26, true), (30, false)], &[24, 0, 40, 40, 0, 56, 72, 89, 104, 104, 120, 131, 131, 151, 151, 166, 166, 184, 198, 198, 216], true),
    (&[(0, true), (0, true), (33, false), (43, true), (48, false), (35, true), (25, false), (24, false), (22, false), (5, true), (22, false), (33, false), (31, false), (32, false), (51, true), (13, false), (22, false), (13, false)], &[22, 38, 38, 57, 72, 88, 88, 104, 120, 131, 131, 131, 152, 152, 167, 184, 200, 216], true),
    (&[], &[], false),
    (&[(6, false), (30, false)], &[0, 24], true),
    (&[(37, false), (39, true), (41, false), (34, true), (43, false), (11, false), (47, true), (22, true), (38, true), (42, true), (37, true), (50, false), (0, false)], &[24, 24, 40, 56, 73, 88, 88, 104, 104, 120, 136, 153, 166], true),
    (&[(50, true), (1, true), (43, false), (24, false), (11, true), (37, false), (25, true), (54, false), (27, true), (44, false), (18, true), (11, false), (46, true), (24, false), (31, false)], &[25, 35, 57, 72, 88, 88, 88, 105, 120, 136, 152, 152, 152, 168, 184], true),
    (&[(46, true), (49, false)], &[24, 39], true),
    (&[(50, true), (0, false), (28, true), (1, false), (18, true), (51, true), (5, false), (42, false), (41, false), (4, false), (33, false), (1, false), (31, true), (30, false), (14, false), (50, true), (35, false), (46, false), (12, true), (5, false), (32, false), (1, false), (26, false)], &[25, 38, 38, 51, 72, 87, 102, 102, 120, 133, 152, 163, 163, 163, 0, 185, 200, 200, 216, 227, 227, 243, 243], true),
    (&[(18, false), (4, false), (53, true), (23, false), (23, false), (31, false), (28, false), (22, true), (5, false), (6, false), (50, true), (11, true), (30, true), (22, false), (6, false), (50, false), (29, false), (14, true), (49, false), (23, false), (53, false), (53, true), (47, true)], &[24, 37, 56, 56, 56, 72, 72, 72, 83, 0, 105, 120, 120, 120, 0, 137, 152, 152, 167, 184, 200, 216, 216], true),
    (&[(27, false), (6, true), (51, true), (37, false), (11, false), (12, false), (24, false), (27, false), (13, true), (45, false), (28, false), (6, true), (49, false), (51, true), (23, true), (35, true), (5, true)], &[24, 0, 39, 56, 72, 72, 72, 88, 104, 120, 136, 0, 151, 167, 184, 200, 211], true),
    (&[(27, false), (14, false), (27, true), (25, true), (24, true), (49, false), (47, false), (47, false), (31, true), (34, true), (51, true), (27, false), (28, false), (47, false), (53, true), (13, true)], &[24, 0, 40, 40, 56, 71, 88, 104, 120, 120, 135, 152, 152, 152, 168, 184], true),
    (&[(46, true), (1, false), (32, false), (30, false), (54, false), (31, true), (0, false), (30, false), (12, true), (5, true), (35, true), (0, false), (39, false), (14, true), (44, false)], &[24, 35, 35, 35, 57, 72, 86, 86, 86, 99, 99, 118, 118, 118, 136], true),
    (&[(44, false), (5, true), (48, true), (99, false), (52, false), (51, true), (6, true), (33, false), (6, false), (48, true), (26, true), (4, true), (53, false), (1, true)], &[24, 34, 34, 57, 73, 87, 0, 104, 0, 104, 120, 133, 152, 152], true),
    (&[(49, false), (23, true), (38, false), (35, false), (1, true), (14, true), (26, false), (4, false), (6, true), (37, false), (25, false)], &[23, 40, 40, 56, 67, 67, 88, 101, 0, 120, 120], true),
    (&[(46, true), (28, true), (26, false), (48, true), (14, false), (35, false), (6, false), (54, false), (35, false), (46, false), (23, false), (35, false), (26, false), (33, false), (1, false), (39, true), (49, true), (45, true), (52, true)], &[24, 40, 40, 56, 56, 72, 0, 89, 104, 104, 120, 136, 136, 152, 163, 163, 183, 200, 217], true),
    (&[(12, false), (4, false), (33, false), (27, false), (31, true), (6, true), (47, false), (45, false), (48, false), (12, false), (4, true), (38, false), (5, false), (46, false), (33, false)], &[24, 37, 56, 72, 88, 0, 88, 104, 120, 136, 149, 168, 179, 179, 200], true),
    (&[(45, true), (14, false)], &[24, 24], true),
    (&[(51, false), (1, false), (28, true), (6, false), (4, false), (11, true), (0, false), (39, false), (37, false), (6, false), (23, true)], &[23, 35, 35, 0, 53, 72, 86, 86, 104, 0, 120], true),
    (&[(14, false), (11, true), (38, false), (24, true), (37, false), (14, false), (33, true), (1, false), (26, false), (53, false), (33, false), (51, false), (31, false), (14, false)], &[0, 24, 24, 24, 40, 0, 56, 67, 67, 88, 104, 119, 136, 136], true),
    (&[(0, true), (4, true), (27, true), (1, false), (30, false), (43, false), (14, false), (49, false), (5, false), (38, false), (51, false), (47, true), (47, true), (25, false), (22, true), (30, true), (46, false), (54, false)], &[22, 37, 56, 67, 67, 89, 104, 119, 131, 131, 151, 168, 184, 200, 216, 232, 232, 249], true),
    (&[(45, true), (5, false), (42, true), (42, false), (51, true), (49, true), (6, false), (29, true), (50, false), (4, true), (43, false), (53, false), (54, false), (46, false), (45, true), (30, false), (52, false), (54, false), (45, false), (49, true), (26, true), (26, false), (45, false)], &[24, 38, 38, 38, 55, 55, 0, 72, 89, 101, 121, 136, 153, 168, 184, 200, 217, 233, 248, 23, 40, 40, 40], true),
    (&[(23, true), (28, false), (27, false), (1, false)], &[24, 40, 56, 67], true),
    (&[(54, true), (14, false), (12, false), (5, true)], &[25, 40, 56, 67], true),
    (&[(28, true), (51, false), (25, true), (14, true), (12, true), (39, true), (6, false), (26, true), (43, false), (30, true), (34, true), (1, false), (23, false), (14, false), (54, false), (48, false), (46, false), (51, false), (27, false), (41, false), (31, false)], &[24, 39, 56, 0, 72, 72, 0, 72, 89, 104, 104, 115, 115, 115, 137, 152, 168, 183, 200, 216, 232], true),
    (&[(28, false), (14, false), (39, true), (45, false), (14, false), (54, false), (50, false), (46, false), (29, true), (41, false), (48, true), (12, false), (13, false), (18, true), (14, true), (33, false), (4, false), (33, true)], &[24, 0, 24, 24, 24, 41, 57, 72, 88, 104, 120, 136, 152, 168, 168, 184, 197, 216], true),
    (&[(41, false), (51, false), (52, false), (14, false), (1, true)], &[24, 39, 57, 0, 67], true),
    (&[(0, false), (6, true), (13, false), (0, false)], &[22, 0, 40, 54], true),
    (&[], &[], false),
    (&[(11, false)], &[24], true),
    (&[(39, false), (22, true), (41, false), (45, false), (31, false), (48, false), (12, true), (13, false), (30, true), (39, false), (99, true), (18, false), (41, true)], &[24, 40, 56, 72, 88, 88, 104, 120, 136, 136, 153, 168, 168], true),
    (&[(26, true), (37, false), (4, false), (37, true), (1, true), (50, false), (30, false), (41, false), (1, true), (31, true), (22, false), (14, true), (45, false), (43, false), (1, true), (41, true)], &[24, 40, 53, 72, 83, 105, 120, 136, 147, 147, 147, 147, 168, 179, 179, 200], true),
    (&[], &[], false),
    (&[(31, true), (35, true), (45, true)], &[24, 24, 24], true),
    (&[(28, false), (39, false), (31, false), (46, true), (31, false), (46, true), (18, false), (5, false), (4, true), (49, false), (1, false), (38, false), (6, false), (42, true), (50, false), (6, false), (22, false), (46, false), (35, true), (22, false)], &[24, 24, 40, 40, 56, 56, 67, 67, 85, 103, 115, 115, 0, 136, 153, 0, 168, 168, 184, 200], true),
    (&[(32, false), (14, true), (11, false), (28, true), (0, false), (22, false), (52, false), (32, true), (0, true), (1, false), (18, false), (1, false), (44, false), (29, false), (12, true), (29, false), (47, false), (42, false), (43, true), (1, true), (41, false), (6, true), (29, false), (0, true)], &[24, 24, 40, 40, 54, 54, 73, 88, 102, 115, 129, 129, 129, 152, 152, 168, 168, 184, 195, 195, 216, 0, 232, 246], true),
    (&[(4, false), (1, false), (14, true), (30, false), (1, false), (37, false), (37, true), (42, false), (25, true), (39, false), (29, false), (12, false)], &[21, 35, 35, 56, 67, 67, 67, 88, 104, 120, 136, 136], true),
    (&[(38, false), (5, true), (26, false), (28, false), (33, false), (41, false), (32, false), (29, false), (46, false), (4, false), (35, true), (46, false), (42, false), (50, true), (39, true), (42, true), (6, false), (22, false), (13, true), (43, false), (4, false), (53, false)], &[24, 35, 35, 56, 56, 72, 88, 88, 88, 101, 120, 120, 136, 153, 168, 184, 0, 200, 216, 233, 245, 24], true),
    (&[(29, false), (12, false), (46, true), (99, false), (14, false), (99, true), (1, true), (47, false), (28, false), (26, false), (1, false), (26, false), (54, true)], &[24, 24, 24, 41, 0, 57, 67, 67, 88, 88, 99, 99, 121], true),
];

#[test]
fn base_with_virama_at_the_end_is_virama_terminated() {
    let mut buffer = buffer_of(&[1, 44]);
    assert_eq!(find_syllables(&mut buffer), Ok(()));
    let t = tag(1, SyllableType::ViramaTerminatedCluster);
    assert_eq!(tags(&buffer), vec![t, t]);
    assert!(!buffer.has_broken_syllable);
}

#[test]
fn base_with_sakot_at_the_end_is_sakot_terminated() {
    let mut buffer = buffer_of(&[1, 48]);
    assert_eq!(find_syllables(&mut buffer), Ok(()));
    let t = tag(1, SyllableType::SakotTerminatedCluster);
    assert_eq!(tags(&buffer), vec![t, t]);
}

#[test]
fn joiner_between_two_clusters_gets_no_tag() {
    let mut buffer = buffer_of(&[1, CGJ, 1]);
    buffer.info[1].syllable = 0x5a;
    assert_eq!(find_syllables(&mut buffer), Ok(()));
    assert_eq!(
        tags(&buffer),
        vec![tag(1, SyllableType::StandardCluster), 0x5a, tag(2, SyllableType::StandardCluster)]
    );
}

#[test]
fn category_above_the_ceiling_is_a_non_cluster() {
    for category in [54u8, 99, 255] {
        let mut buffer = buffer_of(&[category]);
        assert_eq!(find_syllables(&mut buffer), Ok(()));
        assert_eq!(tags(&buffer), vec![tag(1, SyllableType::NonCluster)]);
    }
}

#[test]
fn each_single_unit_kind_is_committed() {
    let cases: [(u8, SyllableType); 5] = [
        (0, SyllableType::SymbolCluster),
        (1, SyllableType::StandardCluster),
        (4, SyllableType::NumeralCluster),
        (49, SyllableType::HieroglyphCluster),
        (14, SyllableType::BrokenCluster),
    ];
    for (category, kind) in cases {
        let mut buffer = buffer_of(&[category]);
        assert_eq!(find_syllables(&mut buffer), Ok(()));
        assert_eq!(tags(&buffer), vec![tag(1, kind)]);
        assert_eq!(buffer.has_broken_syllable, kind == SyllableType::BrokenCluster);
    }
}

#[test]
fn empty_buffer_commits_nothing() {
    let mut buffer = buffer_of(&[]);
    assert_eq!(find_syllables(&mut buffer), Ok(()));
    assert!(buffer.info.is_empty());
}

#[test]
fn buffer_of_joiners_commits_nothing() {
    let mut buffer = buffer_of(&[CGJ, CGJ]);
    buffer.info[0].syllable = 7;
    buffer.info[1].syllable = 9;
    assert_eq!(find_syllables(&mut buffer), Ok(()));
    assert_eq!(tags(&buffer), vec![7, 9]);
    assert!(!buffer.has_broken_syllable);
}

#[test]
fn non_joiner_before_a_mark_is_skipped() {
    let mut buffer = buffer_with_marks(&[(1, false), (ZWNJ, false), (29, true)]);
    assert_eq!(find_syllables(&mut buffer), Ok(()));
    let t = tag(1, SyllableType::StandardCluster);
    assert_eq!(tags(&buffer), vec![t, 0, t]);
}

#[test]
fn non_joiner_looks_past_joiners_for_the_mark() {
    let mut buffer =
        buffer_with_marks(&[(1, false), (ZWNJ, false), (CGJ, false), (CGJ, true), (29, true)]);
    assert_eq!(find_syllables(&mut buffer), Ok(()));
    let t = tag(1, SyllableType::StandardCluster);
    assert_eq!(tags(&buffer), vec![t, 0, 0, 0, t]);
}

#[test]
fn non_joiner_before_a_non_mark_is_a_boundary() {
    let mut buffer = buffer_with_marks(&[(1, false), (ZWNJ, false), (29, false)]);
    assert_eq!(find_syllables(&mut buffer), Ok(()));
    let first = tag(1, SyllableType::StandardCluster);
    assert_eq!(tags(&buffer), vec![first, first, tag(2, SyllableType::BrokenCluster)]);
    assert!(buffer.has_broken_syllable);
}

#[test]
fn non_joiner_at_the_end_is_included() {
    let mut buffer = buffer_of(&[1, ZWNJ]);
    assert_eq!(find_syllables(&mut buffer), Ok(()));
    let t = tag(1, SyllableType::StandardCluster);
    assert_eq!(tags(&buffer), vec![t, t]);
}

#[test]
fn included_follows_the_two_rules() {
    let units = vec![
        GlyphInfo::new(1, false),
        GlyphInfo::new(CGJ, false),
        GlyphInfo::new(ZWNJ, false),
        GlyphInfo::new(CGJ, false),
        GlyphInfo::new(29, true),
        GlyphInfo::new(ZWNJ, true),
        GlyphInfo::new(1, false),
        GlyphInfo::new(ZWNJ, false),
        GlyphInfo::new(CGJ, true),
    ];
    let got: Vec<bool> = (0..units.len()).map(|i| included(&units, i)).collect();
    assert_eq!(got, vec![true, false, false, false, true, true, true, true, false]);
    assert_eq!(included_units(&units), vec![0, 4, 5, 6, 7]);
}

#[test]
fn only_the_joiner_is_default_ignorable() {
    assert!(!not_ccs_default_ignorable(&GlyphInfo::new(CGJ, false)));
    assert!(!not_ccs_default_ignorable(&GlyphInfo::new(CGJ, true)));
    assert!(not_ccs_default_ignorable(&GlyphInfo::new(ZWNJ, false)));
    assert!(not_ccs_default_ignorable(&GlyphInfo::new(0, false)));
    assert_eq!(CGJ, 6);
    assert_eq!(ZWNJ, 14);
}

#[test]
fn serials_run_from_one_to_fifteen_and_wrap() {
    let mut buffer = buffer_of(&[1; 17]);
    assert_eq!(find_syllables(&mut buffer), Ok(()));
    let serials: Vec<u8> = tags(&buffer).iter().map(|t| t >> 4).collect();
    assert_eq!(serials, vec![1, 2, 3, 4, 5, 6, 7, 8, 9, 10, 11, 12, 13, 14, 15, 1, 2]);
}

#[test]
fn mixed_text_is_split_into_clusters_of_several_kinds() {
    let mut buffer = buffer_of(&[1, 53, 1, 0, 54, 4, 12, 49, 1, 48]);
    assert_eq!(find_syllables(&mut buffer), Ok(()));
    assert_eq!(
        tags(&buffer),
        vec![0x13, 0x13, 0x13, 0x26, 0x39, 0x45, 0x58, 0x67, 0x72, 0x72]
    );
    assert!(buffer.has_broken_syllable);
}

#[test]
fn scans_match_the_expected_tags() {
    for (units, expected, broken) in USE_CASES {
        let mut buffer = buffer_with_marks(units);
        assert_eq!(find_syllables(&mut buffer), Ok(()));
        assert_eq!(tags(&buffer), expected.to_vec());
        assert_eq!(buffer.has_broken_syllable, *broken);
    }
}

#[test]
fn scan_tags_the_included_units_and_no_others() {
    for (units, _, _) in USE_CASES {
        let mut buffer = buffer_with_marks(units);
        let positions = included_units(&buffer.info);
        assert_eq!(find_syllables(&mut buffer), Ok(()));
        for (i, unit) in buffer.info.iter().enumerate() {
            assert_eq!(unit.syllable != 0, positions.contains(&i));
        }
    }
}

#[test]
fn scan_is_deterministic_and_ignores_old_tags_of_included_units() {
    for (units, _, _) in USE_CASES {
        let mut first = buffer_with_marks(units);
        let mut second = buffer_with_marks(units);
        for i in included_units(&second.info) {
            second.info[i].syllable = 0xab;
        }
        assert_eq!(find_syllables(&mut first), Ok(()));
        assert_eq!(find_syllables(&mut second), Ok(()));
        assert_eq!(tags(&first), tags(&second));
        assert_eq!(first.has_broken_syllable, second.has_broken_syllable);
    }
}

#[test]
fn scan_never_clears_the_flag() {
    let mut buffer = buffer_of(&[1, 44]);
    buffer.has_broken_syllable = true;
    assert_eq!(find_syllables(&mut buffer), Ok(()));
    assert!(buffer.has_broken_syllable);
}

#[test]
fn table_has_the_shape_of_a_table() {
    let table = use_table();
    assert!(table.check());
    assert_eq!(table.graph.start, 0);
    assert_eq!(table.graph.first_final, 0);
    assert_eq!(table.defaults.len(), 126);
    assert_eq!(table.indices.len(), 3377);
    assert_eq!(table.classes.len(), 54);
}

#[test]
fn table_passes_the_flow_check() {
    let table = use_table();
    assert!(table.check());
    assert!(table.check_flow(10));
    assert!(!table.check_flow(9));
}

#[test]
fn table_with_a_commit_at_the_start_state_before_the_unit_is_refused() {
    let mut table = use_table();
    let default = table.defaults[0] as usize;
    table.graph.actions[default] = 18;
    assert!(table.check());
    assert!(!table.check_flow(10));
}

#[test]
fn machine_loads_and_scans() {
    let machine = UseMachine::load();
    assert!(machine.is_ok());
    let machine = machine.ok().unwrap();
    let mut buffer = buffer_of(&[1, CGJ, 44]);
    machine.find_syllables(&mut buffer);
    assert_eq!(tags(&buffer), vec![0x11, 0, 0x11]);
    let mut other = buffer_of(&[14]);
    machine.find_syllables(&mut other);
    assert_eq!(tags(&other), vec![0x18]);
    assert!(other.has_broken_syllable);
}

#[test]
fn table_with_a_stray_index_is_refused() {
    let mut table = use_table();
    table.indices[100] = 144;
    assert!(!table.check());
}

#[test]
fn found_syllable_stamps_the_included_units_of_the_interval() {
    let mut buffer = buffer_of(&[1, CGJ, 1, 1]);
    let positions = included_units(&buffer.info);
    assert_eq!(positions, vec![0, 2, 3]);
    let mut serial = 15u8;
    found_syllable(0, 2, &mut serial, SyllableType::NumeralCluster, &positions, &mut buffer);
    assert_eq!(tags(&buffer), vec![0xf5, 0, 0xf5, 0]);
    assert_eq!(serial, 1);
    assert!(!buffer.has_broken_syllable);
    found_syllable(2, 3, &mut serial, SyllableType::BrokenCluster, &positions, &mut buffer);
    assert_eq!(tags(&buffer), vec![0xf5, 0, 0xf5, 0x18]);
    assert_eq!(serial, 2);
    assert!(buffer.has_broken_syllable);
}

#[test]
fn found_syllable_on_an_empty_interval_takes_a_serial() {
    let mut buffer = buffer_of(&[1, 1]);
    let positions = included_units(&buffer.info);
    let mut serial = 2u8;
    found_syllable(1, 1, &mut serial, SyllableType::StandardCluster, &positions, &mut buffer);
    assert_eq!(tags(&buffer), vec![0, 0]);
    assert_eq!(serial, 3);
}

#[test]
fn kind_codes_round_trip() {
    for code in 0u8..10 {
        assert_eq!(SyllableType::from_code(code).map(|k| k.code()), Some(code));
    }
    assert_eq!(SyllableType::from_code(10), None);
    assert_eq!(SyllableType::IndependentCluster.code(), 0);
    assert_eq!(SyllableType::BrokenCluster.code(), 8);
    assert_eq!(SyllableType::NonCluster.code(), 9);
}

/// Folds one more value into a running checksum.
fn mix(h: u64, v: u64) -> u64 {
    h.wrapping_mul(1_000_003).wrapping_add(v + 1)
}

/// The checksum of the tags and flags that scans leave on every sequence of
/// at most `longest` units out of `alphabet`, shortest first.
fn checksum(machine: &UseMachine, alphabet: &[(u8, bool)], longest: usize) -> (u64, usize) {
    let mut h = 0u64;
    let mut count = 0;
    for n in 0..=longest {
        let mut digits = vec![0usize; n];
        loop {
            let units: Vec<(u8, bool)> = digits.iter().map(|&d| alphabet[d]).collect();
            let mut buffer = buffer_with_marks(&units);
            machine.find_syllables(&mut buffer);
            for unit in &buffer.info {
                h = mix(h, unit.syllable as u64);
            }
            h = mix(h, 256 + buffer.has_broken_syllable as u64);
            count += 1;
            let mut at = n;
            while at > 0 && digits[at - 1] + 1 == alphabet.len() {
                digits[at - 1] = 0;
                at -= 1;
            }
            if at == 0 {
                break;
            }
            digits[at - 1] += 1;
        }
    }
    (h, count)
}

#[test]
fn every_short_sequence_with_marks_and_joiners_gets_the_expected_tags() {
    let machine = UseMachine::load().ok().unwrap();
    let mut alphabet = vec![];
    for category in [0u8, 1, 4, 6, 12, 14, 29, 44, 48, 54] {
        alphabet.push((category, false));
        alphabet.push((category, true));
    }
    assert_eq!(checksum(&machine, &alphabet, 4), (869349775830076653, 168421));
}

#[test]
fn every_pair_of_categories_gets_the_expected_tags() {
    let machine = UseMachine::load().ok().unwrap();
    let alphabet: Vec<(u8, bool)> = (0..56).map(|category| (category, false)).collect();
    assert_eq!(checksum(&machine, &alphabet, 2), (2080080187352949788, 3193));
}

#[test]
fn action_lists_commit_with_or_before_the_unit() {
    let programs = load_programs();
    assert_eq!(programs.len(), 21);
    for empty in [0, 1, 2] {
        assert_eq!(programs[empty], vec![]);
    }
    assert_eq!(programs[3], vec![Action::EndInclusive, Action::Commit(9)]);
    assert_eq!(programs[4], vec![Action::EndInclusive, Action::Commit(8)]);
    assert_eq!(programs[11], vec![Action::EndExclusive, Action::Commit(1)]);
    assert_eq!(programs[12], vec![Action::EndInclusive, Action::Commit(1)]);
    assert_eq!(programs[17], vec![Action::EndExclusive, Action::Commit(8)]);
    assert_eq!(programs[18], vec![Action::EndExclusive, Action::Commit(9)]);
    assert_eq!(programs[19], vec![Action::EndExclusive, Action::Commit(7)]);
    assert_eq!(programs[20], vec![Action::EndInclusive, Action::Commit(7)]);
    assert_eq!(use_table().graph.programs, programs);
}

#[test]
fn terminated_cluster_is_committed_by_the_rule_for_the_end_of_the_input() {
    let table = use_table();
    assert!(table.check());
    for (terminator, kind) in [
        (44u8, SyllableType::ViramaTerminatedCluster),
        (48u8, SyllableType::SakotTerminatedCluster),
    ] {
        let input = vec![1u8, terminator];
        let mut out = vec![];
        let mut cursor =
            Cursor { state: 0, pos: 0, seg_start: 0, seg_end: 0, deferred: None, committed: 0 };
        for _ in 0..2 {
            match advance(&table, &input, cursor, &mut out) {
                Step::Continue(next) => cursor = next,
                _ => panic!("the scan stopped inside the input"),
            }
            assert!(out.is_empty());
        }
        assert_eq!(cursor.pos, 2);
        match advance(&table, &input, cursor, &mut out) {
            Step::Continue(next) => cursor = next,
            _ => panic!("the scan stopped before the commit"),
        }
        assert_eq!(out, vec![Commit { start: 0, end: 2, kind: kind.code() }]);
        assert_eq!(cursor.pos, 2);
        assert_eq!(advance(&table, &input, cursor, &mut out), Step::Finished);
        assert_eq!(out.len(), 1);
    }
}
