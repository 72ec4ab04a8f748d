use syllable_machine::buffer::{Buffer, GlyphInfo};
use syllable_machine::error::TableError;
use syllable_machine::indic_machine::{
    find_syllables_indic, found_syllable, IndicMachine, SyllableType,
};
use syllable_machine::automaton::Action;
use syllable_machine::indic_actions::load_programs;
use syllable_machine::indic_table::indic_table;

fn buffer_of(categories: &[u8]) -> Buffer {
    Buffer::new(categories.iter().map(|&c| GlyphInfo::new(c, false)).collect())
}

fn tags(buffer: &Buffer) -> Vec<u8> {
    buffer.info.iter().map(|g| g.syllable).collect()
}

fn tag(serial: u8, kind: SyllableType) -> u8 {
    (serial << 4) | kind.code()
}

// Inputs with the tags and the flag that a scan must leave.
const INDIC_CASES: &[(&[u8], &[u8], bool)] = &[
    (&[1, 1, 2, 1, 7, 1, 9, 0, 1, 8, 13, 7, 1, 3, 3, 13, 7, 3, 6, 5, 4, 3, 6, 16, 14, 5, 19, 1, 17, 18, 7, 1, 4, 0, 8, 17, 19, 6, 5, 14], &[16, 32, 49, 64, 64, 80, 80, 101, 112, 112, 112, 112, 128, 128, 128, 128, 128, 128, 149, 164, 164, 180, 197, 212, 228, 245, 21, 32, 51, 69, 84, 96, 96, 117, 132, 147, 165, 181, 197, 212], true),
    (&[18, 5, 10, 15, 19, 1, 11, 30, 1, 16], &[21, 37, 50, 64, 85, 96, 114, 133, 144, 144], false),
    (&[19, 30, 9, 18, 10, 1, 30, 15, 1, 10, 19, 5, 12, 16, 8, 1, 18, 5, 7, 1, 4, 18], &[21, 37, 52, 66, 66, 80, 101, 112, 128, 146, 165, 180, 180, 180, 180, 192, 213, 228, 228, 240, 240, 21], true),
    (&[5, 1, 4, 0], &[21, 32, 32, 53], false),
    (&[9, 19, 8, 17, 13, 1, 15, 9], &[20, 37, 52, 67, 84, 96, 112, 112], true),
    (&[1, 9, 7, 5, 2, 13, 7, 12, 1, 8, 18, 13, 16, 19, 10, 12, 11], &[16, 16, 36, 53, 65, 65, 65, 84, 96, 96, 117, 132, 148, 165, 178, 178, 194], true),
    (&[5, 4, 12, 7, 15, 12, 13, 2, 7, 2, 1, 4, 30, 6, 15, 7, 5, 10, 0, 10, 4, 4, 17], &[20, 20, 36, 36, 48, 48, 48, 65, 65, 81, 96, 96, 117, 133, 144, 144, 165, 178, 197, 210, 210, 228, 243], true),
    (&[13, 1, 15, 5, 0, 1, 12, 30, 4, 2, 4, 13], &[20, 32, 48, 69, 85, 96, 96, 117, 132, 145, 145, 164], true),
    (&[19, 2, 1, 30, 5, 10, 10], &[21, 33, 48, 69, 85, 98, 114], false),
    (&[9, 12, 3, 30, 10, 1, 10, 9, 0, 15, 1, 2, 18, 1, 8, 1, 16, 2, 6, 15, 9, 11, 19, 15], &[20, 36, 36, 53, 66, 80, 98, 98, 117, 128, 144, 161, 176, 176, 176, 192, 192, 209, 209, 224, 224, 242, 21, 32], true),
    (&[1, 3, 3, 4], &[16, 16, 16, 16], false),
    (&[], &[], false),
    (&[1, 4, 14, 3, 6, 2, 19, 19, 16, 1, 15, 4, 1], &[16, 16, 36, 36, 53, 65, 85, 101, 116, 128, 144, 144, 144], true),
    (&[19, 1, 18, 1, 1, 1], &[21, 32, 48, 48, 64, 80], false),
    (&[14, 9, 1, 8, 13, 4, 5, 5, 2, 15, 4, 1, 7, 10, 2, 4, 14, 19, 12, 1], &[20, 20, 32, 32, 32, 32, 53, 69, 81, 96, 96, 96, 96, 114, 129, 129, 148, 165, 180, 192], true),
    (&[0, 18, 12], &[21, 37, 52], true),
    (&[12, 14, 0, 6, 16, 4, 7, 15, 3, 30, 9, 7, 12, 18, 4, 11, 17, 5, 1, 13, 10, 4, 30, 1], &[20, 36, 53, 69, 84, 84, 100, 112, 112, 133, 148, 164, 180, 197, 212, 226, 243, 21, 32, 32, 50, 50, 69, 80], true),
    (&[1, 6, 0, 12, 1, 12, 7, 6, 17, 16], &[16, 16, 37, 52, 64, 64, 64, 85, 99, 116], true),
    (&[1, 7, 16, 19], &[16, 16, 36, 53], true),
    (&[11, 4, 7, 5, 11, 14, 11, 16, 1], &[18, 18, 36, 53, 66, 82, 82, 82, 96], true),
    (&[6, 17, 16, 1, 3, 0, 6, 15, 1, 3, 19], &[21, 35, 52, 64, 64, 85, 101, 112, 128, 128, 149], true),
    (&[1, 12, 9, 17, 10, 4, 15, 0, 6, 1, 12, 16, 4, 9], &[16, 16, 16, 35, 50, 50, 50, 69, 85, 96, 96, 96, 96, 96], false),
    (&[16, 15, 19, 12, 13, 4, 30, 1, 1, 19, 7, 6, 7, 8, 4, 2, 9, 12], &[20, 32, 53, 68, 68, 68, 85, 96, 112, 133, 148, 148, 148, 148, 164, 177, 177, 196], true),
    (&[9, 1, 14, 8, 2, 7, 12, 30, 8, 7, 3, 4, 18, 18, 9, 1, 5, 8, 1, 1, 18, 10], &[20, 32, 52, 52, 65, 65, 84, 101, 116, 132, 132, 132, 149, 165, 180, 192, 192, 192, 208, 224, 242, 242], true),
    (&[19, 16, 14, 5, 0, 12, 7, 30, 2, 0], &[21, 36, 52, 69, 85, 100, 100, 117, 129, 149], true),
    (&[9, 19, 12, 11, 1, 17, 16, 8, 8, 0, 16, 17, 18, 13, 11, 1, 15, 5, 6, 5], &[20, 37, 52, 66, 80, 99, 116, 116, 116, 133, 148, 163, 181, 196, 210, 224, 240, 21, 37, 53], true),
    (&[2, 10, 12, 4, 1, 14, 7, 14, 8, 8, 7, 7, 1, 0, 2, 6, 7], &[17, 34, 34, 34, 34, 52, 52, 68, 68, 68, 84, 84, 96, 117, 129, 129, 129], true),
    (&[14, 7, 0, 11, 11, 7, 0, 3, 10, 1], &[20, 20, 37, 50, 66, 66, 85, 100, 114, 128], true),
    (&[7, 10, 13, 5], &[20, 34, 34, 53], true),
    (&[9, 4, 16, 17, 19, 1, 7, 18, 4, 7, 7, 7, 11, 19, 1, 12, 11], &[20, 36, 52, 67, 85, 96, 96, 117, 132, 148, 148, 148, 162, 181, 192, 192, 210], true),
    (&[18, 7, 0, 15, 5, 7, 16, 5, 7, 18, 1, 0], &[21, 36, 53, 64, 64, 64, 84, 84, 84, 96, 96, 117], true),
    (&[8, 10, 11, 15, 16, 18, 0, 18, 18, 1, 17, 4, 12, 10, 1, 15, 16, 7, 12, 1, 10, 10, 30], &[20, 34, 50, 64, 64, 85, 101, 117, 128, 128, 147, 164, 180, 194, 208, 224, 224, 224, 244, 16, 34, 50, 69], true),
    (&[1, 8, 16, 19, 1, 17, 13, 5, 10, 15, 6, 2, 12, 14, 0, 16, 10, 16, 10, 1, 1], &[16, 16, 36, 53, 64, 83, 100, 117, 130, 144, 144, 161, 161, 180, 197, 212, 226, 226, 242, 16, 32], true),
    (&[1, 4, 17, 4, 1, 4, 10, 4, 30, 11, 17, 0, 19, 8, 7], &[16, 16, 35, 52, 52, 52, 66, 66, 85, 98, 115, 133, 149, 164, 180], true),
    (&[3, 5, 1, 4, 19, 7, 7, 6, 10, 16, 2], &[20, 37, 48, 48, 69, 84, 84, 101, 114, 114, 129], true),
    (&[15, 3, 11, 14, 13, 11, 12, 6, 1, 1, 8, 0, 13, 16], &[16, 16, 34, 52, 52, 66, 66, 85, 96, 112, 112, 133, 148, 164], true),
    (&[19, 4, 0, 19], &[21, 36, 53, 69], true),
    (&[19, 1, 8, 6, 16], &[21, 32, 32, 53, 68], true),
    (&[5, 30, 5], &[21, 37, 53], false),
    (&[16, 0, 4, 7, 13, 4, 15, 1, 30, 0], &[20, 37, 52, 68, 68, 68, 80, 96, 117, 133], true),
    (&[17, 16, 17, 0, 4, 7, 7, 6, 14, 7, 16, 11, 9], &[19, 36, 51, 69, 84, 100, 100, 117, 132, 132, 148, 162, 162], true),
    (&[13, 16, 14, 7, 12, 1, 3, 7, 4, 13, 12, 7, 14, 0, 3], &[20, 36, 52, 52, 68, 80, 80, 80, 80, 80, 100, 100, 116, 133, 148], true),
    (&[7, 15, 4, 13, 16, 4, 16, 1, 6, 14, 4, 11, 18, 18, 14, 15, 0, 12, 11, 17, 4, 1, 4], &[20, 36, 36, 36, 52, 52, 68, 80, 80, 100, 100, 114, 133, 149, 160, 160, 181, 196, 210, 227, 244, 244, 244], true),
    (&[9, 11, 4, 3, 18, 11, 17, 6, 1, 14, 6, 0, 1, 2, 9, 6], &[20, 34, 34, 52, 69, 82, 99, 117, 128, 148, 165, 181, 192, 209, 209, 229], true),
    (&[], &[], false),
    (&[4, 30, 3, 11, 15, 19, 10, 4, 1, 10, 12, 11, 1, 9], &[20, 37, 52, 66, 80, 101, 114, 114, 114, 130, 130, 146, 160, 160], true),
    (&[11, 12, 17, 7, 0, 7, 4, 13, 1, 15, 7, 7, 13, 16, 3, 7, 5, 17, 14, 14, 14], &[18, 18, 35, 52, 69, 84, 84, 84, 96, 112, 112, 112, 112, 132, 148, 148, 165, 179, 196, 212, 228], true),
    (&[], &[], false),
    (&[7, 6, 14, 14, 7, 0, 15, 12, 10, 13, 13, 1, 7], &[20, 37, 52, 68, 68, 85, 96, 96, 114, 114, 114, 128, 128], true),
    (&[9, 7, 18, 19, 30, 0, 15, 7, 1, 1, 15, 4, 4, 3, 4, 11, 1, 9], &[20, 36, 53, 69, 85, 101, 112, 112, 128, 144, 164, 164, 164, 180, 180, 194, 208, 208], true),
    (&[], &[], false),
    (&[1, 1], &[16, 32], false),
    (&[14, 15, 14], &[16, 16, 36], true),
    (&[16, 19, 5, 6, 1, 4, 1, 3], &[20, 37, 53, 69, 80, 80, 80, 80], true),
    (&[12, 16, 3, 14, 1, 9, 4, 30, 4, 0, 1, 16, 3, 2, 1, 7, 2, 12, 1, 1], &[20, 20, 36, 48, 48, 48, 68, 85, 100, 117, 128, 128, 148, 161, 176, 176, 193, 193, 208, 224], true),
    (&[9, 18, 3, 15, 30, 13, 17, 19, 9, 4], &[20, 37, 52, 64, 85, 100, 115, 133, 148, 164], true),
    (&[17, 5, 8, 4, 4, 5, 2, 5, 13, 13, 30, 30, 5, 7, 0, 18, 30, 14, 19, 11, 8], &[19, 19, 19, 36, 52, 52, 65, 65, 65, 65, 85, 101, 116, 116, 133, 149, 165, 180, 197, 210, 210], true),
    (&[14, 19, 11, 3, 12, 10, 11, 0, 8, 4, 11, 17, 1, 0, 17, 13, 14, 7], &[20, 37, 50, 50, 68, 82, 98, 117, 132, 148, 162, 179, 192, 213, 227, 244, 20, 20], true),
    (&[13], &[20], true),
    (&[7, 15, 7, 16, 18], &[20, 32, 32, 52, 69], true),
];


#[test]
fn consonant_with_vowel_signs_is_one_syllable() {
    let mut buffer = buffer_of(&[1, 7, 8]);
    assert_eq!(find_syllables_indic(&mut buffer), Ok(()));
    let t = tag(1, SyllableType::ConsonantSyllable);
    assert_eq!(tags(&buffer), vec![t, t, t]);
    assert!(!buffer.has_broken_syllable);
}

#[test]
fn isolated_mark_is_a_broken_cluster() {
    let mut buffer = buffer_of(&[7]);
    assert_eq!(find_syllables_indic(&mut buffer), Ok(()));
    assert_eq!(tags(&buffer), vec![tag(1, SyllableType::BrokenCluster)]);
    assert!(buffer.has_broken_syllable);
}

#[test]
fn two_marks_are_one_broken_cluster() {
    let mut buffer = buffer_of(&[7, 7]);
    assert_eq!(find_syllables_indic(&mut buffer), Ok(()));
    let t = tag(1, SyllableType::BrokenCluster);
    assert_eq!(tags(&buffer), vec![t, t]);
    assert!(buffer.has_broken_syllable);
}

#[test]
fn unknown_category_is_a_non_indic_cluster() {
    for category in [0u8, 19, 200] {
        let mut buffer = buffer_of(&[category]);
        assert_eq!(find_syllables_indic(&mut buffer), Ok(()));
        assert_eq!(tags(&buffer), vec![tag(1, SyllableType::NonIndicCluster)]);
        assert!(!buffer.has_broken_syllable);
    }
}

#[test]
fn each_indic_kind_is_committed() {
    let cases: [(u8, SyllableType); 5] = [
        (1, SyllableType::ConsonantSyllable),
        (2, SyllableType::VowelSyllable),
        (11, SyllableType::StandaloneCluster),
        (17, SyllableType::SymbolCluster),
        (18, SyllableType::NonIndicCluster),
    ];
    for (category, kind) in cases {
        let mut buffer = buffer_of(&[category]);
        assert_eq!(find_syllables_indic(&mut buffer), Ok(()));
        assert_eq!(tags(&buffer), vec![tag(1, kind)]);
    }
}

#[test]
fn empty_indic_buffer_commits_nothing() {
    let mut buffer = buffer_of(&[]);
    assert_eq!(find_syllables_indic(&mut buffer), Ok(()));
    assert!(buffer.info.is_empty());
    assert!(!buffer.has_broken_syllable);
}

#[test]
fn conjunct_is_one_syllable_and_the_next_starts_after_it() {
    let mut buffer = buffer_of(&[1, 4, 5, 1]);
    assert_eq!(find_syllables_indic(&mut buffer), Ok(()));
    let first = tag(1, SyllableType::ConsonantSyllable);
    let second = tag(2, SyllableType::ConsonantSyllable);
    assert_eq!(tags(&buffer), vec![first, first, first, second]);
}

#[test]
fn indic_serials_run_from_one_to_fifteen_and_wrap() {
    let mut buffer = buffer_of(&[1; 17]);
    assert_eq!(find_syllables_indic(&mut buffer), Ok(()));
    assert_eq!(
        tags(&buffer),
        vec![16, 32, 48, 64, 80, 96, 112, 128, 144, 160, 176, 192, 208, 224, 240, 16, 32]
    );
}

#[test]
fn indic_serials_do_not_depend_on_the_kind() {
    let mut buffer = buffer_of(&[1, 7, 7, 1, 8, 0, 2, 7, 17, 11, 7]);
    assert_eq!(find_syllables_indic(&mut buffer), Ok(()));
    let serials: Vec<u8> = tags(&buffer).iter().map(|t| t >> 4).collect();
    let kinds: Vec<u8> = tags(&buffer).iter().map(|t| t & 15).collect();
    assert_eq!(serials, vec![1, 1, 1, 2, 2, 3, 4, 4, 5, 6, 6]);
    assert_eq!(kinds, vec![0, 0, 0, 0, 0, 5, 1, 1, 3, 2, 2]);
}

#[test]
fn indic_scans_match_the_expected_tags() {
    for (categories, expected, broken) in INDIC_CASES {
        let mut buffer = buffer_of(categories);
        assert_eq!(find_syllables_indic(&mut buffer), Ok(()));
        assert_eq!(tags(&buffer), expected.to_vec());
        assert_eq!(buffer.has_broken_syllable, *broken);
    }
}

#[test]
fn indic_scan_tags_every_unit() {
    for (categories, _, _) in INDIC_CASES {
        let mut buffer = buffer_of(categories);
        assert_eq!(find_syllables_indic(&mut buffer), Ok(()));
        assert!(buffer.info.iter().all(|g| g.syllable >> 4 != 0));
    }
}

#[test]
fn indic_scan_is_deterministic_and_ignores_old_tags() {
    for (categories, _, _) in INDIC_CASES {
        let mut first = buffer_of(categories);
        let mut second = buffer_of(categories);
        for unit in second.info.iter_mut() {
            unit.syllable = 0xab;
        }
        assert_eq!(find_syllables_indic(&mut first), Ok(()));
        assert_eq!(find_syllables_indic(&mut second), Ok(()));
        assert_eq!(tags(&first), tags(&second));
        assert_eq!(first.has_broken_syllable, second.has_broken_syllable);
        let again = tags(&first);
        assert_eq!(find_syllables_indic(&mut first), Ok(()));
        assert_eq!(tags(&first), again);
    }
}

#[test]
fn indic_scan_keeps_categories_and_marks() {
    let mut buffer = Buffer::new(vec![GlyphInfo::new(1, true), GlyphInfo::new(7, false)]);
    assert_eq!(find_syllables_indic(&mut buffer), Ok(()));
    assert_eq!(buffer.info[0].category, 1);
    assert!(buffer.info[0].unicode_mark);
    assert_eq!(buffer.info[1].category, 7);
    assert!(!buffer.info[1].unicode_mark);
}

#[test]
fn indic_scan_never_clears_the_flag() {
    let mut buffer = buffer_of(&[1, 7, 8]);
    buffer.has_broken_syllable = true;
    assert_eq!(find_syllables_indic(&mut buffer), Ok(()));
    assert!(buffer.has_broken_syllable);
}

#[test]
fn indic_flag_stays_raised_after_later_clusters() {
    let mut buffer = buffer_of(&[7, 1, 7, 1]);
    assert_eq!(find_syllables_indic(&mut buffer), Ok(()));
    assert_eq!(buffer.info[0].syllable, tag(1, SyllableType::BrokenCluster));
    assert_eq!(buffer.info[3].syllable & 15, SyllableType::ConsonantSyllable.code());
    assert!(buffer.has_broken_syllable);
}

#[test]
fn indic_table_has_the_shape_of_a_table() {
    let table = indic_table();
    assert!(table.check());
    assert_eq!(table.graph.start, 31);
    assert_eq!(table.graph.first_final, 31);
    assert_eq!(table.key_offsets.len(), 138);
    assert_eq!(table.graph.targets.len(), 1001);
}

#[test]
fn indic_table_passes_the_flow_check() {
    let table = indic_table();
    assert!(table.check());
    assert!(table.check_flow(6));
    assert!(!table.check_flow(5));
}

#[test]
fn indic_table_that_never_marks_an_end_is_refused() {
    let mut table = indic_table();
    for action in table.graph.actions.iter_mut() {
        if *action == 5 {
            *action = 0;
        }
    }
    assert!(table.check());
    assert!(!table.check_flow(6));
}

#[test]
fn indic_machine_loads_and_scans() {
    let machine = IndicMachine::load();
    assert!(machine.is_ok());
    let machine = machine.ok().unwrap();
    let mut buffer = buffer_of(&[1, 7, 8, 7]);
    machine.find_syllables(&mut buffer);
    assert_eq!(tags(&buffer), vec![0x10, 0x10, 0x10, 0x24]);
    assert!(buffer.has_broken_syllable);
    let mut other = buffer_of(&[7, 1]);
    machine.find_syllables(&mut other);
    assert_eq!(tags(&other), vec![0x14, 0x20]);
    assert!(other.has_broken_syllable);
}

#[test]
fn truncated_indic_table_is_refused() {
    let mut table = indic_table();
    table.graph.targets.pop();
    table.graph.actions.pop();
    assert!(!table.check());
}

#[test]
fn table_error_names_its_two_cases() {
    assert_ne!(TableError::Malformed, TableError::Unsound);
}

#[test]
fn indic_found_syllable_stamps_the_interval_and_moves_the_serial() {
    let mut buffer = buffer_of(&[1, 1, 1, 1]);
    let mut serial = 3u8;
    found_syllable(1, 3, &mut serial, SyllableType::VowelSyllable, &mut buffer);
    assert_eq!(tags(&buffer), vec![0, 0x31, 0x31, 0]);
    assert_eq!(serial, 4);
    assert!(!buffer.has_broken_syllable);
}

#[test]
fn indic_found_syllable_wraps_the_serial_after_fifteen() {
    let mut buffer = buffer_of(&[1]);
    let mut serial = 15u8;
    found_syllable(0, 1, &mut serial, SyllableType::ConsonantSyllable, &mut buffer);
    assert_eq!(tags(&buffer), vec![0xf0]);
    assert_eq!(serial, 1);
}

#[test]
fn indic_found_syllable_on_an_empty_interval_takes_a_serial() {
    let mut buffer = buffer_of(&[1, 1]);
    let mut serial = 7u8;
    found_syllable(1, 1, &mut serial, SyllableType::SymbolCluster, &mut buffer);
    assert_eq!(tags(&buffer), vec![0, 0]);
    assert_eq!(serial, 8);
}

#[test]
fn indic_found_syllable_raises_the_flag_for_a_broken_cluster() {
    let mut buffer = buffer_of(&[7]);
    let mut serial = 1u8;
    found_syllable(0, 1, &mut serial, SyllableType::BrokenCluster, &mut buffer);
    assert!(buffer.has_broken_syllable);
    found_syllable(0, 1, &mut serial, SyllableType::ConsonantSyllable, &mut buffer);
    assert!(buffer.has_broken_syllable);
}

#[test]
fn indic_kind_codes_round_trip() {
    for code in 0u8..6 {
        assert_eq!(SyllableType::from_code(code).map(|k| k.code()), Some(code));
    }
    assert_eq!(SyllableType::from_code(6), None);
    assert_eq!(SyllableType::ConsonantSyllable.code(), 0);
    assert_eq!(SyllableType::BrokenCluster.code(), 4);
    assert_eq!(SyllableType::NonIndicCluster.code(), 5);
}

/// Folds one more value into a running checksum.
fn mix(h: u64, v: u64) -> u64 {
    h.wrapping_mul(1_000_003).wrapping_add(v + 1)
}

/// The checksum of the tags and flags that scans leave on every sequence of
/// at most `longest` categories out of `alphabet`, shortest first.
fn checksum(machine: &IndicMachine, alphabet: &[u8], longest: usize) -> (u64, usize) {
    let mut h = 0u64;
    let mut count = 0;
    for n in 0..=longest {
        let mut digits = vec![0usize; n];
        loop {
            let categories: Vec<u8> = digits.iter().map(|&d| alphabet[d]).collect();
            let mut buffer = buffer_of(&categories);
            machine.find_syllables(&mut buffer);
            for unit in &buffer.info {
                h = mix(h, unit.syllable as u64);
            }
            h = mix(h, 256 + buffer.has_broken_syllable as u64);
            count += 1;
            let mut at = n;
            while at > 0 && digits[at - 1] + 1 == alphabet.len() {
                digits[at - 1] = 0;
                at -= 1;
            }
            if at == 0 {
                break;
            }
            digits[at - 1] += 1;
        }
    }
    (h, count)
}

#[test]
fn every_short_indic_sequence_gets_the_expected_tags() {
    let machine = IndicMachine::load().ok().unwrap();
    let alphabet: Vec<u8> = (0..20).collect();
    assert_eq!(checksum(&machine, &alphabet, 3), (491105808437386673, 8421));
}

#[test]
fn every_sequence_of_common_indic_categories_gets_the_expected_tags() {
    let machine = IndicMachine::load().ok().unwrap();
    let alphabet = [1u8, 3, 4, 5, 6, 7, 8, 12, 15];
    assert_eq!(checksum(&machine, &alphabet, 5), (2424315781928773477, 66430));
}

#[test]
fn indic_action_lists_commit_in_three_ways() {
    let programs = load_programs();
    assert_eq!(programs.len(), 40);
    assert_eq!(programs[0], vec![]);
    assert_eq!(programs[5], vec![Action::EndInclusive]);
    assert_eq!(programs[7], vec![Action::EndInclusive, Action::Commit(5)]);
    assert_eq!(programs[9], vec![Action::EndExclusive, Action::Commit(0)]);
    assert_eq!(programs[17], vec![Action::EndExclusive, Action::Commit(4)]);
    assert_eq!(programs[21], vec![Action::Defer(0), Action::CommitDeferred]);
    assert_eq!(programs[29], vec![Action::Defer(4), Action::CommitDeferred]);
    assert_eq!(programs[31], vec![Action::CommitDeferred]);
    assert_eq!(programs[33], vec![Action::EndInclusive, Action::Defer(0)]);
    assert_eq!(programs[36], vec![Action::EndInclusive, Action::Defer(4)]);
    assert_eq!(programs[39], vec![Action::EndInclusive, Action::Defer(5)]);
    assert_eq!(programs.iter().filter(|p| p.is_empty()).count(), 23);
    assert_eq!(indic_table().graph.programs, programs);
}
