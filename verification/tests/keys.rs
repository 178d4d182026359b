use rsear::keys::{
    black_key_left_white, is_black_key, midi_to_full_name, midi_to_staff_position, needs_sharp,
    note_name, white_key_count, white_key_index, HIGH_NOTE, LOW_NOTE, MIDDLE_C,
};

#[test]
fn black_keys_of_an_octave() {
    let black: Vec<u8> = (60..72).filter(|&n| is_black_key(n)).collect();
    assert_eq!(black, vec![61, 63, 66, 68, 70]);
    assert!(!is_black_key(0));
    assert!(is_black_key(1));
    assert!(is_black_key(253));
    assert!(!is_black_key(252));
}

#[test]
fn black_key_pitch_classes() {
    for n in 0..=255u8 {
        let pc = n % 12;
        assert_eq!(is_black_key(n), matches!(pc, 1 | 3 | 6 | 8 | 10), "note {n}");
    }
}

#[test]
fn sharps_are_black_keys() {
    for n in 0..=255u8 {
        assert_eq!(needs_sharp(n), is_black_key(n), "note {n}");
    }
}

#[test]
fn keyboard_has_fifteen_white_keys() {
    assert_eq!(white_key_count(LOW_NOTE, HIGH_NOTE), 15);
    assert_eq!(white_key_count(60, 71), 7);
    assert_eq!(white_key_count(61, 61), 0);
    assert_eq!(white_key_count(72, 60), 0);
    assert_eq!(white_key_count(0, 255), 149);
}

#[test]
fn white_key_indices() {
    assert_eq!(white_key_index(48), 0);
    assert_eq!(white_key_index(50), 1);
    assert_eq!(white_key_index(60), 7);
    assert_eq!(white_key_index(72), 14);
    assert_eq!(white_key_index(10), 0);
    assert_eq!(white_key_index(0), 0);
}

#[test]
fn black_key_neighbours() {
    assert_eq!(black_key_left_white(49), 0);
    assert_eq!(black_key_left_white(61), 7);
    assert_eq!(black_key_left_white(70), 12);
}

#[test]
fn staff_positions() {
    assert_eq!(midi_to_staff_position(MIDDLE_C), 0);
    assert_eq!(midi_to_staff_position(61), 0);
    assert_eq!(midi_to_staff_position(62), 1);
    assert_eq!(midi_to_staff_position(64), 2);
    assert_eq!(midi_to_staff_position(71), 6);
    assert_eq!(midi_to_staff_position(72), 7);
    assert_eq!(midi_to_staff_position(48), -7);
    assert_eq!(midi_to_staff_position(43), -10);
    assert_eq!(midi_to_staff_position(0), -35);
    assert_eq!(midi_to_staff_position(255), 113);
}

#[test]
fn staff_position_follows_white_keys() {
    for n in 0..255u8 {
        let step = midi_to_staff_position(n + 1) - midi_to_staff_position(n);
        assert_eq!(step, if is_black_key(n + 1) { 0 } else { 1 }, "note {n}");
    }
    for n in 0..=243u8 {
        assert_eq!(midi_to_staff_position(n + 12), midi_to_staff_position(n) + 7);
    }
}

#[test]
fn key_labels() {
    let labels: Vec<&str> = (60..72).map(note_name).collect();
    assert_eq!(labels, vec!["C", "", "D", "", "E", "F", "", "G", "", "A", "", "B"]);
}

#[test]
fn full_names() {
    assert_eq!(midi_to_full_name(48), "C3");
    assert_eq!(midi_to_full_name(61), "C#4");
    assert_eq!(midi_to_full_name(69), "A4");
    assert_eq!(midi_to_full_name(72), "C5");
    assert_eq!(midi_to_full_name(47), "?");
    assert_eq!(midi_to_full_name(73), "?");
    for n in LOW_NOTE..=HIGH_NOTE {
        let name = midi_to_full_name(n);
        let octave = (n / 12 - 1).to_string();
        assert!(name.ends_with(&octave), "note {n}");
        assert_eq!(name.contains('#'), is_black_key(n), "note {n}");
        if !is_black_key(n) {
            assert!(name.starts_with(note_name(n)), "note {n}");
        }
    }
}

#[test]
fn full_names_are_distinct_and_spelled_from_naturals() {
    let names: Vec<&str> = (LOW_NOTE..=HIGH_NOTE).map(midi_to_full_name).collect();
    for (i, a) in names.iter().enumerate() {
        for b in &names[i + 1..] {
            assert_ne!(a, b);
        }
    }
    for n in LOW_NOTE..=HIGH_NOTE {
        let natural = if is_black_key(n) { n - 1 } else { n };
        assert!(midi_to_full_name(n).starts_with(note_name(natural)), "note {n}");
    }
}
