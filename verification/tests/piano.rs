use std::collections::HashSet;
use std::sync::{Arc, Mutex};

use rsear::piano::{
    keyboard_layout, ledger_lines, sorted_notes, staff_layout, staff_lines, status_text, PianoApp,
};
use rsear::state::NoteState;

fn set(notes: &[u8]) -> HashSet<u8> {
    notes.iter().copied().collect()
}

#[test]
fn piano_app_shares_the_state() {
    let shared = Arc::new(Mutex::new(NoteState::default()));
    let app = PianoApp::new(shared.clone());
    assert!(Arc::ptr_eq(app.note_state(), &shared));
    shared.lock().unwrap().start_note(60);
    assert!(app.note_state().lock().unwrap().is_active(60));
}

#[test]
fn notes_are_sorted() {
    assert_eq!(sorted_notes(&set(&[67, 60, 64])), vec![60, 64, 67]);
    assert_eq!(sorted_notes(&set(&[255, 0])), vec![0, 255]);
    assert_eq!(sorted_notes(&HashSet::new()), Vec::<u8>::new());
}

#[test]
fn status_lines() {
    assert_eq!(status_text(&set(&[60]), true), "Playback finished.");
    assert_eq!(status_text(&HashSet::new(), false), "...");
    assert_eq!(status_text(&set(&[60]), false), "Playing: C4");
    assert_eq!(status_text(&set(&[67, 60, 64]), false), "Playing: C4 E4 G4");
    assert_eq!(status_text(&set(&[61, 100]), false), "Playing: C#4 ?");
}

#[test]
fn ledger_line_positions() {
    assert_eq!(ledger_lines(0), vec![0]);
    assert_eq!(ledger_lines(5), Vec::<i32>::new());
    assert_eq!(ledger_lines(-11), Vec::<i32>::new());
    assert_eq!(ledger_lines(-12), vec![-12]);
    assert_eq!(ledger_lines(-13), vec![-12]);
    assert_eq!(ledger_lines(-16), vec![-12, -14, -16]);
    assert_eq!(ledger_lines(11), Vec::<i32>::new());
    assert_eq!(ledger_lines(13), vec![12]);
    assert_eq!(ledger_lines(16), vec![12, 14, 16]);
}

#[test]
fn grand_staff_lines() {
    assert_eq!(staff_lines(), [-10, -8, -6, -4, -2, 2, 4, 6, 8, 10]);
}

#[test]
fn staff_layout_of_a_chord_and_a_low_note() {
    let layout = staff_layout(&set(&[61, 36, 60, 84]));
    let notes: Vec<u8> = layout.iter().map(|n| n.note).collect();
    assert_eq!(notes, vec![36, 60, 61, 84]);
    let positions: Vec<i32> = layout.iter().map(|n| n.position).collect();
    assert_eq!(positions, vec![-14, 0, 0, 14]);
    let sharps: Vec<bool> = layout.iter().map(|n| n.sharp).collect();
    assert_eq!(sharps, vec![false, false, true, false]);
    assert_eq!(layout[0].ledger_lines, vec![-12, -14]);
    assert_eq!(layout[1].ledger_lines, vec![0]);
    assert_eq!(layout[2].ledger_lines, vec![0]);
    assert_eq!(layout[3].ledger_lines, vec![12, 14]);
}

#[test]
fn keyboard_of_two_octaves() {
    let keys = keyboard_layout(&set(&[60, 61]));
    assert_eq!(keys.len(), 25);
    assert_eq!(keys[0].note, 48);
    assert_eq!(keys[24].note, 72);
    assert_eq!(keys.iter().filter(|k| !k.black).count(), 15);
    let c4 = &keys[12];
    assert_eq!((c4.note, c4.black, c4.slot, c4.active, c4.label), (60, false, 7, true, "C"));
    let cs4 = &keys[13];
    assert_eq!((cs4.note, cs4.black, cs4.slot, cs4.active, cs4.label), (61, true, 7, true, ""));
    let d4 = &keys[14];
    assert_eq!((d4.note, d4.black, d4.slot, d4.active, d4.label), (62, false, 8, false, "D"));
    let whites: Vec<usize> = keys.iter().filter(|k| !k.black).map(|k| k.slot).collect();
    assert_eq!(whites, (0..15).collect::<Vec<usize>>());
    let labels: Vec<&str> = keys.iter().filter(|k| !k.black).map(|k| k.label).collect();
    assert_eq!(labels.concat(), "CDEFGABCDEFGABC");
}
