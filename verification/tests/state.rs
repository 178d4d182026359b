use rsear::state::NoteState;

#[test]
fn default_state_is_silent_and_running() {
    let s = NoteState::default();
    assert!(s.active_notes.is_empty());
    assert!(!s.finished);
}

#[test]
fn start_and_stop_notes() {
    let mut s = NoteState::default();
    s.start_note(60);
    s.start_note(64);
    assert!(s.is_active(60));
    assert!(s.is_active(64));
    assert!(!s.is_active(62));
    s.stop_note(60);
    assert!(!s.is_active(60));
    assert!(s.is_active(64));
    s.stop_note(61);
    assert_eq!(s.active_notes.len(), 1);
    assert!(!s.finished);
    s.finish();
    assert!(s.finished);
    assert!(s.is_active(64));
}
