use std::collections::HashSet;

use rsear::audio::{chunk_samples, cue_at, midi_message, Cue, MidiMessage, Player, SCRIPT_LEN};
use rsear::state::NoteState;

/// Runs the player to the end, recording each handed-out cue with the
/// notes shown at that moment.
fn run_all() -> (Vec<(Cue, HashSet<u8>)>, NoteState) {
    let mut state = NoteState::default();
    let mut player = Player::new();
    let mut seen = Vec::new();
    while let Some(cue) = player.next(&mut state) {
        seen.push((cue, state.active_notes.clone()));
    }
    assert!(player.is_done());
    (seen, state)
}

#[test]
fn chunk_is_twenty_ms_of_stereo_audio() {
    assert_eq!(chunk_samples(), 1764);
    assert_eq!(chunk_samples(), 44100 * 2 * 20 / 1000);
}

#[test]
fn script_starts_with_middle_c_and_ends_finished() {
    assert_eq!(cue_at(0), Cue::NoteOn { note: 60, velocity: 100 });
    assert_eq!(cue_at(1), Cue::MarkOn { note: 60 });
    assert_eq!(cue_at(2), Cue::Render { chunks: 20 });
    assert_eq!(cue_at(3), Cue::NoteOff { note: 60 });
    assert_eq!(cue_at(4), Cue::MarkOff { note: 60 });
    assert_eq!(cue_at(5), Cue::Render { chunks: 3 });
    assert_eq!(cue_at(6), Cue::NoteOn { note: 62, velocity: 100 });
    assert_eq!(cue_at(48), Cue::Render { chunks: 10 });
    assert_eq!(cue_at(55), Cue::Render { chunks: 100 });
    assert_eq!(cue_at(62), Cue::Render { chunks: 50 });
    assert_eq!(cue_at(63), Cue::Drain);
    assert_eq!(cue_at(SCRIPT_LEN - 1), Cue::Finish);
}

#[test]
fn performance_plays_scale_then_chord() {
    let (seen, _) = run_all();
    let ons: Vec<u8> = seen
        .iter()
        .filter_map(|(c, _)| match c {
            Cue::NoteOn { note, velocity } => {
                assert_eq!(*velocity, 100);
                Some(*note)
            }
            _ => None,
        })
        .collect();
    assert_eq!(ons, vec![60, 62, 64, 65, 67, 69, 71, 72, 60, 64, 67]);
    let offs: Vec<u8> = seen
        .iter()
        .filter_map(|(c, _)| match c {
            Cue::NoteOff { note } => Some(*note),
            _ => None,
        })
        .collect();
    assert_eq!(offs, vec![60, 62, 64, 65, 67, 69, 71, 72, 60, 64, 67]);
}

#[test]
fn player_hands_out_only_outside_work() {
    let (seen, _) = run_all();
    for (cue, _) in &seen {
        assert!(!matches!(cue, Cue::MarkOn { .. } | Cue::MarkOff { .. } | Cue::Finish));
    }
    assert_eq!(seen.len(), 11 + 11 + 8 * 2 + 3 + 1);
    assert_eq!(seen.last().unwrap().0, Cue::Drain);
}

#[test]
fn performance_ends_with_nothing_shown_and_finished() {
    let (_, state) = run_all();
    assert!(state.active_notes.is_empty());
    assert!(state.finished);
}

#[test]
fn performance_keeps_unplayed_notes_shown() {
    let mut state = NoteState::default();
    state.start_note(50);
    state.start_note(60);
    let mut player = Player::new();
    while player.next(&mut state).is_some() {}
    let left: Vec<u8> = state.active_notes.iter().copied().collect();
    assert_eq!(left, vec![50]);
    assert!(state.finished);
}

#[test]
fn shown_notes_match_sounding_notes_while_rendering() {
    let (seen, _) = run_all();
    let mut sounding: HashSet<u8> = HashSet::new();
    let mut renders = 0;
    for (cue, shown) in &seen {
        match cue {
            Cue::NoteOn { note, .. } => {
                sounding.insert(*note);
            }
            Cue::NoteOff { note } => {
                sounding.remove(note);
            }
            Cue::Render { .. } => {
                renders += 1;
                assert_eq!(shown, &sounding);
            }
            _ => {}
        }
    }
    assert_eq!(renders, 8 * 2 + 3);
    assert!(sounding.is_empty());
}

#[test]
fn chord_is_shown_at_once() {
    let (seen, _) = run_all();
    let chord: HashSet<u8> = [60, 64, 67].into_iter().collect();
    let idx = seen.iter().position(|(c, _)| *c == Cue::Render { chunks: 100 }).unwrap();
    // The cue just before the chord render is its last note-on; the
    // three marks were applied together on the way to the render.
    assert_eq!(seen[idx - 1].0, Cue::NoteOn { note: 67, velocity: 100 });
    assert_eq!(seen[idx - 1].1, HashSet::new());
    assert_eq!(seen[idx].1, chord);
}

#[test]
fn performance_lasts_344_chunks() {
    let (seen, _) = run_all();
    let chunks: usize = seen
        .iter()
        .map(|(c, _)| match c {
            Cue::Render { chunks } => *chunks,
            _ => 0,
        })
        .sum();
    assert_eq!(chunks, 344);
    assert_eq!(chunks * 20, 6880);
}

#[test]
fn midi_messages_of_cues() {
    assert_eq!(
        midi_message(Cue::NoteOn { note: 60, velocity: 100 }),
        Some(MidiMessage::NoteOn { chan: 0, key: 60, vel: 100 })
    );
    assert_eq!(
        midi_message(Cue::NoteOn { note: 255, velocity: 7 }),
        Some(MidiMessage::NoteOn { chan: 0, key: 255, vel: 7 })
    );
    assert_eq!(midi_message(Cue::NoteOff { note: 64 }), Some(MidiMessage::NoteOff { chan: 0, key: 64 }));
    assert_eq!(midi_message(Cue::Render { chunks: 1 }), None);
    assert_eq!(midi_message(Cue::Drain), None);
    assert_eq!(midi_message(Cue::MarkOn { note: 60 }), None);
    assert_eq!(midi_message(Cue::MarkOff { note: 60 }), None);
    assert_eq!(midi_message(Cue::Finish), None);
}

#[test]
fn performance_sends_scale_then_chord() {
    let (seen, _) = run_all();
    let sent: Vec<MidiMessage> = seen.iter().filter_map(|(c, _)| midi_message(*c)).collect();
    let mut expected = Vec::new();
    for n in [60u32, 62, 64, 65, 67, 69, 71, 72] {
        expected.push(MidiMessage::NoteOn { chan: 0, key: n, vel: 100 });
        expected.push(MidiMessage::NoteOff { chan: 0, key: n });
    }
    for n in [60u32, 64, 67] {
        expected.push(MidiMessage::NoteOn { chan: 0, key: n, vel: 100 });
    }
    for n in [60u32, 64, 67] {
        expected.push(MidiMessage::NoteOff { chan: 0, key: n });
    }
    assert_eq!(sent, expected);
}

#[test]
fn published_states_in_order() {
    let mut state = NoteState::default();
    let mut player = Player::new();
    let mut published: Vec<(Vec<u8>, bool)> = Vec::new();
    loop {
        let cue = player.next(&mut state);
        let mut notes: Vec<u8> = state.active_notes.iter().copied().collect();
        notes.sort();
        if published.last() != Some(&(notes.clone(), state.finished)) {
            published.push((notes, state.finished));
        }
        if cue.is_none() {
            break;
        }
    }
    let mut expected: Vec<(Vec<u8>, bool)> = vec![(vec![], false)];
    for n in [60u8, 62, 64, 65, 67, 69, 71, 72] {
        expected.push((vec![n], false));
        expected.push((vec![], false));
    }
    expected.push((vec![60, 64, 67], false));
    expected.push((vec![], false));
    expected.push((vec![], true));
    assert_eq!(published, expected);
}
