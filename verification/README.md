# rsear

A piano ear-training player: it plays a C major scale and a C major chord
on a SoundFont synthesizer while a window shows the sounding notes on a
grand staff, on a two-octave keyboard and as a line of note names.

- `src/keys.rs` — MIDI note arithmetic: black and white keys, keyboard
  slots, staff positions, note names, and the laws that tie them together.
- `src/state.rs` — `NoteState`, the notes shown as playing and the
  finished flag, shared between the player and the window.
- `src/audio.rs` — the performance as a script of cues, the `Player` that
  hands them out and applies the display updates, `midi_message` for the MIDI
  messages the app sends to `fluidlite`, and the laws of the performance.
- `src/piano.rs` — what the window draws: status line, staff layout with
  ledger lines and sharps, keyboard layout, and `PianoApp`.
- `app/` — the program: the audio thread (rendering and the `rodio`
  output device) and the `eframe` window that paints the layouts.
