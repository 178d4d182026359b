//! The performance: a C major scale followed by a C major chord, as a
//! script of cues that a [`Player`] hands out one at a time. Cues that
//! only change the shared [`NoteState`] are applied by the player itself;
//! MIDI cues become messages for the synthesizer through [`midi_message`]; rendering audio
//! and waiting for the output device are left to the caller.
use crate::state::{NoteState, NoteStateView};
use vstd::prelude::*;
use vstd::arithmetic::div_mod::lemma_fundamental_div_mod_converse;

verus! {

broadcast use vstd::std_specs::hash::group_hash_axioms;

/// Output sample rate in Hz.
pub const SAMPLE_RATE: u32 = 44100;

/// Number of interleaved output channels (stereo).
pub const CHANNELS: u16 = 2;

/// Length of one rendered chunk in milliseconds.
pub const CHUNK_MS: usize = 20;

/// MIDI velocity of every note of the performance.
pub const VELOCITY: u32 = 100;

/// How long each note of the scale is held, in milliseconds.
pub const NOTE_MS: usize = 400;

/// How long the chord is held, in milliseconds.
pub const CHORD_MS: usize = 2000;

/// Chunks rendered after each scale note is released.
pub const RELEASE_CHUNKS: usize = 3;

/// Chunks rendered between the scale and the chord.
pub const PAUSE_CHUNKS: usize = 10;

/// Chunks rendered after the chord is released.
pub const FINAL_RELEASE_CHUNKS: usize = 50;

/// Number of cues in the performance script.
pub const SCRIPT_LEN: usize = 65;

/// Number of samples (over all channels) in one chunk of `CHUNK_MS`.
pub fn chunk_samples() -> (r: usize)
    ensures
        r == SAMPLE_RATE * CHANNELS * CHUNK_MS / 1000,
        r == 1764,
{
    SAMPLE_RATE as usize * CHANNELS as usize * CHUNK_MS / 1000
}

/// One step of the performance.
#[derive(Clone, Copy, Debug, PartialEq, Eq, Structural)]
pub enum Cue {
    /// Start sounding `note` on the synthesizer.
    NoteOn { note: u8, velocity: u32 },
    /// Stop sounding `note` on the synthesizer.
    NoteOff { note: u8 },
    /// Show `note` as playing.
    MarkOn { note: u8 },
    /// Show `note` as no longer playing.
    MarkOff { note: u8 },
    /// Render `chunks` chunks of audio and queue them for output.
    Render { chunks: usize },
    /// Wait until all queued audio has been played.
    Drain,
    /// Mark the performance as finished.
    Finish,
}

/// The eight notes of the C major scale, C4 to C5.
pub open spec fn spec_scale_note(k: int) -> u8 {
    if k == 0 {
        60
    } else if k == 1 {
        62
    } else if k == 2 {
        64
    } else if k == 3 {
        65
    } else if k == 4 {
        67
    } else if k == 5 {
        69
    } else if k == 6 {
        71
    } else {
        72
    }
}

/// The three notes of the C major chord: C4, E4, G4.
pub open spec fn spec_chord_note(j: int) -> u8 {
    if j == 0 {
        60
    } else if j == 1 {
        64
    } else {
        67
    }
}

/// The `i`-th cue of the performance. Each scale note takes six cues:
/// sound it, show it, hold it for `NOTE_MS`, stop it, unshow it, and
/// render a short release tail. Then a pause, the chord (all three notes
/// sounded, then shown together, held for `CHORD_MS`, stopped, unshown
/// together), a final release tail, a wait for the output to drain, and
/// the end.
pub open spec fn spec_cue(i: int) -> Cue {
    if i < 48 {
        let note = spec_scale_note(i / 6);
        let phase = i % 6;
        if phase == 0 {
            Cue::NoteOn { note, velocity: VELOCITY }
        } else if phase == 1 {
            Cue::MarkOn { note }
        } else if phase == 2 {
            Cue::Render { chunks: NOTE_MS / CHUNK_MS }
        } else if phase == 3 {
            Cue::NoteOff { note }
        } else if phase == 4 {
            Cue::MarkOff { note }
        } else {
            Cue::Render { chunks: RELEASE_CHUNKS }
        }
    } else if i == 48 {
        Cue::Render { chunks: PAUSE_CHUNKS }
    } else if i < 52 {
        Cue::NoteOn { note: spec_chord_note(i - 49), velocity: VELOCITY }
    } else if i < 55 {
        Cue::MarkOn { note: spec_chord_note(i - 52) }
    } else if i == 55 {
        Cue::Render { chunks: CHORD_MS / CHUNK_MS }
    } else if i < 59 {
        Cue::NoteOff { note: spec_chord_note(i - 56) }
    } else if i < 62 {
        Cue::MarkOff { note: spec_chord_note(i - 59) }
    } else if i == 62 {
        Cue::Render { chunks: FINAL_RELEASE_CHUNKS }
    } else if i == 63 {
        Cue::Drain
    } else {
        Cue::Finish
    }
}

/// Cues that only change the shared note state.
pub open spec fn spec_is_state_cue(c: Cue) -> bool {
    c is MarkOn || c is MarkOff || c is Finish
}

/// The effect of a cue on the shared note state.
pub open spec fn spec_apply(s: NoteStateView, c: Cue) -> NoteStateView {
    match c {
        Cue::MarkOn { note } => NoteStateView { active: s.active.insert(note), finished: s.finished },
        Cue::MarkOff { note } => NoteStateView { active: s.active.remove(note), finished: s.finished },
        Cue::Finish => NoteStateView { active: s.active, finished: true },
        _ => s,
    }
}

/// The note state after the cues `from..to` have been applied to `s`.
pub open spec fn spec_run(s: NoteStateView, from: int, to: int) -> NoteStateView
    decreases to - from,
{
    if to <= from {
        s
    } else {
        spec_apply(spec_run(s, from, to - 1), spec_cue(to - 1))
    }
}

/// The first cue at or after `p` that is not a state cue (or the end of
/// the script).
pub open spec fn spec_next_outside(p: int) -> int
    decreases SCRIPT_LEN - p,
{
    if p >= SCRIPT_LEN {
        SCRIPT_LEN as int
    } else if spec_is_state_cue(spec_cue(p)) {
        spec_next_outside(p + 1)
    } else {
        p
    }
}

/// Notes of the scale, by index.
fn scale_note(k: usize) -> (r: u8)
    ensures
        r == spec_scale_note(k as int),
{
    if k == 0 {
        60
    } else if k == 1 {
        62
    } else if k == 2 {
        64
    } else if k == 3 {
        65
    } else if k == 4 {
        67
    } else if k == 5 {
        69
    } else if k == 6 {
        71
    } else {
        72
    }
}

/// Notes of the chord, by index.
fn chord_note(j: usize) -> (r: u8)
    ensures
        r == spec_chord_note(j as int),
{
    if j == 0 {
        60
    } else if j == 1 {
        64
    } else {
        67
    }
}

/// The `i`-th cue of the performance.
pub fn cue_at(i: usize) -> (r: Cue)
    requires
        i < SCRIPT_LEN,
    ensures
        r == spec_cue(i as int),
{
    if i < 48 {
        let note = scale_note(i / 6);
        let phase = i % 6;
        if phase == 0 {
            Cue::NoteOn { note, velocity: VELOCITY }
        } else if phase == 1 {
            Cue::MarkOn { note }
        } else if phase == 2 {
            Cue::Render { chunks: NOTE_MS / CHUNK_MS }
        } else if phase == 3 {
            Cue::NoteOff { note }
        } else if phase == 4 {
            Cue::MarkOff { note }
        } else {
            Cue::Render { chunks: RELEASE_CHUNKS }
        }
    } else if i == 48 {
        Cue::Render { chunks: PAUSE_CHUNKS }
    } else if i < 52 {
        Cue::NoteOn { note: chord_note(i - 49), velocity: VELOCITY }
    } else if i < 55 {
        Cue::MarkOn { note: chord_note(i - 52) }
    } else if i == 55 {
        Cue::Render { chunks: CHORD_MS / CHUNK_MS }
    } else if i < 59 {
        Cue::NoteOff { note: chord_note(i - 56) }
    } else if i < 62 {
        Cue::MarkOff { note: chord_note(i - 59) }
    } else if i == 62 {
        Cue::Render { chunks: FINAL_RELEASE_CHUNKS }
    } else if i == 63 {
        Cue::Drain
    } else {
        Cue::Finish
    }
}

/// Applies a state cue to the note state; other cues leave it unchanged.
pub fn apply_cue(state: &mut NoteState, cue: Cue)
    ensures
        final(state)@ == spec_apply(old(state)@, cue),
{
    match cue {
        Cue::MarkOn { note } => state.start_note(note),
        Cue::MarkOff { note } => state.stop_note(note),
        Cue::Finish => state.finish(),
        _ => {},
    }
}

/// Steps through the performance script.
pub struct Player {
    pos: usize,
}

impl Player {
    #[verifier::type_invariant]
    spec fn inv(self) -> bool {
        self.pos <= SCRIPT_LEN
    }

    /// Index of the next cue to hand out.
    pub closed spec fn position(self) -> int {
        self.pos as int
    }

    /// A player at the start of the script.
    pub fn new() -> (p: Self)
        ensures
            p.position() == 0,
    {
        Player { pos: 0 }
    }

    /// Whether every cue has been handed out.
    pub fn is_done(&self) -> (r: bool)
        ensures
            r == (self.position() == SCRIPT_LEN),
    {
        proof {
            use_type_invariant(self);
        }
        self.pos == SCRIPT_LEN
    }

    /// Applies the state cues from the current position to `state` and
    /// returns the next cue that needs outside work (sounding the
    /// synthesizer, rendering, draining), or `None` at the end of the
    /// script. State cues that follow each other are applied in one call,
    /// so a caller that holds a lock on the state for the call publishes
    /// them together.
    pub fn next(&mut self, state: &mut NoteState) -> (r: Option<Cue>)
        ensures
            0 <= old(self).position() <= SCRIPT_LEN,
            final(state)@ == spec_run(
                old(state)@,
                old(self).position(),
                spec_next_outside(old(self).position()),
            ),
            spec_next_outside(old(self).position()) < SCRIPT_LEN ==> {
                &&& r == Some(spec_cue(spec_next_outside(old(self).position())))
                &&& final(self).position() == spec_next_outside(old(self).position()) + 1
            },
            spec_next_outside(old(self).position()) >= SCRIPT_LEN ==> {
                &&& r is None
                &&& final(self).position() == SCRIPT_LEN
            },
    {
        proof {
            use_type_invariant(&*self);
        }
        let ghost start = self.pos as int;
        let ghost s0 = state@;
        let mut pos = self.pos;
        while pos < SCRIPT_LEN && is_state_cue(cue_at(pos))
            invariant
                start <= pos <= SCRIPT_LEN,
                state@ == spec_run(s0, start, pos as int),
                spec_next_outside(start) == spec_next_outside(pos as int),
            decreases SCRIPT_LEN - pos,
        {
            apply_cue(state, cue_at(pos));
            pos = pos + 1;
        }
        if pos < SCRIPT_LEN {
            self.pos = pos + 1;
            Some(cue_at(pos))
        } else {
            self.pos = SCRIPT_LEN;
            None
        }
    }
}

/// Whether a cue only changes the shared note state.
pub fn is_state_cue(c: Cue) -> (r: bool)
    ensures
        r == spec_is_state_cue(c),
{
    match c {
        Cue::MarkOn { .. } | Cue::MarkOff { .. } | Cue::Finish => true,
        _ => false,
    }
}

/// A MIDI channel message for the synthesizer.
#[derive(Clone, Copy, Debug, PartialEq, Eq, Structural)]
pub enum MidiMessage {
    /// Start sounding `key` on channel `chan` with velocity `vel`.
    NoteOn { chan: u32, key: u32, vel: u32 },
    /// Stop sounding `key` on channel `chan`.
    NoteOff { chan: u32, key: u32 },
}

/// MIDI channel on which every note is played.
pub const MIDI_CHANNEL: u32 = 0;

/// The MIDI message a cue sends to the synthesizer: a `NoteOn` cue is a
/// note-on of its note at its velocity and a `NoteOff` cue a note-off of
/// its note, both on `MIDI_CHANNEL`; no other cue sends a message.
pub open spec fn spec_midi_of(c: Cue) -> Option<MidiMessage> {
    match c {
        Cue::NoteOn { note, velocity } => Some(
            MidiMessage::NoteOn { chan: MIDI_CHANNEL, key: note as u32, vel: velocity },
        ),
        Cue::NoteOff { note } => Some(MidiMessage::NoteOff { chan: MIDI_CHANNEL, key: note as u32 }),
        _ => None,
    }
}

/// The MIDI message that `cue` sends to the synthesizer, if any.
pub fn midi_message(cue: Cue) -> (r: Option<MidiMessage>)
    ensures
        r == spec_midi_of(cue),
{
    match cue {
        Cue::NoteOn { note, velocity } => Some(
            MidiMessage::NoteOn { chan: MIDI_CHANNEL, key: note as u32, vel: velocity },
        ),
        Cue::NoteOff { note } => Some(MidiMessage::NoteOff { chan: MIDI_CHANNEL, key: note as u32 }),
        _ => None,
    }
}

// ---------------------------------------------------------------------
// Laws of the performance
// ---------------------------------------------------------------------

/// The notes left sounding by the MIDI messages that the cues `0..i`
/// send to the synthesizer: a key sounds from its note-on until its
/// note-off.
pub open spec fn spec_sounding(i: int) -> Set<u8>
    decreases i,
{
    if i <= 0 {
        Set::empty()
    } else {
        match spec_midi_of(spec_cue(i - 1)) {
            Some(MidiMessage::NoteOn { key, .. }) => spec_sounding(i - 1).insert(key as u8),
            Some(MidiMessage::NoteOff { key, .. }) => spec_sounding(i - 1).remove(key as u8),
            None => spec_sounding(i - 1),
        }
    }
}

/// The MIDI messages that the cues `0..i` send to the synthesizer, in
/// order.
pub open spec fn spec_midi_sent(i: int) -> Seq<MidiMessage>
    decreases i,
{
    if i <= 0 {
        Seq::empty()
    } else {
        match spec_midi_of(spec_cue(i - 1)) {
            Some(m) => spec_midi_sent(i - 1).push(m),
            None => spec_midi_sent(i - 1),
        }
    }
}

/// Chunks of audio rendered by the cues `0..i`.
pub open spec fn spec_rendered_chunks(i: int) -> int
    decreases i,
{
    if i <= 0 {
        0
    } else {
        spec_rendered_chunks(i - 1) + match spec_cue(i - 1) {
            Cue::Render { chunks } => chunks as int,
            _ => 0int,
        }
    }
}

/// `a` with the first `k` notes of the scale taken out.
pub open spec fn spec_without_scale(a: Set<u8>, k: int) -> Set<u8>
    decreases k,
{
    if k <= 0 {
        a
    } else {
        spec_without_scale(a, k - 1).remove(spec_scale_note(k - 1))
    }
}

/// Every note that the performance plays.
pub open spec fn spec_played_notes() -> Set<u8> {
    set![60u8, 62u8, 64u8, 65u8, 67u8, 69u8, 71u8, 72u8]
}

/// The note state before any cue has been applied.
pub open spec fn spec_initial_state() -> NoteStateView {
    NoteStateView { active: Set::empty(), finished: false }
}

/// The six cues of the `k`-th scale note.
proof fn lemma_scale_cues(k: int)
    requires
        0 <= k < 8,
    ensures
        spec_cue(6 * k) == (Cue::NoteOn { note: spec_scale_note(k), velocity: VELOCITY }),
        spec_cue(6 * k + 1) == (Cue::MarkOn { note: spec_scale_note(k) }),
        spec_cue(6 * k + 2) == (Cue::Render { chunks: NOTE_MS / CHUNK_MS }),
        spec_cue(6 * k + 3) == (Cue::NoteOff { note: spec_scale_note(k) }),
        spec_cue(6 * k + 4) == (Cue::MarkOff { note: spec_scale_note(k) }),
        spec_cue(6 * k + 5) == (Cue::Render { chunks: RELEASE_CHUNKS }),
{
    lemma_fundamental_div_mod_converse(6 * k, 6, k, 0);
    lemma_fundamental_div_mod_converse(6 * k + 1, 6, k, 1);
    lemma_fundamental_div_mod_converse(6 * k + 2, 6, k, 2);
    lemma_fundamental_div_mod_converse(6 * k + 3, 6, k, 3);
    lemma_fundamental_div_mod_converse(6 * k + 4, 6, k, 4);
    lemma_fundamental_div_mod_converse(6 * k + 5, 6, k, 5);
}

/// What one scale note does to the shown notes, the sounding notes and
/// the rendered audio.
proof fn lemma_scale_block(s: NoteStateView, k: int)
    requires
        0 <= k < 8,
    ensures
        ({
            let a = spec_run(s, 0, 6 * k);
            let b = spec_sounding(6 * k);
            let n = spec_scale_note(k);
            &&& spec_run(s, 0, 6 * k + 2) == NoteStateView { active: a.active.insert(n), finished: a.finished }
            &&& spec_sounding(6 * k + 2) == b.insert(n)
            &&& spec_run(s, 0, 6 * k + 5) == NoteStateView {
                active: a.active.insert(n).remove(n),
                finished: a.finished,
            }
            &&& spec_sounding(6 * k + 5) == b.insert(n).remove(n)
            &&& spec_run(s, 0, 6 * k + 3) == spec_run(s, 0, 6 * k + 2)
            &&& spec_run(s, 0, 6 * k + 6) == spec_run(s, 0, 6 * k + 5)
            &&& spec_sounding(6 * k + 6) == spec_sounding(6 * k + 5)
            &&& spec_rendered_chunks(6 * k + 6) == spec_rendered_chunks(6 * k) + 23
        }),
{
    lemma_scale_cues(k);
    assert(spec_run(s, 0, 6 * k + 1) == spec_run(s, 0, 6 * k));
    assert(spec_run(s, 0, 6 * k + 3) == spec_run(s, 0, 6 * k + 2));
    assert(spec_run(s, 0, 6 * k + 4) == spec_run(s, 0, 6 * k + 3));
    assert(spec_sounding(6 * k + 1) == spec_sounding(6 * k).insert(spec_scale_note(k)));
    assert(spec_sounding(6 * k + 3) == spec_sounding(6 * k + 2));
    assert(spec_sounding(6 * k + 5) == spec_sounding(6 * k + 4));
    assert(spec_rendered_chunks(6 * k + 1) == spec_rendered_chunks(6 * k));
    assert(spec_rendered_chunks(6 * k + 2) == spec_rendered_chunks(6 * k));
    assert(spec_rendered_chunks(6 * k + 3) == spec_rendered_chunks(6 * k) + 20);
    assert(spec_rendered_chunks(6 * k + 4) == spec_rendered_chunks(6 * k) + 20);
    assert(spec_rendered_chunks(6 * k + 5) == spec_rendered_chunks(6 * k) + 20);
}

/// After the first `k` scale notes: those notes are no longer shown,
/// nothing sounds, and `23 * k` chunks have been rendered.
proof fn lemma_scale_prefix(s: NoteStateView, k: int)
    requires
        0 <= k <= 8,
    ensures
        spec_run(s, 0, 6 * k) == (NoteStateView {
            active: spec_without_scale(s.active, k),
            finished: s.finished,
        }),
        spec_sounding(6 * k) == Set::<u8>::empty(),
        spec_rendered_chunks(6 * k) == 23 * k,
    decreases k,
{
    if k > 0 {
        lemma_scale_prefix(s, k - 1);
        lemma_scale_block(s, k - 1);
        let n = spec_scale_note(k - 1);
        assert(spec_without_scale(s.active, k - 1).insert(n).remove(n) =~= spec_without_scale(
            s.active,
            k,
        ));
        assert(Set::<u8>::empty().insert(n).remove(n) =~= Set::<u8>::empty());
    }
}

/// Taking notes out of the empty set leaves it empty.
proof fn lemma_without_scale_empty(k: int)
    requires
        0 <= k,
    ensures
        spec_without_scale(Set::empty(), k) == Set::<u8>::empty(),
    decreases k,
{
    if k > 0 {
        lemma_without_scale_empty(k - 1);
        assert(Set::<u8>::empty().remove(spec_scale_note(k - 1)) =~= Set::<u8>::empty());
    }
}

/// Cues `a..b` that change no note state leave the state as it was.
proof fn lemma_no_state_cues(s: NoteStateView, a: int, b: int)
    requires
        0 <= a <= b,
        forall|i: int| a <= i < b ==> !spec_is_state_cue(#[trigger] spec_cue(i)),
    ensures
        forall|i: int| a <= i <= b ==> #[trigger] spec_run(s, 0, i) == spec_run(s, 0, a),
    decreases b - a,
{
    if a < b {
        lemma_no_state_cues(s, a, b - 1);
        assert(spec_run(s, 0, b) == spec_run(s, 0, b - 1));
    }
}

/// Cues `a..b` that send no MIDI message leave the sounding keys and the
/// sent messages as they were.
proof fn lemma_no_midi_cues(a: int, b: int)
    requires
        0 <= a <= b,
        forall|i: int| a <= i < b ==> #[trigger] spec_midi_of(spec_cue(i)) is None,
    ensures
        spec_sounding(b) == spec_sounding(a),
        spec_midi_sent(b) == spec_midi_sent(a),
    decreases b - a,
{
    if a < b {
        lemma_no_midi_cues(a, b - 1);
    }
}

/// Cues `a..b` that render nothing leave the rendered audio as it was.
proof fn lemma_no_render_cues(a: int, b: int)
    requires
        0 <= a <= b,
        forall|i: int| a <= i < b ==> !(#[trigger] spec_cue(i) is Render),
    ensures
        spec_rendered_chunks(b) == spec_rendered_chunks(a),
    decreases b - a,
{
    if a < b {
        lemma_no_render_cues(a, b - 1);
    }
}

/// The chord: state, sounding notes and rendered audio from cue 48 on.
proof fn lemma_chord(s: NoteStateView)
    ensures
        ({
            let a = spec_run(s, 0, 48);
            let on = a.active.insert(60).insert(64).insert(67);
            let off = on.remove(60).remove(64).remove(67);
            let sound = spec_sounding(48).insert(60).insert(64).insert(67);
            &&& forall|i: int| 48 <= i <= 52 ==> #[trigger] spec_run(s, 0, i) == a
            &&& forall|i: int|
                55 <= i <= 59 ==> #[trigger] spec_run(s, 0, i) == (NoteStateView {
                    active: on,
                    finished: a.finished,
                })
            &&& forall|i: int|
                62 <= i <= 64 ==> #[trigger] spec_run(s, 0, i) == (NoteStateView {
                    active: off,
                    finished: a.finished,
                })
            &&& spec_run(s, 0, 65) == NoteStateView { active: off, finished: true }
            &&& spec_sounding(55) == sound
            &&& spec_sounding(62) == sound.remove(60).remove(64).remove(67)
            &&& spec_sounding(65) == spec_sounding(62)
            &&& spec_rendered_chunks(65) == spec_rendered_chunks(48) + 160
        }),
{
    let a = spec_run(s, 0, 48);
    lemma_no_state_cues(s, 48, 52);
    let on = a.active.insert(60).insert(64).insert(67);
    let off = on.remove(60).remove(64).remove(67);
    assert(spec_run(s, 0, 55) == (NoteStateView { active: on, finished: a.finished })) by {
        assert(spec_run(s, 0, 52) == a);
        assert(spec_run(s, 0, 53) == (NoteStateView { active: a.active.insert(60), finished: a.finished }));
        assert(spec_run(s, 0, 54) == (NoteStateView {
            active: a.active.insert(60).insert(64),
            finished: a.finished,
        }));
    }
    lemma_no_state_cues(s, 55, 59);
    assert(spec_run(s, 0, 62) == (NoteStateView { active: off, finished: a.finished })) by {
        assert(spec_run(s, 0, 59) == spec_run(s, 0, 55));
        assert(spec_run(s, 0, 60) == (NoteStateView { active: on.remove(60), finished: a.finished }));
        assert(spec_run(s, 0, 61) == (NoteStateView {
            active: on.remove(60).remove(64),
            finished: a.finished,
        }));
    }
    lemma_no_state_cues(s, 62, 64);
    assert(spec_run(s, 0, 64) == spec_run(s, 0, 62));

    lemma_no_midi_cues(48, 49);
    assert(spec_sounding(52) == spec_sounding(48).insert(60).insert(64).insert(67)) by {
        assert(spec_sounding(50) == spec_sounding(48).insert(60));
        assert(spec_sounding(51) == spec_sounding(48).insert(60).insert(64));
    }
    lemma_no_midi_cues(52, 56);
    let sound = spec_sounding(48).insert(60).insert(64).insert(67);
    assert(spec_sounding(59) == sound.remove(60).remove(64).remove(67)) by {
        assert(spec_sounding(57) == sound.remove(60));
        assert(spec_sounding(58) == sound.remove(60).remove(64));
    }
    lemma_no_midi_cues(59, 62);
    lemma_no_midi_cues(59, 65);

    assert(spec_rendered_chunks(49) == spec_rendered_chunks(48) + 10);
    lemma_no_render_cues(49, 55);
    assert(spec_rendered_chunks(56) == spec_rendered_chunks(48) + 110);
    lemma_no_render_cues(56, 62);
    assert(spec_rendered_chunks(63) == spec_rendered_chunks(48) + 160);
    lemma_no_render_cues(63, 65);
}

/// The performance plays every note of the scale and the chord and
/// releases all of them: afterwards no note of it is shown, the notes
/// shown before that it did not play stay shown, and playback is
/// marked finished.
pub proof fn law_performance_releases_every_note(s: NoteStateView)
    ensures
        spec_run(s, 0, SCRIPT_LEN as int) == (NoteStateView {
            active: s.active.difference(spec_played_notes()),
            finished: true,
        }),
{
    lemma_scale_prefix(s, 8);
    lemma_chord(s);
    reveal_with_fuel(spec_without_scale, 9);
    assert(spec_without_scale(s.active, 8).insert(60).insert(64).insert(67).remove(60).remove(
        64,
    ).remove(67) =~= s.active.difference(spec_played_notes()));
}

/// Every key that the performance sends a note-on for it later sends a
/// note-off for: after all its MIDI messages no key is left sounding.
pub proof fn law_performance_leaves_synth_silent()
    ensures
        spec_sounding(SCRIPT_LEN as int) == Set::<u8>::empty(),
{
    lemma_scale_prefix(spec_initial_state(), 8);
    lemma_chord(spec_initial_state());
    assert(Set::<u8>::empty().insert(60).insert(64).insert(67).remove(60).remove(64).remove(67)
        =~= Set::<u8>::empty());
}

/// Whenever audio is rendered, the notes shown as playing are exactly the
/// keys left sounding by the MIDI messages sent so far.
pub proof fn law_shown_notes_are_sounding_notes(i: int)
    requires
        0 <= i < SCRIPT_LEN,
        spec_cue(i) is Render,
    ensures
        spec_run(spec_initial_state(), 0, i).active == spec_sounding(i),
{
    let s = spec_initial_state();
    if i < 48 {
        let k = i / 6;
        lemma_fundamental_div_mod_converse(i, 6, k, i % 6);
        lemma_scale_prefix(s, k);
        lemma_without_scale_empty(k);
        lemma_scale_block(s, k);
    } else {
        lemma_scale_prefix(s, 8);
        lemma_without_scale_empty(8);
        lemma_chord(s);
        if i == 48 {
        } else if i == 55 {
        } else {
            assert(i == 62);
        }
    }
}

/// The scale sounds one note at a time, in rising order: while the
/// `k`-th note is held, it is the only key that the messages sent so far
/// leave sounding.
pub proof fn law_scale_sounds_one_note_at_a_time(k: int)
    requires
        0 <= k < 8,
    ensures
        spec_sounding(6 * k + 2) == set![spec_scale_note(k)],
        k + 1 < 8 ==> spec_scale_note(k) < spec_scale_note(k + 1),
{
    lemma_scale_prefix(spec_initial_state(), k);
    lemma_scale_block(spec_initial_state(), k);
    assert(Set::<u8>::empty().insert(spec_scale_note(k)) =~= set![spec_scale_note(k)]);
}

/// While the chord is held, the messages sent so far leave exactly its
/// three keys sounding.
pub proof fn law_chord_sounds_together()
    ensures
        spec_cue(55) == (Cue::Render { chunks: CHORD_MS / CHUNK_MS }),
        spec_sounding(55) == set![60u8, 64u8, 67u8],
{
    lemma_scale_prefix(spec_initial_state(), 8);
    lemma_chord(spec_initial_state());
    assert(Set::<u8>::empty().insert(60).insert(64).insert(67) =~= set![60u8, 64u8, 67u8]);
}

/// The whole performance renders 344 chunks, that is 6880 ms of audio.
pub proof fn law_performance_length()
    ensures
        spec_rendered_chunks(SCRIPT_LEN as int) == 344,
        spec_rendered_chunks(SCRIPT_LEN as int) * CHUNK_MS == 6880,
{
    lemma_scale_prefix(spec_initial_state(), 8);
    lemma_chord(spec_initial_state());
}

/// Applying the cues `a..b` and then `b..c` is applying the cues `a..c`:
/// successive calls of [`Player::next`] apply the script in order.
pub proof fn law_run_composes(s: NoteStateView, a: int, b: int, c: int)
    requires
        a <= b <= c,
    ensures
        spec_run(spec_run(s, a, b), b, c) == spec_run(s, a, c),
    decreases c - b,
{
    if b < c {
        law_run_composes(s, a, b, c - 1);
    }
}

/// Playback is marked finished only by the last cue, right after the
/// output has drained: before that the finished flag keeps its value.
pub proof fn law_finished_only_after_drain(s: NoteStateView, i: int)
    requires
        0 <= i < SCRIPT_LEN,
    ensures
        spec_run(s, 0, i).finished == s.finished,
        spec_cue(SCRIPT_LEN - 2) == Cue::Drain,
        spec_cue(SCRIPT_LEN - 1) == Cue::Finish,
        spec_run(s, 0, SCRIPT_LEN as int).finished,
    decreases i,
{
    if i > 0 {
        law_finished_only_after_drain(s, i - 1);
    }
    law_performance_releases_every_note(s);
}

/// The note-on and note-off messages of the first `k` scale notes.
pub open spec fn spec_scale_messages(k: int) -> Seq<MidiMessage>
    decreases k,
{
    if k <= 0 {
        Seq::empty()
    } else {
        spec_scale_messages(k - 1) + seq![
            MidiMessage::NoteOn { chan: 0, key: spec_scale_note(k - 1) as u32, vel: 100 },
            MidiMessage::NoteOff { chan: 0, key: spec_scale_note(k - 1) as u32 },
        ]
    }
}

/// Each scale note is one note-on on channel 0 at velocity 100, held for
/// 20 chunks, then one note-off on channel 0, followed by 3 chunks of
/// release.
pub proof fn law_scale_note_messages(k: int)
    requires
        0 <= k < 8,
    ensures
        spec_midi_of(spec_cue(6 * k)) == Some(
            MidiMessage::NoteOn { chan: 0, key: spec_scale_note(k) as u32, vel: 100 },
        ),
        spec_midi_of(spec_cue(6 * k + 1)) is None,
        spec_cue(6 * k + 2) == (Cue::Render { chunks: 20 }),
        spec_midi_of(spec_cue(6 * k + 3)) == Some(
            MidiMessage::NoteOff { chan: 0, key: spec_scale_note(k) as u32 },
        ),
        spec_midi_of(spec_cue(6 * k + 4)) is None,
        spec_cue(6 * k + 5) == (Cue::Render { chunks: 3 }),
{
    lemma_scale_cues(k);
}

/// After the first `k` scale notes the synthesizer has received exactly
/// their note-on/note-off pairs, in order.
proof fn lemma_scale_messages_prefix(k: int)
    requires
        0 <= k <= 8,
    ensures
        spec_midi_sent(6 * k) == spec_scale_messages(k),
    decreases k,
{
    if k > 0 {
        lemma_scale_messages_prefix(k - 1);
        law_scale_note_messages(k - 1);
        let j = 6 * (k - 1);
        assert(spec_midi_sent(j + 1) == spec_midi_sent(j).push(
            MidiMessage::NoteOn { chan: 0, key: spec_scale_note(k - 1) as u32, vel: 100 },
        ));
        assert(spec_midi_sent(j + 2) == spec_midi_sent(j + 1));
        assert(spec_midi_sent(j + 3) == spec_midi_sent(j + 1));
        assert(spec_midi_sent(j + 4) == spec_midi_sent(j + 1).push(
            MidiMessage::NoteOff { chan: 0, key: spec_scale_note(k - 1) as u32 },
        ));
        assert(spec_midi_sent(j + 5) == spec_midi_sent(j + 4));
        assert(spec_midi_sent(j + 6) == spec_midi_sent(j + 4));
        assert(spec_midi_sent(6 * k) =~= spec_scale_messages(k));
    }
}

/// The whole performance sends, in order, a note-on and a note-off on
/// channel 0 at velocity 100 for each scale note C4 D4 E4 F4 G4 A4 B4 C5,
/// then note-ons of C4, E4, G4 and the note-offs of C4, E4, G4.
pub proof fn law_performance_messages()
    ensures
        spec_midi_sent(SCRIPT_LEN as int) == spec_scale_messages(8) + seq![
            MidiMessage::NoteOn { chan: 0, key: 60, vel: 100 },
            MidiMessage::NoteOn { chan: 0, key: 64, vel: 100 },
            MidiMessage::NoteOn { chan: 0, key: 67, vel: 100 },
            MidiMessage::NoteOff { chan: 0, key: 60 },
            MidiMessage::NoteOff { chan: 0, key: 64 },
            MidiMessage::NoteOff { chan: 0, key: 67 },
        ],
{
    lemma_scale_messages_prefix(8);
    lemma_no_midi_cues(48, 49);
    let m = spec_midi_sent(48);
    let on60 = MidiMessage::NoteOn { chan: 0, key: 60, vel: 100 };
    let on64 = MidiMessage::NoteOn { chan: 0, key: 64, vel: 100 };
    let on67 = MidiMessage::NoteOn { chan: 0, key: 67, vel: 100 };
    assert(spec_midi_sent(52) == m.push(on60).push(on64).push(on67)) by {
        assert(spec_midi_sent(50) == m.push(on60));
        assert(spec_midi_sent(51) == m.push(on60).push(on64));
    }
    lemma_no_midi_cues(52, 56);
    let n = spec_midi_sent(52);
    let off60 = MidiMessage::NoteOff { chan: 0, key: 60 };
    let off64 = MidiMessage::NoteOff { chan: 0, key: 64 };
    let off67 = MidiMessage::NoteOff { chan: 0, key: 67 };
    assert(spec_midi_sent(59) == n.push(off60).push(off64).push(off67)) by {
        assert(spec_midi_sent(57) == n.push(off60));
        assert(spec_midi_sent(58) == n.push(off60).push(off64));
    }
    lemma_no_midi_cues(59, 65);
    assert(spec_midi_sent(65) =~= spec_scale_messages(8) + seq![
        MidiMessage::NoteOn { chan: 0, key: 60, vel: 100 },
        MidiMessage::NoteOn { chan: 0, key: 64, vel: 100 },
        MidiMessage::NoteOn { chan: 0, key: 67, vel: 100 },
        MidiMessage::NoteOff { chan: 0, key: 60 },
        MidiMessage::NoteOff { chan: 0, key: 64 },
        MidiMessage::NoteOff { chan: 0, key: 67 },
    ]);
}

/// The note state that readers see while the player waits on the outside
/// cue `i`: nothing, then each scale note alone while it is held and
/// stopped, nothing again, the three chord notes while the chord is held
/// and stopped, and nothing until the end.
pub open spec fn spec_expected_shown(i: int) -> NoteStateView {
    if i < 48 {
        let phase = i % 6;
        if phase == 2 || phase == 3 {
            NoteStateView { active: set![spec_scale_note(i / 6)], finished: false }
        } else {
            NoteStateView { active: Set::empty(), finished: false }
        }
    } else if 55 <= i <= 58 {
        NoteStateView { active: set![60u8, 64u8, 67u8], finished: false }
    } else {
        NoteStateView { active: Set::empty(), finished: false }
    }
}

/// Starting from the default state, the state published while the player
/// hands out each outside cue is the expected one: empty, each scale note
/// alone (C4 D4 E4 F4 G4 A4 B4 C5, each followed by empty), the chord
/// C4 E4 G4, empty; and after the last cue, empty and finished.
pub proof fn law_published_states(i: int)
    requires
        0 <= i < SCRIPT_LEN,
        !spec_is_state_cue(spec_cue(i)),
    ensures
        spec_run(spec_initial_state(), 0, i) == spec_expected_shown(i),
        spec_run(spec_initial_state(), 0, SCRIPT_LEN as int) == (NoteStateView {
            active: Set::empty(),
            finished: true,
        }),
{
    let s = spec_initial_state();
    law_performance_releases_every_note(s);
    assert(Set::<u8>::empty().difference(spec_played_notes()) =~= Set::<u8>::empty());
    if i < 48 {
        let k = i / 6;
        lemma_fundamental_div_mod_converse(i, 6, k, i % 6);
        lemma_scale_prefix(s, k);
        lemma_without_scale_empty(k);
        lemma_scale_block(s, k);
        lemma_scale_cues(k);
        let n = spec_scale_note(k);
        assert(Set::<u8>::empty().insert(n) =~= set![n]);
        assert(Set::<u8>::empty().insert(n).remove(n) =~= Set::<u8>::empty());
    } else {
        lemma_scale_prefix(s, 8);
        lemma_without_scale_empty(8);
        lemma_chord(s);
        assert(Set::<u8>::empty().insert(60).insert(64).insert(67) =~= set![60u8, 64u8, 67u8]);
        assert(Set::<u8>::empty().insert(60).insert(64).insert(67).remove(60).remove(64).remove(67)
            =~= Set::<u8>::empty());
        assert(spec_run(s, 0, i) == spec_expected_shown(i));
    }
}

/// A note-on cue becomes a note-on message on channel 0 for its own note
/// at its own velocity, and a note-off cue a note-off message on channel 0
/// for its own note, whatever the note and velocity; other cues send
/// nothing.
pub proof fn law_midi_message_carries_note_and_velocity(n: u8, v: u32, c: Cue)
    ensures
        spec_midi_of(Cue::NoteOn { note: n, velocity: v }) == Some(
            MidiMessage::NoteOn { chan: 0, key: n as u32, vel: v },
        ),
        spec_midi_of(Cue::NoteOff { note: n }) == Some(MidiMessage::NoteOff { chan: 0, key: n as u32 }),
        !(c is NoteOn || c is NoteOff) ==> spec_midi_of(c) is None,
{
}

/// Marking a note adds exactly that note to the shown notes, unmarking it
/// removes exactly that note, and finishing sets the finished flag; each
/// leaves everything else as it was, for every note and every state.
pub proof fn law_display_cues_change_one_thing(s: NoteStateView, n: u8)
    ensures
        spec_apply(s, Cue::MarkOn { note: n }).active == s.active.insert(n),
        spec_apply(s, Cue::MarkOn { note: n }).finished == s.finished,
        spec_apply(s, Cue::MarkOff { note: n }).active == s.active.remove(n),
        spec_apply(s, Cue::MarkOff { note: n }).finished == s.finished,
        spec_apply(s, Cue::Finish).active == s.active,
        spec_apply(s, Cue::Finish).finished,
        spec_apply(s, Cue::Drain) == s,
        spec_apply(s, Cue::Render { chunks: 1 }) == s,
        spec_apply(s, Cue::NoteOn { note: n, velocity: 100 }) == s,
        spec_apply(s, Cue::NoteOff { note: n }) == s,
{
}

} // verus!
