//! What the piano window shows of the note state: the status line, the
//! notes on the grand staff with their ledger lines and sharps, and the
//! keys of the keyboard with their slots and highlights.
use crate::keys::{
    black_key_left_white, is_black_key, midi_to_full_name, midi_to_staff_position, needs_sharp,
    note_name, spec_full_name, spec_is_black, spec_needs_sharp, spec_note_name,
    spec_staff_position, spec_white_count, white_key_index, HIGH_NOTE, LOW_NOTE,
};
use crate::state::NoteState;
use std::collections::HashSet;
use std::sync::{Arc, Mutex};
use vstd::prelude::*;
use vstd::arithmetic::div_mod::lemma_fundamental_div_mod_converse;

verus! {

broadcast use vstd::std_specs::hash::group_hash_axioms;

/// The standard library's mutex, held opaquely.
#[verifier::external_type_specification]
#[verifier::external_body]
#[verifier::reject_recursive_types(T)]
pub struct ExMutex<T: ?Sized>(Mutex<T>);

/// The piano window: it reads the note state that the player shares
/// with it.
pub struct PianoApp {
    note_state: Arc<Mutex<NoteState>>,
}

impl PianoApp {
    /// The shared note state this window displays.
    pub closed spec fn shared_state(self) -> Arc<Mutex<NoteState>> {
        self.note_state
    }

    /// A window that displays `note_state`.
    pub fn new(note_state: Arc<Mutex<NoteState>>) -> (app: Self)
        ensures
            app.shared_state() == note_state,
    {
        Self { note_state }
    }

    /// The shared note state this window displays.
    pub fn note_state(&self) -> (r: &Arc<Mutex<NoteState>>)
        ensures
            *r == self.shared_state(),
    {
        &self.note_state
    }
}

/// The notes of `s` below `n`, in rising order.
pub open spec fn spec_notes_below(s: Set<u8>, n: int) -> Seq<u8>
    decreases n,
{
    if n <= 0 {
        Seq::empty()
    } else if s.contains((n - 1) as u8) {
        spec_notes_below(s, n - 1).push((n - 1) as u8)
    } else {
        spec_notes_below(s, n - 1)
    }
}

/// The notes of `s` in rising order.
pub open spec fn spec_sorted_notes(s: Set<u8>) -> Seq<u8> {
    spec_notes_below(s, 256)
}

/// The notes of `active`, in rising order.
pub fn sorted_notes(active: &HashSet<u8>) -> (r: Vec<u8>)
    ensures
        r@ == spec_sorted_notes(active@),
{
    let mut r: Vec<u8> = Vec::new();
    let mut n: u16 = 0;
    while n < 256
        invariant
            n <= 256,
            r@ == spec_notes_below(active@, n as int),
        decreases 256 - n,
    {
        if active.contains(&(n as u8)) {
            r.push(n as u8);
        }
        n = n + 1;
    }
    r
}

/// Full names of `notes`, separated by single spaces.
pub open spec fn spec_joined_names(notes: Seq<u8>) -> Seq<char>
    decreases notes.len(),
{
    if notes.len() == 0 {
        Seq::empty()
    } else if notes.len() == 1 {
        spec_full_name(notes[0] as int)
    } else {
        spec_joined_names(notes.drop_last()) + " "@ + spec_full_name(notes.last() as int)
    }
}

/// The status line above the staff: a notice once playback is finished,
/// otherwise the names of the sounding notes in rising order, or `...`
/// when none sounds.
pub open spec fn spec_status_text(active: Set<u8>, finished: bool) -> Seq<char> {
    if finished {
        "Playback finished."@
    } else if spec_sorted_notes(active).len() == 0 {
        "..."@
    } else {
        "Playing: "@ + spec_joined_names(spec_sorted_notes(active))
    }
}

/// The status line for the given note state.
pub fn status_text(active: &HashSet<u8>, finished: bool) -> (r: String)
    ensures
        r@ == spec_status_text(active@, finished),
{
    if finished {
        return String::from_str("Playback finished.");
    }
    let notes = sorted_notes(active);
    if notes.len() == 0 {
        return String::from_str("...");
    }
    let mut text = String::from_str("Playing: ");
    let ghost prefix = text@;
    let mut i: usize = 0;
    while i < notes.len()
        invariant
            i <= notes.len(),
            notes.len() > 0,
            notes@ == spec_sorted_notes(active@),
            prefix == "Playing: "@,
            i == 0 ==> text@ == prefix,
            i > 0 ==> text@ == prefix + spec_joined_names(notes@.take(i as int)),
        decreases notes.len() - i,
    {
        if i > 0 {
            text.append(" ");
        }
        text.append(midi_to_full_name(notes[i]));
        proof {
            let taken = notes@.take(i + 1);
            assert(taken.drop_last() =~= notes@.take(i as int));
            assert(taken.last() == notes@[i as int]);
            if i == 0 {
                assert(taken.len() == 1);
                assert(taken[0] == notes@[0]);
            } else {
                assert(prefix + spec_joined_names(notes@.take(i as int)) + " "@ + spec_full_name(
                    notes@[i as int] as int,
                ) =~= prefix + (spec_joined_names(notes@.take(i as int)) + " "@ + spec_full_name(
                    notes@[i as int] as int,
                )));
            }
        }
        i = i + 1;
    }
    assert(notes@.take(notes.len() as int) =~= notes@);
    text
}

/// Ledger lines drawn for a note at staff position `pos`, in the order
/// they are drawn: the middle C line for middle C itself, and for notes
/// below the bass staff or above the treble staff every other position
/// from the first line outside the staff out to the note.
pub open spec fn spec_ledger_lines(pos: int) -> Seq<i32> {
    if pos == 0 {
        seq![0i32]
    } else if pos <= -12 {
        Seq::new(((-12 - pos) / 2 + 1) as nat, |k: int| (-12 - 2 * k) as i32)
    } else if pos >= 12 {
        Seq::new(((pos - 12) / 2 + 1) as nat, |k: int| (12 + 2 * k) as i32)
    } else {
        Seq::empty()
    }
}

/// Ledger lines for a note at staff position `pos`.
pub fn ledger_lines(pos: i32) -> (r: Vec<i32>)
    requires
        i32::MIN + 1 <= pos <= i32::MAX - 2,
    ensures
        r@ == spec_ledger_lines(pos as int),
{
    let mut r: Vec<i32> = Vec::new();
    if pos == 0 {
        r.push(0);
    } else if pos <= -12 {
        let mut lp: i32 = -12;
        while lp >= pos
            invariant
                i32::MIN + 1 <= pos <= -12,
                lp == -12 - 2 * r.len(),
                lp >= pos - 2,
                forall|k: int| 0 <= k < r.len() ==> r@[k] == (-12 - 2 * k) as i32,
            decreases lp - pos + 2,
        {
            r.push(lp);
            lp = lp - 2;
        }
        proof {
            lemma_fundamental_div_mod_converse(-12 - pos, 2, (r.len() - 1) as int, -12 - pos - 2 * (r.len() - 1));
        }
    } else if pos >= 12 {
        let mut lp: i32 = 12;
        while lp <= pos
            invariant
                12 <= pos <= i32::MAX - 2,
                lp == 12 + 2 * r.len(),
                lp <= pos + 2,
                forall|k: int| 0 <= k < r.len() ==> r@[k] == (12 + 2 * k) as i32,
            decreases pos - lp + 2,
        {
            r.push(lp);
            lp = lp + 2;
        }
        proof {
            lemma_fundamental_div_mod_converse(pos - 12, 2, (r.len() - 1) as int, pos - 12 - 2 * (r.len() - 1));
        }
    }
    assert(r@ =~= spec_ledger_lines(pos as int));
    r
}

/// A note as drawn on the grand staff.
pub struct StaffNote {
    /// The MIDI note.
    pub note: u8,
    /// Staff steps from middle C.
    pub position: i32,
    /// Whether a sharp sign is drawn before the note head.
    pub sharp: bool,
    /// Positions of the ledger lines drawn through or below/above the note.
    pub ledger_lines: Vec<i32>,
}

/// The active notes as they are drawn on the grand staff, from left to
/// right in rising order.
pub fn staff_layout(active: &HashSet<u8>) -> (r: Vec<StaffNote>)
    ensures
        r.len() == spec_sorted_notes(active@).len(),
        forall|i: int|
            0 <= i < r.len() ==> {
                let n = #[trigger] spec_sorted_notes(active@)[i];
                &&& r[i].note == n
                &&& r[i].position == spec_staff_position(n as int)
                &&& r[i].sharp == spec_needs_sharp(n as int)
                &&& r[i].ledger_lines@ == spec_ledger_lines(spec_staff_position(n as int))
            },
{
    let notes = sorted_notes(active);
    let mut r: Vec<StaffNote> = Vec::new();
    let mut i: usize = 0;
    while i < notes.len()
        invariant
            i <= notes.len(),
            notes@ == spec_sorted_notes(active@),
            r.len() == i,
            forall|j: int|
                0 <= j < i ==> {
                    let n = #[trigger] notes@[j];
                    &&& r[j].note == n
                    &&& r[j].position == spec_staff_position(n as int)
                    &&& r[j].sharp == spec_needs_sharp(n as int)
                    &&& r[j].ledger_lines@ == spec_ledger_lines(spec_staff_position(n as int))
                },
        decreases notes.len() - i,
    {
        let note = notes[i];
        let position = midi_to_staff_position(note);
        let sharp = needs_sharp(note);
        let lines = ledger_lines(position);
        r.push(StaffNote { note, position, sharp, ledger_lines: lines });
        i = i + 1;
    }
    r
}

/// The notes whose staff positions carry the five lines of the bass staff
/// (G2 B2 D3 F3 A3) and of the treble staff (E4 G4 B4 D5 F5).
pub open spec fn spec_staff_line_note(k: int) -> int {
    if k == 0 {
        43
    } else if k == 1 {
        47
    } else if k == 2 {
        50
    } else if k == 3 {
        53
    } else if k == 4 {
        57
    } else if k == 5 {
        64
    } else if k == 6 {
        67
    } else if k == 7 {
        71
    } else if k == 8 {
        74
    } else {
        77
    }
}

/// Staff positions of the ten lines of the grand staff, bass staff first.
pub fn staff_lines() -> (r: [i32; 10])
    ensures
        forall|k: int| 0 <= k < 10 ==> r@[k] == spec_staff_position(#[trigger] spec_staff_line_note(k)),
{
    let r: [i32; 10] = [-10, -8, -6, -4, -2, 2, 4, 6, 8, 10];
    assert forall|k: int| 0 <= k < 10 implies r@[k] == spec_staff_position(
        #[trigger] spec_staff_line_note(k),
    ) by {
        if k == 0 {
            lemma_fundamental_div_mod_converse(43, 12, 3, 7);
        } else if k == 1 {
            lemma_fundamental_div_mod_converse(47, 12, 3, 11);
        } else if k == 2 {
            lemma_fundamental_div_mod_converse(50, 12, 4, 2);
        } else if k == 3 {
            lemma_fundamental_div_mod_converse(53, 12, 4, 5);
        } else if k == 4 {
            lemma_fundamental_div_mod_converse(57, 12, 4, 9);
        } else if k == 5 {
            lemma_fundamental_div_mod_converse(64, 12, 5, 4);
        } else if k == 6 {
            lemma_fundamental_div_mod_converse(67, 12, 5, 7);
        } else if k == 7 {
            lemma_fundamental_div_mod_converse(71, 12, 5, 11);
        } else if k == 8 {
            lemma_fundamental_div_mod_converse(74, 12, 6, 2);
        } else {
            lemma_fundamental_div_mod_converse(77, 12, 6, 5);
        }
    }
    r
}

/// A key of the displayed keyboard.
pub struct KeyCap {
    /// The MIDI note of the key.
    pub note: u8,
    /// Whether it is a black key.
    pub black: bool,
    /// For a white key its index among the white keys; for a black key the
    /// index of the white key whose right edge it straddles.
    pub slot: usize,
    /// Whether the note is shown as playing.
    pub active: bool,
    /// The letter printed on the key (empty for black keys).
    pub label: &'static str,
}

/// The keys from `LOW_NOTE` to `HIGH_NOTE`, in rising order.
pub fn keyboard_layout(active: &HashSet<u8>) -> (r: Vec<KeyCap>)
    ensures
        r.len() == HIGH_NOTE - LOW_NOTE + 1,
        forall|i: int|
            0 <= i < r.len() ==> {
                let n = LOW_NOTE + i;
                &&& (#[trigger] r[i]).note == n
                &&& r[i].black == spec_is_black(n)
                &&& r[i].slot == if spec_is_black(n) {
                    spec_white_count(LOW_NOTE as int, n - 2)
                } else {
                    spec_white_count(LOW_NOTE as int, n - 1)
                }
                &&& r[i].active == active@.contains(n as u8)
                &&& r[i].label@ == spec_note_name(n)
            },
{
    let mut r: Vec<KeyCap> = Vec::new();
    let mut note: u8 = LOW_NOTE;
    while note <= HIGH_NOTE
        invariant
            LOW_NOTE <= note <= HIGH_NOTE + 1,
            r.len() == note - LOW_NOTE,
            forall|i: int|
                0 <= i < r.len() ==> {
                    let n = LOW_NOTE + i;
                    &&& (#[trigger] r[i]).note == n
                    &&& r[i].black == spec_is_black(n)
                    &&& r[i].slot == if spec_is_black(n) {
                        spec_white_count(LOW_NOTE as int, n - 2)
                    } else {
                        spec_white_count(LOW_NOTE as int, n - 1)
                    }
                    &&& r[i].active == active@.contains(n as u8)
                    &&& r[i].label@ == spec_note_name(n)
                },
        decreases HIGH_NOTE + 1 - note,
    {
        let black = is_black_key(note);
        let slot = if black {
            black_key_left_white(note)
        } else {
            white_key_index(note)
        };
        let is_active = active.contains(&note);
        r.push(KeyCap { note, black, slot, active: is_active, label: note_name(note) });
        note = note + 1;
    }
    r
}

/// The notes of `s` below `n` rise strictly and are exactly the members
/// of `s` below `n`.
proof fn lemma_notes_below(s: Set<u8>, n: int)
    requires
        0 <= n <= 256,
    ensures
        forall|i: int, j: int|
            0 <= i < j < spec_notes_below(s, n).len() ==> spec_notes_below(s, n)[i]
                < spec_notes_below(s, n)[j],
        forall|i: int| 0 <= i < spec_notes_below(s, n).len() ==> spec_notes_below(s, n)[i] < n,
        forall|x: u8| spec_notes_below(s, n).contains(x) <==> (s.contains(x) && x < n),
    decreases n,
{
    if n > 0 {
        lemma_notes_below(s, n - 1);
        let prev = spec_notes_below(s, n - 1);
        if s.contains((n - 1) as u8) {
            let cur = prev.push((n - 1) as u8);
            assert forall|x: u8| cur.contains(x) <==> (s.contains(x) && x < n) by {
                if x == (n - 1) as u8 {
                    assert(cur[prev.len() as int] == x);
                } else if cur.contains(x) {
                    let k = choose|k: int| 0 <= k < cur.len() && cur[k] == x;
                    assert(prev[k] == x);
                } else if s.contains(x) && x < n - 1 {
                    let k = choose|k: int| 0 <= k < prev.len() && prev[k] == x;
                    assert(cur[k] == x);
                }
            }
        }
    }
}

/// The status line and the staff list the active notes in strictly
/// rising order, each active note exactly once.
pub proof fn law_sorted_notes_list_the_set(s: Set<u8>)
    ensures
        forall|i: int, j: int|
            0 <= i < j < spec_sorted_notes(s).len() ==> spec_sorted_notes(s)[i]
                < spec_sorted_notes(s)[j],
        forall|x: u8| spec_sorted_notes(s).contains(x) <==> s.contains(x),
{
    lemma_notes_below(s, 256);
}

/// Ledger lines sit on every other staff position from the first line
/// outside the staves out to the note, and through middle C for middle C
/// itself; no other ledger line is drawn.
pub proof fn law_ledger_lines_reach_the_note(pos: int, l: int)
    requires
        i32::MIN + 1 <= pos <= i32::MAX - 2,
        i32::MIN <= l <= i32::MAX,
    ensures
        spec_ledger_lines(pos).contains(l as i32) <==> {
            ||| pos == 0 && l == 0
            ||| l % 2 == 0 && pos <= l <= -12
            ||| l % 2 == 0 && 12 <= l <= pos
        },
{
    let lines = spec_ledger_lines(pos);
    if pos <= -12 {
        if l % 2 == 0 && pos <= l <= -12 {
            let k = (-12 - l) / 2;
            lemma_fundamental_div_mod_converse(-12 - l, 2, k, 0);
            lemma_fundamental_div_mod_converse(-12 - pos, 2, (-12 - pos) / 2, (-12 - pos) % 2);
            assert(lines[k] == l as i32);
        }
        if lines.contains(l as i32) {
            let k = choose|k: int| 0 <= k < lines.len() && lines[k] == l as i32;
            lemma_fundamental_div_mod_converse(-12 - pos, 2, (-12 - pos) / 2, (-12 - pos) % 2);
            lemma_fundamental_div_mod_converse(l, 2, -6 - k, 0);
        }
    } else if pos >= 12 {
        if l % 2 == 0 && 12 <= l <= pos {
            let k = (l - 12) / 2;
            lemma_fundamental_div_mod_converse(l - 12, 2, k, 0);
            lemma_fundamental_div_mod_converse(pos - 12, 2, (pos - 12) / 2, (pos - 12) % 2);
            assert(lines[k] == l as i32);
        }
        if lines.contains(l as i32) {
            let k = choose|k: int| 0 <= k < lines.len() && lines[k] == l as i32;
            lemma_fundamental_div_mod_converse(pos - 12, 2, (pos - 12) / 2, (pos - 12) % 2);
            lemma_fundamental_div_mod_converse(l, 2, 6 + k, 0);
        }
    } else if pos == 0 {
        if l == 0 {
            assert(lines[0] == 0i32);
        }
    }
}

/// Adding a note above every note of `s` appends it to the notes listed
/// below `k`, once `k` is past it.
proof fn lemma_notes_below_new_top(s: Set<u8>, m: u8, k: int)
    requires
        0 <= k <= 256,
        forall|x: u8| s.contains(x) ==> x < m,
    ensures
        k <= m ==> spec_notes_below(s.insert(m), k) == spec_notes_below(s, k),
        k > m ==> spec_notes_below(s.insert(m), k) == spec_notes_below(s, k).push(m),
    decreases k,
{
    if k > 0 {
        lemma_notes_below_new_top(s, m, k - 1);
        assert(s.insert(m).contains((k - 1) as u8) == (s.contains((k - 1) as u8) || (k - 1) == m));
    }
}

/// The empty set has no notes below `k`.
proof fn lemma_notes_below_empty(k: int)
    requires
        0 <= k,
    ensures
        spec_notes_below(Set::<u8>::empty(), k) == Seq::<u8>::empty(),
    decreases k,
{
    if k > 0 {
        lemma_notes_below_empty(k - 1);
    }
}

/// The notes of the empty set, in rising order, are none.
proof fn lemma_sorted_notes_empty()
    ensures
        spec_sorted_notes(Set::<u8>::empty()).len() == 0,
{
    lemma_notes_below_empty(256);
}

/// Once playback is finished the status line is the notice, whatever
/// notes are active; before that, with no note active, it is `...`.
pub proof fn law_status_when_finished_or_idle(active: Set<u8>)
    ensures
        spec_status_text(active, true) == "Playback finished."@,
        spec_status_text(Set::empty(), false) == "..."@,
{
    lemma_sorted_notes_empty();
}

/// With a single note active the status line is `Playing: ` and that
/// note's full name.
pub proof fn law_status_of_one_note(n: u8)
    ensures
        spec_status_text(set![n], false) == "Playing: "@ + spec_full_name(n as int),
{
    lemma_notes_below_new_top(Set::empty(), n, 256);
    lemma_sorted_notes_empty();
    assert(Set::<u8>::empty().insert(n) =~= set![n]);
    let sorted = spec_sorted_notes(set![n]);
    assert(sorted =~= seq![n]);
}

/// Making one more note active, above all active notes, appends a space
/// and its full name to the status line: every active note is named once,
/// in rising order, however many notes are active.
pub proof fn law_status_names_each_new_top_note(active: Set<u8>, some: u8, m: u8)
    requires
        active.contains(some),
        forall|x: u8| active.contains(x) ==> x < m,
    ensures
        spec_status_text(active.insert(m), false) == spec_status_text(active, false) + " "@
            + spec_full_name(m as int),
{
    lemma_notes_below_new_top(active, m, 256);
    law_sorted_notes_list_the_set(active);
    let sorted = spec_sorted_notes(active);
    assert(sorted.contains(some));
    assert(sorted.len() > 0);
    assert(sorted.push(m).drop_last() =~= sorted);
    assert(spec_joined_names(sorted.push(m)) == spec_joined_names(sorted) + " "@ + spec_full_name(
        m as int,
    ));
    assert("Playing: "@ + spec_joined_names(sorted) + " "@ + spec_full_name(m as int) =~= "Playing: "@
        + (spec_joined_names(sorted) + " "@ + spec_full_name(m as int)));
}

} // verus!
