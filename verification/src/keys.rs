//! MIDI note arithmetic: black and white keys, positions of keys on the
//! keyboard and of notes on the grand staff, and note names.
use vstd::prelude::*;
use vstd::arithmetic::div_mod::lemma_fundamental_div_mod_converse;

verus! {

/// Lowest note shown on the keyboard (C3).
pub const LOW_NOTE: u8 = 48;

/// Highest note shown on the keyboard (C5).
pub const HIGH_NOTE: u8 = 72;

/// Middle C (C4), the note at staff position 0.
pub const MIDDLE_C: u8 = 60;

/// A MIDI note is a black key when its pitch class is C#, D#, F#, G# or A#.
pub open spec fn spec_is_black(note: int) -> bool {
    let pc = note % 12;
    pc == 1 || pc == 3 || pc == 6 || pc == 8 || pc == 10
}

/// A note is written with a sharp when its pitch class is not one of the
/// seven naturals C, D, E, F, G, A, B.
pub open spec fn spec_needs_sharp(note: int) -> bool {
    let pc = note % 12;
    !(pc == 0 || pc == 2 || pc == 4 || pc == 5 || pc == 7 || pc == 9 || pc == 11)
}

/// The number of white keys among the notes `low..=high` (zero when the
/// range is empty).
pub open spec fn spec_white_count(low: int, high: int) -> nat
    decreases high - low + 1,
{
    if high < low {
        0
    } else {
        spec_white_count(low, high - 1) + if spec_is_black(high) {
            0nat
        } else {
            1nat
        }
    }
}

/// Staff steps above C of a pitch class: C=0, D=1, E=2, F=3, G=4, A=5,
/// B=6; a sharp sits on the step of the natural below it.
pub open spec fn spec_staff_step(pc: int) -> int {
    if pc == 0 || pc == 1 {
        0
    } else if pc == 2 || pc == 3 {
        1
    } else if pc == 4 {
        2
    } else if pc == 5 || pc == 6 {
        3
    } else if pc == 7 || pc == 8 {
        4
    } else if pc == 9 || pc == 10 {
        5
    } else if pc == 11 {
        6
    } else {
        0
    }
}

/// Staff position of a note: the number of staff steps from middle C,
/// seven per octave.
pub open spec fn spec_staff_position(note: int) -> int {
    (note / 12 - 5) * 7 + spec_staff_step(note % 12)
}

/// Letter name of a pitch class, with a `#` for the five black keys.
pub open spec fn spec_pitch_name(pc: int) -> Seq<char> {
    if pc == 0 {
        "C"@
    } else if pc == 1 {
        "C#"@
    } else if pc == 2 {
        "D"@
    } else if pc == 3 {
        "D#"@
    } else if pc == 4 {
        "E"@
    } else if pc == 5 {
        "F"@
    } else if pc == 6 {
        "F#"@
    } else if pc == 7 {
        "G"@
    } else if pc == 8 {
        "G#"@
    } else if pc == 9 {
        "A"@
    } else if pc == 10 {
        "A#"@
    } else {
        "B"@
    }
}

/// The label printed on a key: the letter of a white key, nothing for a
/// black key.
pub open spec fn spec_note_name(note: int) -> Seq<char> {
    let pc = note % 12;
    if pc == 0 {
        "C"@
    } else if pc == 2 {
        "D"@
    } else if pc == 4 {
        "E"@
    } else if pc == 5 {
        "F"@
    } else if pc == 7 {
        "G"@
    } else if pc == 9 {
        "A"@
    } else if pc == 11 {
        "B"@
    } else {
        ""@
    }
}

/// The full name (letter, sharp, octave) of a note on the displayed
/// keyboard, and `?` for any other note.
pub open spec fn spec_full_name(note: int) -> Seq<char> {
    if note == 48 {
        "C3"@
    } else if note == 49 {
        "C#3"@
    } else if note == 50 {
        "D3"@
    } else if note == 51 {
        "D#3"@
    } else if note == 52 {
        "E3"@
    } else if note == 53 {
        "F3"@
    } else if note == 54 {
        "F#3"@
    } else if note == 55 {
        "G3"@
    } else if note == 56 {
        "G#3"@
    } else if note == 57 {
        "A3"@
    } else if note == 58 {
        "A#3"@
    } else if note == 59 {
        "B3"@
    } else if note == 60 {
        "C4"@
    } else if note == 61 {
        "C#4"@
    } else if note == 62 {
        "D4"@
    } else if note == 63 {
        "D#4"@
    } else if note == 64 {
        "E4"@
    } else if note == 65 {
        "F4"@
    } else if note == 66 {
        "F#4"@
    } else if note == 67 {
        "G4"@
    } else if note == 68 {
        "G#4"@
    } else if note == 69 {
        "A4"@
    } else if note == 70 {
        "A#4"@
    } else if note == 71 {
        "B4"@
    } else if note == 72 {
        "C5"@
    } else {
        "?"@
    }
}

/// Whether `note` is a black key of the piano.
pub fn is_black_key(note: u8) -> (r: bool)
    ensures
        r == spec_is_black(note as int),
{
    let pc = note % 12;
    pc == 1 || pc == 3 || pc == 6 || pc == 8 || pc == 10
}

/// Whether `note` is written on the staff with a sharp sign.
pub fn needs_sharp(note: u8) -> (r: bool)
    ensures
        r == spec_needs_sharp(note as int),
{
    let pc = note % 12;
    pc == 1 || pc == 3 || pc == 6 || pc == 8 || pc == 10
}

/// Counts the white keys in the range `low..=high`.
pub fn white_key_count(low: u8, high: u8) -> (r: usize)
    ensures
        r == spec_white_count(low as int, high as int),
{
    let mut count: usize = 0;
    let mut n: u16 = low as u16;
    while n <= high as u16
        invariant
            low <= n <= high + 1 || (high < low && n == low),
            count == spec_white_count(low as int, n - 1),
            count <= n - low,
        decreases high + 1 - n,
    {
        if !is_black_key(n as u8) {
            count = count + 1;
        }
        n = n + 1;
    }
    count
}

/// Index of a white key among the white keys of the keyboard, counting
/// from `LOW_NOTE`: the number of white keys in `LOW_NOTE..note`.
pub fn white_key_index(note: u8) -> (r: usize)
    ensures
        r == spec_white_count(LOW_NOTE as int, note - 1),
{
    if note <= LOW_NOTE {
        0
    } else {
        white_key_count(LOW_NOTE, note - 1)
    }
}

/// Index of the white key immediately below a black key, the key whose
/// right edge the black key straddles.
pub fn black_key_left_white(note: u8) -> (r: usize)
    requires
        note >= 1,
    ensures
        r == spec_white_count(LOW_NOTE as int, note - 2),
{
    white_key_index(note - 1)
}

/// Staff position of a note, in staff steps from middle C (C4 = 0); a
/// sharp shares the position of the natural below it.
pub fn midi_to_staff_position(note: u8) -> (r: i32)
    ensures
        r == spec_staff_position(note as int),
{
    let octave: i32 = (note / 12) as i32 - 5;
    let pc = note % 12;
    let step: i32 = if pc == 0 || pc == 1 {
        0
    } else if pc == 2 || pc == 3 {
        1
    } else if pc == 4 {
        2
    } else if pc == 5 || pc == 6 {
        3
    } else if pc == 7 || pc == 8 {
        4
    } else if pc == 9 || pc == 10 {
        5
    } else {
        6
    };
    octave * 7 + step
}

/// The letter printed on a key (empty for black keys).
pub fn note_name(note: u8) -> (r: &'static str)
    ensures
        r@ == spec_note_name(note as int),
{
    match note % 12 {
        0 => "C",
        2 => "D",
        4 => "E",
        5 => "F",
        7 => "G",
        9 => "A",
        11 => "B",
        _ => "",
    }
}

/// The full name of a note on the keyboard, such as `C#4`; `?` outside
/// `LOW_NOTE..=HIGH_NOTE`.
pub fn midi_to_full_name(note: u8) -> (r: &'static str)
    ensures
        r@ == spec_full_name(note as int),
{
    match note {
        48 => "C3",
        49 => "C#3",
        50 => "D3",
        51 => "D#3",
        52 => "E3",
        53 => "F3",
        54 => "F#3",
        55 => "G3",
        56 => "G#3",
        57 => "A3",
        58 => "A#3",
        59 => "B3",
        60 => "C4",
        61 => "C#4",
        62 => "D4",
        63 => "D#4",
        64 => "E4",
        65 => "F4",
        66 => "F#4",
        67 => "G4",
        68 => "G#4",
        69 => "A4",
        70 => "A#4",
        71 => "B4",
        72 => "C5",
        _ => "?",
    }
}


// ---------------------------------------------------------------------
// Laws of the keyboard and of the staff
// ---------------------------------------------------------------------

/// Splits a note into octave and pitch class.
proof fn lemma_octave_split(n: int, q: int, r: int)
    requires
        0 <= r < 12,
        n == q * 12 + r,
    ensures
        n / 12 == q,
        n % 12 == r,
{
    lemma_fundamental_div_mod_converse(n, 12, q, r);
}

/// Moving up one semitone moves one staff step up exactly when the new
/// note is a white key.
pub proof fn law_staff_step(note: int)
    requires
        0 <= note,
    ensures
        spec_staff_position(note + 1) == spec_staff_position(note) + if spec_is_black(note + 1) {
            0int
        } else {
            1int
        },
{
    let q = note / 12;
    let r = note % 12;
    lemma_octave_split(note, q, r);
    if r == 11 {
        lemma_octave_split(note + 1, q + 1, 0);
    } else {
        lemma_octave_split(note + 1, q, r + 1);
    }
}

/// The same pitch class one octave up is a black key exactly when the
/// note itself is one.
pub proof fn law_black_keys_repeat_each_octave(note: int)
    requires
        0 <= note,
    ensures
        spec_is_black(note + 12) == spec_is_black(note),
        spec_needs_sharp(note + 12) == spec_needs_sharp(note),
{
    lemma_octave_split(note + 12, note / 12 + 1, note % 12);
}

/// One octave up is seven staff steps up.
pub proof fn law_octave_is_seven_staff_steps(note: int)
    requires
        0 <= note,
    ensures
        spec_staff_position(note + 12) == spec_staff_position(note) + 7,
{
    lemma_octave_split(note + 12, note / 12 + 1, note % 12);
}

/// Middle C is staff position 0.
pub proof fn law_middle_c_is_staff_origin()
    ensures
        spec_staff_position(MIDDLE_C as int) == 0,
{
    lemma_octave_split(60, 5, 0);
}

/// A note is written with a sharp exactly when it is a black key.
pub proof fn law_sharp_iff_black_key(note: int)
    requires
        0 <= note,
    ensures
        spec_needs_sharp(note) == spec_is_black(note),
{
}

/// Counting the white keys of `low..=high` one key from the bottom.
proof fn lemma_white_count_from_bottom(low: int, high: int)
    requires
        low <= high,
    ensures
        spec_white_count(low, high) == spec_white_count(low + 1, high) + if spec_is_black(low) {
            0nat
        } else {
            1nat
        },
    decreases high - low,
{
    if low < high {
        lemma_white_count_from_bottom(low, high - 1);
    } else {
        assert(spec_white_count(low, low - 1) == 0);
    }
}

/// White keys of two adjacent ranges add up.
pub proof fn law_white_count_adds(low: int, mid: int, high: int)
    requires
        low <= mid + 1,
        mid <= high,
    ensures
        spec_white_count(low, high) == spec_white_count(low, mid) + spec_white_count(mid + 1, high),
    decreases high - mid,
{
    if mid < high {
        law_white_count_adds(low, mid, high - 1);
    }
}

/// The staff distance between two notes is the number of white keys
/// passed on the way up: the staff and the keyboard agree.
pub proof fn law_staff_distance_counts_white_keys(low: int, high: int)
    requires
        0 <= low <= high,
    ensures
        spec_staff_position(high) - spec_staff_position(low) == spec_white_count(low + 1, high),
    decreases high - low,
{
    if low < high {
        law_staff_distance_counts_white_keys(low, high - 1);
        law_staff_step(high - 1);
    }
}

/// Staff positions never go down as notes go up.
pub proof fn law_staff_position_monotonic(low: int, high: int)
    requires
        0 <= low <= high,
    ensures
        spec_staff_position(low) <= spec_staff_position(high),
{
    law_staff_distance_counts_white_keys(low, high);
}

/// A sharp is written on the staff line or space of the natural just
/// below it.
pub proof fn law_sharp_shares_position_below(note: int)
    requires
        0 <= note,
        spec_is_black(note),
    ensures
        note >= 1,
        spec_staff_position(note) == spec_staff_position(note - 1),
{
    law_staff_step(note - 1);
}

/// Every octave holds exactly seven white keys.
pub proof fn law_seven_white_keys_per_octave(note: int)
    requires
        0 <= note,
    ensures
        spec_white_count(note, note + 11) == 7,
{
    lemma_white_count_from_bottom(note, note + 11);
    law_staff_distance_counts_white_keys(note, note + 11);
    law_staff_step(note + 11);
    law_octave_is_seven_staff_steps(note);
    law_black_keys_repeat_each_octave(note);
}

/// The displayed keyboard, C3 to C5, has fifteen white keys.
pub proof fn law_keyboard_has_fifteen_white_keys()
    ensures
        spec_white_count(LOW_NOTE as int, HIGH_NOTE as int) == 15,
{
    law_seven_white_keys_per_octave(48);
    law_seven_white_keys_per_octave(60);
    law_white_count_adds(48, 59, 71);
    law_white_count_adds(48, 71, 72);
    assert(spec_white_count(72, 72) == 1) by {
        assert(spec_white_count(72, 71) == 0);
    }
}

/// A white key's slot on the keyboard is its staff distance from the
/// lowest key, so the keyboard and the staff place every white key alike.
pub proof fn law_white_key_slot_is_staff_distance(note: int)
    requires
        LOW_NOTE <= note,
        !spec_is_black(note),
    ensures
        spec_white_count(LOW_NOTE as int, note - 1) == spec_staff_position(note)
            - spec_staff_position(LOW_NOTE as int),
{
    if note > 48 {
        law_staff_distance_counts_white_keys(48, note);
        lemma_white_count_from_bottom(48, note - 1);
    }
}

/// A black key straddles the right edge of the white key that shares its
/// staff position.
pub proof fn law_black_key_sits_on_white_below(note: int)
    requires
        LOW_NOTE < note,
        spec_is_black(note),
    ensures
        !spec_is_black(note - 1),
        spec_white_count(LOW_NOTE as int, note - 2) == spec_staff_position(note)
            - spec_staff_position(LOW_NOTE as int),
{
    law_staff_step(note - 1);
    lemma_octave_split(note, note / 12, note % 12);
    lemma_octave_split(note - 1, note / 12, note % 12 - 1);
    law_white_key_slot_is_staff_distance(note - 1);
}

/// The digit of a note's octave in scientific pitch notation (C4 is
/// middle C), for the octaves 3 to 5 that the keyboard spans.
pub open spec fn spec_octave_digit(note: int) -> char {
    let octave = note / 12 - 1;
    if octave == 3 {
        '3'
    } else if octave == 4 {
        '4'
    } else {
        '5'
    }
}

/// A white key is labelled with its letter, a black key with nothing.
pub proof fn law_note_name_labels_white_keys(note: int)
    requires
        0 <= note,
    ensures
        spec_note_name(note).len() > 0 <==> !spec_is_black(note),
        !spec_is_black(note) ==> spec_note_name(note) == spec_pitch_name(note % 12),
{
    reveal_strlit("C");
    reveal_strlit("D");
    reveal_strlit("E");
    reveal_strlit("F");
    reveal_strlit("G");
    reveal_strlit("A");
    reveal_strlit("B");
    reveal_strlit("");
}

/// On the keyboard a note's full name is its pitch name (letter and
/// sharp) followed by its octave digit.
pub proof fn law_full_name_is_pitch_and_octave(note: int)
    requires
        LOW_NOTE <= note <= HIGH_NOTE,
    ensures
        spec_full_name(note) == spec_pitch_name(note % 12) + seq![spec_octave_digit(note)],
{
    lemma_octave_split(note, note / 12, note % 12);
    reveal_strlit("C");
    reveal_strlit("C#");
    reveal_strlit("D");
    reveal_strlit("D#");
    reveal_strlit("E");
    reveal_strlit("F");
    reveal_strlit("F#");
    reveal_strlit("G");
    reveal_strlit("G#");
    reveal_strlit("A");
    reveal_strlit("A#");
    reveal_strlit("B");
    reveal_strlit("C3");
    reveal_strlit("C#3");
    reveal_strlit("D3");
    reveal_strlit("D#3");
    reveal_strlit("E3");
    reveal_strlit("F3");
    reveal_strlit("F#3");
    reveal_strlit("G3");
    reveal_strlit("G#3");
    reveal_strlit("A3");
    reveal_strlit("A#3");
    reveal_strlit("B3");
    reveal_strlit("C4");
    reveal_strlit("C#4");
    reveal_strlit("D4");
    reveal_strlit("D#4");
    reveal_strlit("E4");
    reveal_strlit("F4");
    reveal_strlit("F#4");
    reveal_strlit("G4");
    reveal_strlit("G#4");
    reveal_strlit("A4");
    reveal_strlit("A#4");
    reveal_strlit("B4");
    reveal_strlit("C5");
    assert(spec_full_name(note) =~= spec_pitch_name(note % 12) + seq![spec_octave_digit(note)]);
}

/// The white keys among the notes `low..=high`.
pub open spec fn spec_white_notes(low: int, high: int) -> Set<int> {
    Set::new(|n: int| low <= n <= high && !spec_is_black(n))
}

/// The white-key count of a range is the number of white keys in it.
pub proof fn law_white_count_is_number_of_white_keys(low: int, high: int)
    ensures
        spec_white_notes(low, high).finite(),
        spec_white_notes(low, high).len() == spec_white_count(low, high),
    decreases high - low + 1,
{
    if high < low {
        assert(spec_white_notes(low, high) =~= Set::empty());
    } else {
        law_white_count_is_number_of_white_keys(low, high - 1);
        let prev = spec_white_notes(low, high - 1);
        if spec_is_black(high) {
            assert(spec_white_notes(low, high) =~= prev);
        } else {
            assert(spec_white_notes(low, high) =~= prev.insert(high));
            assert(!prev.contains(high));
        }
    }
}

/// The natural a note is spelled from: the note itself for a white key,
/// the white key just below it for a black key.
pub open spec fn spec_natural_of(note: int) -> int {
    if spec_is_black(note) {
        note - 1
    } else {
        note
    }
}

/// On the keyboard a note's full name holds a `#` exactly when the note
/// is a black key, starts with the letter of its natural, and ends with
/// its octave digit.
pub proof fn law_full_name_spelling(note: int)
    requires
        LOW_NOTE <= note <= HIGH_NOTE,
    ensures
        spec_full_name(note).contains('#') <==> spec_is_black(note),
        spec_full_name(note).take(1) == spec_note_name(spec_natural_of(note)),
        spec_full_name(note).last() == spec_octave_digit(note),
{
    law_full_name_is_pitch_and_octave(note);
    lemma_octave_split(note, note / 12, note % 12);
    if spec_is_black(note) {
        lemma_octave_split(note - 1, note / 12, note % 12 - 1);
    }
    reveal_strlit("C");
    reveal_strlit("C#");
    reveal_strlit("D");
    reveal_strlit("D#");
    reveal_strlit("E");
    reveal_strlit("F");
    reveal_strlit("F#");
    reveal_strlit("G");
    reveal_strlit("G#");
    reveal_strlit("A");
    reveal_strlit("A#");
    reveal_strlit("B");
    let full = spec_full_name(note);
    if spec_is_black(note) {
        assert(full[1] == '#');
    } else {
        assert(full.len() == 2);
        assert(full[0] != '#' && full[1] != '#');
    }
    assert(full.take(1) =~= spec_note_name(spec_natural_of(note)));
}

/// The pitch class spelled by a pitch name: the natural's class from the
/// letter, plus one for a sharp.
spec fn spec_pitch_class_of(name: Seq<char>) -> int {
    let base = if name[0] == 'C' {
        0int
    } else if name[0] == 'D' {
        2
    } else if name[0] == 'E' {
        4
    } else if name[0] == 'F' {
        5
    } else if name[0] == 'G' {
        7
    } else if name[0] == 'A' {
        9
    } else {
        11
    };
    if name.len() == 2 {
        base + 1
    } else {
        base
    }
}

/// A pitch name spells back its pitch class, so distinct pitch classes
/// have distinct names.
proof fn lemma_pitch_name_spells_class(pc: int)
    requires
        0 <= pc < 12,
    ensures
        spec_pitch_class_of(spec_pitch_name(pc)) == pc,
{
    reveal_strlit("C");
    reveal_strlit("C#");
    reveal_strlit("D");
    reveal_strlit("D#");
    reveal_strlit("E");
    reveal_strlit("F");
    reveal_strlit("F#");
    reveal_strlit("G");
    reveal_strlit("G#");
    reveal_strlit("A");
    reveal_strlit("A#");
    reveal_strlit("B");
    if pc == 0 {
        assert(spec_pitch_name(pc) =~= "C"@);
    } else if pc == 1 {
        assert(spec_pitch_name(pc) =~= "C#"@);
    } else if pc == 2 {
        assert(spec_pitch_name(pc) =~= "D"@);
    } else if pc == 3 {
        assert(spec_pitch_name(pc) =~= "D#"@);
    } else if pc == 4 {
        assert(spec_pitch_name(pc) =~= "E"@);
    } else if pc == 5 {
        assert(spec_pitch_name(pc) =~= "F"@);
    } else if pc == 6 {
        assert(spec_pitch_name(pc) =~= "F#"@);
    } else if pc == 7 {
        assert(spec_pitch_name(pc) =~= "G"@);
    } else if pc == 8 {
        assert(spec_pitch_name(pc) =~= "G#"@);
    } else if pc == 9 {
        assert(spec_pitch_name(pc) =~= "A"@);
    } else if pc == 10 {
        assert(spec_pitch_name(pc) =~= "A#"@);
    } else if pc == 11 {
        assert(spec_pitch_name(pc) =~= "B"@);
    }
}

/// Different notes of the keyboard have different full names.
pub proof fn law_full_names_distinct(a: int, b: int)
    requires
        LOW_NOTE <= a <= HIGH_NOTE,
        LOW_NOTE <= b <= HIGH_NOTE,
        a != b,
    ensures
        spec_full_name(a) != spec_full_name(b),
{
    law_full_name_is_pitch_and_octave(a);
    law_full_name_is_pitch_and_octave(b);
    lemma_octave_split(a, a / 12, a % 12);
    lemma_octave_split(b, b / 12, b % 12);
    reveal_strlit("C");
    reveal_strlit("C#");
    reveal_strlit("D");
    reveal_strlit("D#");
    reveal_strlit("E");
    reveal_strlit("F");
    reveal_strlit("F#");
    reveal_strlit("G");
    reveal_strlit("G#");
    reveal_strlit("A");
    reveal_strlit("A#");
    reveal_strlit("B");
    if spec_full_name(a) == spec_full_name(b) {
        let fa = spec_full_name(a);
        assert(fa.last() == spec_octave_digit(a));
        assert(spec_full_name(b).last() == spec_octave_digit(b));
        assert(a / 12 == b / 12);
        assert(fa.drop_last() =~= spec_pitch_name(a % 12));
        assert(spec_full_name(b).drop_last() =~= spec_pitch_name(b % 12));
        lemma_pitch_name_spells_class(a % 12);
        lemma_pitch_name_spells_class(b % 12);
    }
}

/// Exactly the notes off the displayed keyboard are named `?`; every note
/// on it has a name of its own (see [`law_full_names_distinct`]).
pub proof fn law_full_name_unknown_off_keyboard(note: int)
    ensures
        spec_full_name(note) == "?"@ <==> !(LOW_NOTE <= note <= HIGH_NOTE),
{
    reveal_strlit("?");
    if LOW_NOTE <= note <= HIGH_NOTE {
        law_full_name_is_pitch_and_octave(note);
        lemma_octave_split(note, note / 12, note % 12);
        reveal_strlit("C");
        reveal_strlit("C#");
        reveal_strlit("D");
        reveal_strlit("D#");
        reveal_strlit("E");
        reveal_strlit("F");
        reveal_strlit("F#");
        reveal_strlit("G");
        reveal_strlit("G#");
        reveal_strlit("A");
        reveal_strlit("A#");
        reveal_strlit("B");
        assert(spec_full_name(note).len() >= 2);
    }
}

} // verus!
