//! Musical notes, octaves and scales.
use vstd::prelude::*;
use vstd::arithmetic::div_mod::{lemma_add_mod_noop, lemma_mod_twice, lemma_mod_add_multiples_vanish, lemma_fundamental_div_mod, lemma_mod_bound};

verus! {

/// A MIDI octave.
#[derive(Debug, Clone, Copy, PartialEq, Eq, Structural)]
pub enum Octave {
    /// Octave covering C-1 - B-1 (MIDI note range 0 - 11)
    Cneg1,
    /// Octave covering C0 - B0 (MIDI note range 12 - 23)
    C0,
    /// Octave covering C1 - B1 (MIDI note range 24 - 35)
    C1,
    /// Octave covering C2 - B2 (MIDI note range 36 - 47)
    C2,
    /// Octave covering C3 - B3 (MIDI note range 48 - 59)
    C3,
    /// Octave covering C4 - B4 (MIDI note range 60 - 71)
    C4,
    /// Octave covering C5 - B5 (MIDI note range 72 - 83)
    C5,
    /// Octave covering C6 - B6 (MIDI note range 84 - 95)
    C6,
    /// Octave covering C7 - B7 (MIDI note range 96 - 107)
    C7,
    /// Octave covering C8 - B8 (MIDI note range 108 - 119)
    C8,
    /// Octave covering C9 - B9 (MIDI note range 120 - 131)
    C9,
}

impl Default for Octave {
    /// The octave of middle C's neighbourhood, C3.
    fn default() -> (o: Self)
        ensures
            o == Octave::C3,
    {
        Octave::C3
    }
}

/// A letter key of the computer keyboard.
#[derive(Debug, Clone, Copy, PartialEq, Eq, Structural)]
pub enum Key {

    A,
    B,
    C,
    D,
    E,
    F,
    G,
    H,
    I,
    J,
    K,
    L,
    M,
    N,
    O,
    P,
    Q,
    R,
    S,
    T,
    U,
    V,
    W,
    X,
    Y,
    Z,
}

/// A note of the chromatic scale, independent of octave.
#[derive(Debug, Clone, Copy, PartialEq, Eq, Structural)]
pub enum Note {
    C,
    Cs,
    D,
    Ds,
    E,
    F,
    Fs,
    G,
    Gs,
    A,
    As,
    B,
}

impl Note {
    /// The value of the note: `C` is 0 and `B` is 11.
    pub open spec fn spec_value(self) -> int {
        match self {
            Note::C => 0,
            Note::Cs => 1,
            Note::D => 2,
            Note::Ds => 3,
            Note::E => 4,
            Note::F => 5,
            Note::Fs => 6,
            Note::G => 7,
            Note::Gs => 8,
            Note::A => 9,
            Note::As => 10,
            Note::B => 11,
        }
    }

    /// The note with a given value between 0 and 11.
    pub open spec fn spec_from_value(value: int) -> Note {
        if value == 0 {
            Note::C
        } else if value == 1 {
            Note::Cs
        } else if value == 2 {
            Note::D
        } else if value == 3 {
            Note::Ds
        } else if value == 4 {
            Note::E
        } else if value == 5 {
            Note::F
        } else if value == 6 {
            Note::Fs
        } else if value == 7 {
            Note::G
        } else if value == 8 {
            Note::Gs
        } else if value == 9 {
            Note::A
        } else if value == 10 {
            Note::As
        } else {
            Note::B
        }
    }

    /// The note reached from `self` by `semitones` semitones, in any octave.
    pub open spec fn transposed(self, semitones: int) -> Note {
        Note::spec_from_value((self.spec_value() + semitones) % 12)
    }

    /// The note associated with a key of the computer keyboard, laid out like
    /// a piano keyboard on the home row.
    pub open spec fn spec_from_key(key: Key) -> Option<Note> {
        match key {
            Key::A => Some(Note::C),
            Key::W => Some(Note::Cs),
            Key::S => Some(Note::D),
            Key::E => Some(Note::Ds),
            Key::D => Some(Note::E),
            Key::F => Some(Note::F),
            Key::T => Some(Note::Fs),
            Key::G => Some(Note::G),
            Key::Y => Some(Note::Gs),
            Key::H => Some(Note::A),
            Key::U => Some(Note::As),
            Key::J => Some(Note::B),
            Key::K => Some(Note::C),
            Key::O => Some(Note::Cs),
            Key::L => Some(Note::D),
            Key::P => Some(Note::Ds),
            _ => None,
        }
    }

    /// Returns the note with a given transposition.
    pub fn transpose(&self, semitones: i32) -> (n: Note)
        requires
            self.spec_value() + semitones <= i32::MAX,
        ensures
            n == self.transposed(semitones as int),
            n.spec_value() == (self.spec_value() + semitones) % 12,
    {
        let x = self.note_value() + semitones;
        let mut value = x % 12;
        proof {
            lemma_fundamental_div_mod(x as int, 12);
            lemma_mod_bound(x as int, 12);
        }
        while value < 0
            invariant
                -12 < value < 12,
                (value as int) % 12 == (x as int) % 12,
            decreases 12 - value,
        {
            proof {
                lemma_mod_add_multiples_vanish(value as int, 12);
            }
            value += 12;
        }
        proof {
            lemma_mod_twice(value as int, 12);
            assert((value as int) % 12 == value as int);
        }
        Self::from_value(value)
    }

    /// Returns the note associated with a specific key on the keyboard.
    pub fn from_key(key: &Key) -> (n: Option<Note>)
        ensures
            n == Note::spec_from_key(*key),
    {
        match key {
            Key::A => Some(Note::C),
            Key::W => Some(Note::Cs),
            Key::S => Some(Note::D),
            Key::E => Some(Note::Ds),
            Key::D => Some(Note::E),
            Key::F => Some(Note::F),
            Key::T => Some(Note::Fs),
            Key::G => Some(Note::G),
            Key::Y => Some(Note::Gs),
            Key::H => Some(Note::A),
            Key::U => Some(Note::As),
            Key::J => Some(Note::B),
            Key::K => Some(Note::C),
            Key::O => Some(Note::Cs),
            Key::L => Some(Note::D),
            Key::P => Some(Note::Ds),
            _ => None,
        }
    }

    /// Returns the value of the note for any octave.
    ///
    /// `C` is represented as 0, and `B` as 11.
    pub fn note_value(&self) -> (v: i32)
        ensures
            v == self.spec_value(),
            0 <= v < 12,
    {
        match self {
            Note::C => 0,
            Note::Cs => 1,
            Note::D => 2,
            Note::Ds => 3,
            Note::E => 4,
            Note::F => 5,
            Note::Fs => 6,
            Note::G => 7,
            Note::Gs => 8,
            Note::A => 9,
            Note::As => 10,
            Note::B => 11,
        }
    }

    /// The note with a given value.
    pub fn from_value(value: i32) -> (n: Note)
        requires
            0 <= value < 12,
        ensures
            n == Note::spec_from_value(value as int),
            n.spec_value() == value,
    {
        match value {
            0 => Note::C,
            1 => Note::Cs,
            2 => Note::D,
            3 => Note::Ds,
            4 => Note::E,
            5 => Note::F,
            6 => Note::Fs,
            7 => Note::G,
            8 => Note::Gs,
            9 => Note::A,
            10 => Note::As,
            _ => Note::B,
        }
    }
}

/// Every note has a value between 0 and 11, and that value names it back.
pub proof fn lemma_note_value_round_trip(n: Note)
    ensures
        0 <= n.spec_value() < 12,
        Note::spec_from_value(n.spec_value()) == n,
{
}

/// A value between 0 and 11 names the note with that value.
pub proof fn lemma_from_value_round_trip(value: int)
    requires
        0 <= value < 12,
    ensures
        Note::spec_from_value(value).spec_value() == value,
{
}

/// The value of a transposed note is the value of the note plus the
/// transposition, taken modulo 12.
pub proof fn lemma_transposed_value(n: Note, semitones: int)
    ensures
        n.transposed(semitones).spec_value() == (n.spec_value() + semitones) % 12,
{
    lemma_mod_bound(n.spec_value() + semitones, 12);
}

/// Transposing by whole octaves gives the same note back.
pub proof fn lemma_transpose_by_octaves(n: Note, octaves: int)
    ensures
        n.transposed(12 * octaves) == n,
{
    lemma_mod_multiples_vanish_local(octaves, n.spec_value());
    lemma_note_value_round_trip(n);
}

/// Transposing twice is transposing once by the sum.
pub proof fn lemma_transpose_compose(n: Note, a: int, b: int)
    ensures
        n.transposed(a).transposed(b) == n.transposed(a + b),
{
    let v = n.spec_value();
    lemma_transposed_value(n, a);
    lemma_add_mod_noop(v + a, b, 12);
    lemma_mod_twice(b, 12);
    lemma_add_mod_noop(v + a, b % 12, 12);
    lemma_mod_bound(v + a, 12);
    assert(((v + a) % 12 + b) % 12 == (v + a + b) % 12) by {
        lemma_add_mod_noop((v + a), b, 12);
        lemma_mod_twice(v + a, 12);
        lemma_add_mod_noop((v + a) % 12, b, 12);
    }
}

proof fn lemma_mod_multiples_vanish_local(k: int, v: int)
    requires
        0 <= v < 12,
    ensures
        (v + 12 * k) % 12 == v,
{
    vstd::arithmetic::div_mod::lemma_mod_multiples_basic(k, 12);
    lemma_add_mod_noop(v, 12 * k, 12);
    assert(12 * k == k * 12) by (nonlinear_arith);
    vstd::arithmetic::div_mod::lemma_small_mod(v as nat, 12);
}

/// The twelve notes of the chromatic scale in rising order, one semitone
/// apart, starting from C.
pub open spec fn chromatic_scale() -> Seq<Note> {
    seq![
        Note::C,
        Note::Cs,
        Note::D,
        Note::Ds,
        Note::E,
        Note::F,
        Note::Fs,
        Note::G,
        Note::Gs,
        Note::A,
        Note::As,
        Note::B,
    ]
}

/// Note values count semitones up from C along the chromatic scale: the note
/// at place `i` of the scale has value `i`, and value `i` names it.
pub proof fn lemma_values_follow_chromatic_scale(i: int)
    requires
        0 <= i < 12,
    ensures
        chromatic_scale()[i].spec_value() == i,
        Note::spec_from_value(i) == chromatic_scale()[i],
{
    let c = chromatic_scale();
    assert(c.len() == 12);
    assert(c[0] == Note::C && c[1] == Note::Cs && c[2] == Note::D && c[3] == Note::Ds);
    assert(c[4] == Note::E && c[5] == Note::F && c[6] == Note::Fs && c[7] == Note::G);
    assert(c[8] == Note::Gs && c[9] == Note::A && c[10] == Note::As && c[11] == Note::B);
}

/// Transposing by `semitones` moves along the chromatic scale by that many
/// places, wrapping around at the octave; in particular one semitone up is
/// the next note of the scale, and B goes up to C.
pub proof fn lemma_transpose_walks_chromatic_scale(i: int, semitones: int)
    requires
        0 <= i < 12,
    ensures
        chromatic_scale()[i].transposed(semitones) == chromatic_scale()[(i + semitones) % 12],
{
    lemma_values_follow_chromatic_scale(i);
    lemma_mod_bound(i + semitones, 12);
    lemma_values_follow_chromatic_scale((i + semitones) % 12);
}

/// The keys of the computer keyboard in the order of the piano keys they
/// stand for: the home row holds the white keys and the row above the black
/// ones, each black key between the two white keys it lies between.
pub open spec fn piano_keys() -> Seq<Key> {
    seq![
        Key::A,
        Key::W,
        Key::S,
        Key::E,
        Key::D,
        Key::F,
        Key::T,
        Key::G,
        Key::Y,
        Key::H,
        Key::U,
        Key::J,
        Key::K,
        Key::O,
        Key::L,
        Key::P,
    ]
}

/// The keyboard plays like a piano: its first key plays C, each next key of
/// the piano layout plays the note one semitone higher, so key `i` plays the
/// note `i` semitones above C; no other key plays a note.
pub proof fn lemma_keys_play_like_a_piano(i: int, key: Key)
    requires
        0 <= i < 16,
    ensures
        Note::spec_from_key(piano_keys()[i]) == Some(chromatic_scale()[i % 12]),
        i + 1 < 16 ==> Note::spec_from_key(piano_keys()[i + 1]) == Some(
            Note::spec_from_key(piano_keys()[i]).unwrap().transposed(1),
        ),
        Note::spec_from_key(key) is Some <==> piano_keys().contains(key),
{
    let p = piano_keys();
    let c = chromatic_scale();
    assert(p.len() == 16);
    assert(p[0] == Key::A && p[1] == Key::W && p[2] == Key::S && p[3] == Key::E);
    assert(p[4] == Key::D && p[5] == Key::F && p[6] == Key::T && p[7] == Key::G);
    assert(p[8] == Key::Y && p[9] == Key::H && p[10] == Key::U && p[11] == Key::J);
    assert(p[12] == Key::K && p[13] == Key::O && p[14] == Key::L && p[15] == Key::P);
    assert(c[0] == Note::C && c[1] == Note::Cs && c[2] == Note::D && c[3] == Note::Ds);
    assert(c[4] == Note::E && c[5] == Note::F && c[6] == Note::Fs && c[7] == Note::G);
    assert(c[8] == Note::Gs && c[9] == Note::A && c[10] == Note::As && c[11] == Note::B);
    if i + 1 < 16 {
        lemma_transpose_walks_chromatic_scale(i % 12, 1);
        assert((i % 12 + 1) % 12 == (i + 1) % 12);
    }
    if Note::spec_from_key(key) is Some {
        let j: int = match key {
            Key::A => 0,
            Key::W => 1,
            Key::S => 2,
            Key::E => 3,
            Key::D => 4,
            Key::F => 5,
            Key::T => 6,
            Key::G => 7,
            Key::Y => 8,
            Key::H => 9,
            Key::U => 10,
            Key::J => 11,
            Key::K => 12,
            Key::O => 13,
            Key::L => 14,
            _ => 15,
        };
        assert(p[j] == key);
    }
}

/// The keys of the computer keyboard that play notes.
pub const KEYBOARD_MUSICAL_NOTES: [Key; 16] = [
    Key::A,
    Key::S,
    Key::D,
    Key::F,
    Key::G,
    Key::H,
    Key::J,
    Key::K,
    Key::L,
    Key::W,
    Key::E,
    Key::T,
    Key::Y,
    Key::U,
    Key::O,
    Key::P,
];

/// Semitone offsets of the major scale.
pub const MAJOR_SCALE_INTERVALS: [u32; 7] = [0, 2, 4, 5, 7, 9, 11];

/// Semitone offsets of the natural minor scale.
pub const MINOR_SCALE_INTERVALS: [u32; 7] = [0, 2, 3, 5, 7, 8, 10];

/// Semitone offsets of the major pentatonic scale.
pub const MAJOR_PENTATONIC_SCALE_INTERVALS: [u32; 5] = [0, 2, 4, 7, 9];

/// Semitone offsets of the minor pentatonic scale.
pub const MINOR_PENTATONIC_SCALE_INTERVALS: [u32; 5] = [0, 3, 5, 7, 10];

/// Every key that plays notes is mapped to a note.
pub proof fn lemma_musical_keys_play_notes(i: int)
    requires
        0 <= i < 16,
    ensures
        Note::spec_from_key(KEYBOARD_MUSICAL_NOTES@[i]) is Some,
{
}

} // verus!
