use vstd::prelude::*;
use vstd::string::StrSliceExecFns;
use core::cmp::Ordering;
use crate::utils::{compare_spec, modulo, modulo_spec};
use vstd::arithmetic::div_mod::{lemma_add_mod_noop, lemma_mod_self_0, lemma_sub_mod_noop};

verus! {

/// The number of distinct pitch classes in the chromatic scale.
pub const TOTAL_LETTERS: u8 = 12;

/// The letter representation for each step in the 12-tone, equal temperament, chromatic scale.
///
/// Enharmonic spellings (`Csh` and `Db`, ...) stand for the same pitch class and compare equal.
#[derive(Clone, Copy, Debug)]
pub enum Letter {
    C,
    Csh,
    Db,
    D,
    Dsh,
    Eb,
    E,
    F,
    Fsh,
    Gb,
    G,
    Gsh,
    Ab,
    A,
    Ash,
    Bb,
    B,
}

/// The letter with sharp spelling for a pitch class in `0..12`.
pub open spec fn letter_from_class(i: int) -> Letter {
    if i == 0 {
        Letter::C
    } else if i == 1 {
        Letter::Csh
    } else if i == 2 {
        Letter::D
    } else if i == 3 {
        Letter::Dsh
    } else if i == 4 {
        Letter::E
    } else if i == 5 {
        Letter::F
    } else if i == 6 {
        Letter::Fsh
    } else if i == 7 {
        Letter::G
    } else if i == 8 {
        Letter::Gsh
    } else if i == 9 {
        Letter::A
    } else if i == 10 {
        Letter::Ash
    } else {
        Letter::B
    }
}

impl Letter {
    /// The pitch class of the letter: its offset in semitones above `C`.
    pub open spec fn class(self) -> int {
        match self {
            Letter::C => 0,
            Letter::Csh | Letter::Db => 1,
            Letter::D => 2,
            Letter::Dsh | Letter::Eb => 3,
            Letter::E => 4,
            Letter::F => 5,
            Letter::Fsh | Letter::Gb => 6,
            Letter::G => 7,
            Letter::Gsh | Letter::Ab => 8,
            Letter::A => 9,
            Letter::Ash | Letter::Bb => 10,
            Letter::B => 11,
        }
    }

    /// One of the seven letters without a sharp or flat.
    pub open spec fn is_natural(self) -> bool {
        self is C || self is D || self is E || self is F || self is G || self is A || self is B
    }

    /// Returns whether or not the note would be a black key on a standard piano or keyboard.
    pub fn is_black_key(self) -> (r: bool)
        ensures
            r == !self.is_natural(),
            r <==> (self.class() == 1 || self.class() == 3 || self.class() == 6
                || self.class() == 8 || self.class() == 10),
    {
        match self {
            Letter::Csh | Letter::Db | Letter::Dsh | Letter::Eb | Letter::Fsh | Letter::Gb
            | Letter::Gsh | Letter::Ab | Letter::Ash | Letter::Bb => true,
            Letter::C | Letter::D | Letter::E | Letter::F | Letter::G | Letter::A | Letter::B => false,
        }
    }

    /// The pitch class of the letter, in `0..12`.
    pub fn semitone(self) -> (r: u8)
        ensures
            r as int == self.class(),
            r < TOTAL_LETTERS,
    {
        match self {
            Letter::C => 0,
            Letter::Csh | Letter::Db => 1,
            Letter::D => 2,
            Letter::Dsh | Letter::Eb => 3,
            Letter::E => 4,
            Letter::F => 5,
            Letter::Fsh | Letter::Gb => 6,
            Letter::G => 7,
            Letter::Gsh | Letter::Ab => 8,
            Letter::A => 9,
            Letter::Ash | Letter::Bb => 10,
            Letter::B => 11,
        }
    }

    /// The letter, with sharp spelling, of a pitch class in `0..12`.
    pub fn from_semitone(i: u8) -> (r: Letter)
        requires
            i < TOTAL_LETTERS,
        ensures
            r == letter_from_class(i as int),
            r.class() == i as int,
    {
        match i {
            0 => Letter::C,
            1 => Letter::Csh,
            2 => Letter::D,
            3 => Letter::Dsh,
            4 => Letter::E,
            5 => Letter::F,
            6 => Letter::Fsh,
            7 => Letter::G,
            8 => Letter::Gsh,
            9 => Letter::A,
            10 => Letter::Ash,
            _ => Letter::B,
        }
    }

    /// The letter of the pitch class `n mod 12`; it never fails.
    pub fn from_i64(n: i64) -> (r: Option<Letter>)
        ensures
            r == Some(letter_from_class(modulo_spec(n as int, 12))),
    {
        let class = modulo(n, TOTAL_LETTERS as i64);
        Some(Letter::from_semitone(class as u8))
    }

    /// The letter of the pitch class `n mod 12`; it never fails.
    pub fn from_u64(n: u64) -> (r: Option<Letter>)
        ensures
            r == Some(letter_from_class(n as int % 12)),
    {
        let class = n % (TOTAL_LETTERS as u64);
        Some(Letter::from_semitone(class as u8))
    }

    /// The pitch class of the letter as an `i64`; it never fails.
    pub fn to_i64(&self) -> (r: Option<i64>)
        ensures
            r == Some(self.class() as i64),
    {
        Some(self.semitone() as i64)
    }

    /// The pitch class of the letter as a `u64`; it never fails.
    pub fn to_u64(&self) -> (r: Option<u64>)
        ensures
            r == Some(self.class() as u64),
    {
        Some(self.semitone() as u64)
    }
}

impl PartialEq for Letter {
    /// Letters are equal when they name the same pitch class.
    fn eq(&self, other: &Letter) -> (r: bool)
        ensures
            r == (self.class() == other.class()),
    {
        self.semitone() == other.semitone()
    }
}

impl vstd::std_specs::cmp::PartialEqSpecImpl for Letter {
    open spec fn obeys_eq_spec() -> bool {
        true
    }

    open spec fn eq_spec(&self, other: &Letter) -> bool {
        self.class() == other.class()
    }
}

impl Eq for Letter {
}

impl PartialOrd for Letter {
    /// Letters are ordered by pitch class.
    fn partial_cmp(&self, other: &Letter) -> (r: Option<Ordering>)
        ensures
            r == Some(compare_spec(self.class(), other.class())),
    {
        let a = self.semitone();
        let b = other.semitone();
        if a < b {
            Some(Ordering::Less)
        } else if a == b {
            Some(Ordering::Equal)
        } else {
            Some(Ordering::Greater)
        }
    }
}

impl vstd::std_specs::cmp::PartialOrdSpecImpl for Letter {
    open spec fn obeys_partial_cmp_spec() -> bool {
        true
    }

    open spec fn partial_cmp_spec(&self, other: &Letter) -> Option<Ordering> {
        Some(compare_spec(self.class(), other.class()))
    }
}

/// Moves a pitch class up by `semitones`, wrapping around the octave.
fn shift_class(class: u8, semitones: i64) -> (r: Letter)
    requires
        class < TOTAL_LETTERS,
    ensures
        r == letter_from_class((class + semitones) % 12),
{
    let wrapped = modulo(semitones, TOTAL_LETTERS as i64);
    let total = modulo(class as i64 + wrapped, TOTAL_LETTERS as i64);
    proof {
        lemma_add_mod_noop(class as int, semitones as int, 12);
        lemma_add_mod_noop(class as int, wrapped as int, 12);
        lemma_mod_self_0(12);
        vstd::arithmetic::div_mod::lemma_mod_twice(semitones as int, 12);
    }
    Letter::from_semitone(total as u8)
}

impl core::ops::Add<i64> for Letter {
    type Output = Letter;

    /// The letter `rhs` semitones above, with sharp spelling.
    fn add(self, rhs: i64) -> (r: Letter)
        ensures
            r == letter_from_class((self.class() + rhs) % 12),
    {
        shift_class(self.semitone(), rhs)
    }
}

impl vstd::std_specs::ops::AddSpecImpl<i64> for Letter {
    open spec fn obeys_add_spec() -> bool {
        true
    }

    open spec fn add_req(self, rhs: i64) -> bool {
        true
    }

    open spec fn add_spec(self, rhs: i64) -> Letter {
        letter_from_class((self.class() + rhs) % 12)
    }
}

impl core::ops::Sub<i64> for Letter {
    type Output = Letter;

    /// The letter `rhs` semitones below, with sharp spelling.
    fn sub(self, rhs: i64) -> (r: Letter)
        ensures
            r == letter_from_class((self.class() - rhs) % 12),
    {
        let down = 12 - modulo(rhs, TOTAL_LETTERS as i64);
        proof {
            lemma_sub_mod_noop(self.class(), rhs as int, 12);
            lemma_add_mod_noop(self.class(), down as int, 12);
            lemma_mod_self_0(12);
            assert((self.class() + down) % 12 == (self.class() - rhs) % 12) by {
                lemma_add_mod_noop(self.class() - rhs % 12, 12, 12);
            }
        }
        shift_class(self.semitone(), down)
    }
}

impl vstd::std_specs::ops::SubSpecImpl<i64> for Letter {
    open spec fn obeys_sub_spec() -> bool {
        true
    }

    open spec fn sub_req(self, rhs: i64) -> bool {
        true
    }

    open spec fn sub_spec(self, rhs: i64) -> Letter {
        letter_from_class((self.class() - rhs) % 12)
    }
}

impl core::ops::Add for Letter {
    type Output = Letter;

    /// Adds the pitch classes, wrapping around the octave.
    fn add(self, rhs: Letter) -> (r: Letter)
        ensures
            r == letter_from_class((self.class() + rhs.class()) % 12),
    {
        self + rhs.semitone() as i64
    }
}

impl vstd::std_specs::ops::AddSpecImpl for Letter {
    open spec fn obeys_add_spec() -> bool {
        true
    }

    open spec fn add_req(self, rhs: Letter) -> bool {
        true
    }

    open spec fn add_spec(self, rhs: Letter) -> Letter {
        letter_from_class((self.class() + rhs.class()) % 12)
    }
}

impl core::ops::Sub for Letter {
    type Output = Letter;

    /// Subtracts the pitch classes, wrapping around the octave.
    fn sub(self, rhs: Letter) -> (r: Letter)
        ensures
            r == letter_from_class((self.class() - rhs.class()) % 12),
    {
        self - rhs.semitone() as i64
    }
}

impl vstd::std_specs::ops::SubSpecImpl for Letter {
    open spec fn obeys_sub_spec() -> bool {
        true
    }

    open spec fn sub_req(self, rhs: Letter) -> bool {
        true
    }

    open spec fn sub_spec(self, rhs: Letter) -> Letter {
        letter_from_class((self.class() - rhs.class()) % 12)
    }
}

/// A trait to be implemented for all primitives for easy conversion to the Letter type.
pub trait ToLetter {
    /// The integer that the value stands for.
    spec fn int_value(&self) -> int;

    /// Cast a primitive type to a Letter: the pitch class of the value, wrapped into an octave.
    fn to_letter(&self) -> (r: Letter)
        ensures
            r == letter_from_class(self.int_value() % 12),
    ;
}

impl ToLetter for i8 {
    open spec fn int_value(&self) -> int {
        *self as int
    }

    fn to_letter(&self) -> (r: Letter) {
        Letter::from_i64(*self as i64).unwrap()
    }
}

impl ToLetter for i16 {
    open spec fn int_value(&self) -> int {
        *self as int
    }

    fn to_letter(&self) -> (r: Letter) {
        Letter::from_i64(*self as i64).unwrap()
    }
}

impl ToLetter for i32 {
    open spec fn int_value(&self) -> int {
        *self as int
    }

    fn to_letter(&self) -> (r: Letter) {
        Letter::from_i64(*self as i64).unwrap()
    }
}

impl ToLetter for i64 {
    open spec fn int_value(&self) -> int {
        *self as int
    }

    fn to_letter(&self) -> (r: Letter) {
        Letter::from_i64(*self).unwrap()
    }
}

impl ToLetter for u8 {
    open spec fn int_value(&self) -> int {
        *self as int
    }

    fn to_letter(&self) -> (r: Letter) {
        Letter::from_u64(*self as u64).unwrap()
    }
}

impl ToLetter for u16 {
    open spec fn int_value(&self) -> int {
        *self as int
    }

    fn to_letter(&self) -> (r: Letter) {
        Letter::from_u64(*self as u64).unwrap()
    }
}

impl ToLetter for u32 {
    open spec fn int_value(&self) -> int {
        *self as int
    }

    fn to_letter(&self) -> (r: Letter) {
        Letter::from_u64(*self as u64).unwrap()
    }
}

impl ToLetter for u64 {
    open spec fn int_value(&self) -> int {
        *self as int
    }

    fn to_letter(&self) -> (r: Letter) {
        Letter::from_u64(*self).unwrap()
    }
}

/// A symbolic letter name that names no letter.
#[derive(Debug)]
pub struct DecodeError {
    /// The offending name.
    pub value: String,
}

/// Two letters with one name are one letter: each spelling has a name of its own.
pub proof fn lemma_name_injective(a: Letter, b: Letter)
    ensures
        a.name_spec() == b.name_spec() ==> a == b,
{
    if a.name_spec() == b.name_spec() {
        assert(a.name_spec().len() == b.name_spec().len());
        assert(a.name_spec()[0] == b.name_spec()[0]);
        if a.name_spec().len() > 1 {
            assert(a.name_spec()[1] == b.name_spec()[1]);
        }
    }
}

impl Letter {
    /// The symbolic name of the letter: its variant name (`"C"`, `"Csh"`, `"Db"`, ...).
    pub open spec fn name_spec(self) -> Seq<char> {
        match self {
            Letter::C => seq!['C'],
            Letter::Csh => seq!['C', 's', 'h'],
            Letter::Db => seq!['D', 'b'],
            Letter::D => seq!['D'],
            Letter::Dsh => seq!['D', 's', 'h'],
            Letter::Eb => seq!['E', 'b'],
            Letter::E => seq!['E'],
            Letter::F => seq!['F'],
            Letter::Fsh => seq!['F', 's', 'h'],
            Letter::Gb => seq!['G', 'b'],
            Letter::G => seq!['G'],
            Letter::Gsh => seq!['G', 's', 'h'],
            Letter::Ab => seq!['A', 'b'],
            Letter::A => seq!['A'],
            Letter::Ash => seq!['A', 's', 'h'],
            Letter::Bb => seq!['B', 'b'],
            Letter::B => seq!['B'],
        }
    }

    /// The symbolic name of the letter, as it is spelled.
    pub fn name(self) -> (r: &'static str)
        ensures
            r@ == self.name_spec(),
    {
        match self {
            Letter::C => {
                proof { reveal_strlit("C"); }
                "C"
            },
            Letter::Csh => {
                proof { reveal_strlit("Csh"); }
                "Csh"
            },
            Letter::Db => {
                proof { reveal_strlit("Db"); }
                "Db"
            },
            Letter::D => {
                proof { reveal_strlit("D"); }
                "D"
            },
            Letter::Dsh => {
                proof { reveal_strlit("Dsh"); }
                "Dsh"
            },
            Letter::Eb => {
                proof { reveal_strlit("Eb"); }
                "Eb"
            },
            Letter::E => {
                proof { reveal_strlit("E"); }
                "E"
            },
            Letter::F => {
                proof { reveal_strlit("F"); }
                "F"
            },
            Letter::Fsh => {
                proof { reveal_strlit("Fsh"); }
                "Fsh"
            },
            Letter::Gb => {
                proof { reveal_strlit("Gb"); }
                "Gb"
            },
            Letter::G => {
                proof { reveal_strlit("G"); }
                "G"
            },
            Letter::Gsh => {
                proof { reveal_strlit("Gsh"); }
                "Gsh"
            },
            Letter::Ab => {
                proof { reveal_strlit("Ab"); }
                "Ab"
            },
            Letter::A => {
                proof { reveal_strlit("A"); }
                "A"
            },
            Letter::Ash => {
                proof { reveal_strlit("Ash"); }
                "Ash"
            },
            Letter::Bb => {
                proof { reveal_strlit("Bb"); }
                "Bb"
            },
            Letter::B => {
                proof { reveal_strlit("B"); }
                "B"
            },
        }
    }

    /// Reads a letter from its symbolic name; a name of no letter is an error that holds it.
    pub fn from_name(s: &str) -> (r: Result<Letter, DecodeError>)
        ensures
            r matches Ok(l) ==> l.name_spec() == s@ && forall|m: Letter|
                #[trigger] m.name_spec() == s@ ==> m == l,
            r matches Err(e) ==> e.value@ == s@,
            r is Err <==> forall|l: Letter| #[trigger] l.name_spec() != s@,
    {
        let n = s.unicode_len();
        let found = if n == 1 {
            match s.get_char(0) {
                'C' => Some(Letter::C),
                'D' => Some(Letter::D),
                'E' => Some(Letter::E),
                'F' => Some(Letter::F),
                'G' => Some(Letter::G),
                'A' => Some(Letter::A),
                'B' => Some(Letter::B),
                _ => None,
            }
        } else if n == 2 && s.get_char(1) == 'b' {
            match s.get_char(0) {
                'D' => Some(Letter::Db),
                'E' => Some(Letter::Eb),
                'G' => Some(Letter::Gb),
                'A' => Some(Letter::Ab),
                'B' => Some(Letter::Bb),
                _ => None,
            }
        } else if n == 3 && s.get_char(1) == 's' && s.get_char(2) == 'h' {
            match s.get_char(0) {
                'C' => Some(Letter::Csh),
                'D' => Some(Letter::Dsh),
                'F' => Some(Letter::Fsh),
                'G' => Some(Letter::Gsh),
                'A' => Some(Letter::Ash),
                _ => None,
            }
        } else {
            None
        };
        match found {
            Some(l) => {
                assert(l.name_spec() =~= s@);
                assert forall|m: Letter| #[trigger] m.name_spec() == s@ implies m == l by {
                    lemma_name_injective(m, l);
                }
                Ok(l)
            },
            None => {
                assert forall|l: Letter| #[trigger] l.name_spec() != s@ by {
                    if l.name_spec() == s@ {
                        assert(s@.len() == l.name_spec().len());
                        assert(s@[0] == l.name_spec()[0]);
                        if s@.len() > 1 {
                            assert(s@[1] == l.name_spec()[1]);
                        }
                        if s@.len() > 2 {
                            assert(s@[2] == l.name_spec()[2]);
                        }
                    }
                }
                Err(DecodeError { value: s.to_owned() })
            },
        }
    }
}

} // verus!
