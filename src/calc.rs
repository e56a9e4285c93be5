use vstd::prelude::*;
use crate::letter::{letter_from_class, Letter, TOTAL_LETTERS};
use crate::utils::modulo;
use vstd::arithmetic::div_mod::{lemma_fundamental_div_mod, lemma_fundamental_div_mod_converse};

verus! {

/// A signed count of octaves; octave 4 holds the tuning pitch `A 4`.
pub type Octave = i32;

/// A signed count of semitones.
pub type Semitones = i32;

/// Octave offset to match the MIDI step standard (i.e. A4 == 69).
pub const MIDI_OCTAVE_OFFSET: Octave = 1;

/// The shortest distance, in semitones, between two pitch classes on the circle of twelve.
pub open spec fn semitone_distance(a: int, b: int) -> int {
    let d = if a >= b { a - b } else { b - a };
    if d > 6 {
        12 - d
    } else {
        d
    }
}

/// The step of a letter in an octave: step 0 is `C` in octave -1.
pub open spec fn step_spec(letter: Letter, octave: int) -> int {
    (octave + MIDI_OCTAVE_OFFSET) * 12 + letter.class()
}

/// The letter, with sharp spelling, of a whole step.
pub open spec fn letter_of_step(step: int) -> Letter {
    letter_from_class(step % 12)
}

/// The octave of a whole step.
pub open spec fn octave_of_step(step: int) -> int {
    step / 12 - MIDI_OCTAVE_OFFSET
}

/// Find and return the smallest distance between two letters in semitones.
pub fn difference_in_semitones(letter_a: Letter, letter_b: Letter) -> (r: Semitones)
    ensures
        r == semitone_distance(letter_a.class(), letter_b.class()),
        0 <= r <= 6,
        letter_a.class() == letter_b.class() ==> r == 0,
{
    let a = letter_a.semitone() as Semitones;
    let b = letter_b.semitone() as Semitones;
    let diff = if a >= b { a - b } else { b - a };
    if diff > 6 {
        TOTAL_LETTERS as Semitones - diff
    } else {
        diff
    }
}

/// Calculate the pitch `step` from (Letter, Octave).
pub fn step_from_letter_octave(letter: Letter, octave: Octave) -> (r: i64)
    ensures
        r == step_spec(letter, octave as int),
{
    (MIDI_OCTAVE_OFFSET as i64 + octave as i64) * 12 + letter.semitone() as i64
}

/// Calculate pitch as (Letter, Octave) from a whole pitch `step`.
///
/// The letter has sharp spelling; a step between two letters is to be rounded to a whole one
/// before.
pub fn letter_octave_from_step(step: i32) -> (r: (Letter, Octave))
    ensures
        r.0 == letter_of_step(step as int),
        r.1 == octave_of_step(step as int),
{
    let letter_step = modulo(step as i64, TOTAL_LETTERS as i64);
    proof {
        lemma_fundamental_div_mod(step as int, 12);
        lemma_fundamental_div_mod_converse(step as int - letter_step as int, 12, step as int / 12, 0);
    }
    let octave = ((step as i64 - letter_step) / 12 - MIDI_OCTAVE_OFFSET as i64) as Octave;
    (Letter::from_semitone(letter_step as u8), octave)
}

/// The sharp spelling of a pitch class has that pitch class.
pub proof fn lemma_letter_from_class(i: int)
    requires
        0 <= i < 12,
    ensures
        letter_from_class(i).class() == i,
{
}

/// A whole step, read as a letter and an octave, gives that same step back.
pub proof fn lemma_step_round_trip(step: int)
    ensures
        step_spec(letter_of_step(step), octave_of_step(step)) == step,
{
    lemma_fundamental_div_mod(step, 12);
    lemma_letter_from_class(step % 12);
}

/// A letter in an octave, read as a step and back, keeps its pitch class and its octave;
/// only the spelling becomes the sharp one.
pub proof fn lemma_letter_octave_round_trip(letter: Letter, octave: int)
    ensures
        letter_of_step(step_spec(letter, octave)).class() == letter.class(),
        octave_of_step(step_spec(letter, octave)) == octave,
{
    let s = step_spec(letter, octave);
    lemma_fundamental_div_mod_converse(s, 12, octave + 1, letter.class());
    lemma_letter_from_class(letter.class());
}

} // verus!
