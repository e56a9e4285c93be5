//!
//! Conversions between the units of musical pitch: letters, octaves and whole MIDI-esque steps,
//! with the integer arithmetic that keeps them in step.
//!
use vstd::prelude::*;

pub mod calc;
pub mod letter;
pub mod letter_octave;
pub mod utils;

pub use calc::{
    difference_in_semitones, letter_octave_from_step, step_from_letter_octave, Octave, Semitones,
};
pub use letter::{DecodeError, Letter, ToLetter, TOTAL_LETTERS};
pub use letter_octave::LetterOctave;
pub use utils::modulo;
