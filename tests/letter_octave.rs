use pitch_calc::{Letter, LetterOctave};
use std::cmp::Ordering;

#[test]
fn projections() {
    let lo = LetterOctave(Letter::Gb, 2);
    assert!(matches!(lo.letter_octave(), (Letter::Gb, 2)));
    assert!(matches!(lo.letter(), Letter::Gb));
    assert_eq!(lo.octave(), 2);
    assert_eq!(lo.step(), 42);
}

#[test]
fn equality_ignores_spelling() {
    assert!(LetterOctave(Letter::Csh, 3) == LetterOctave(Letter::Db, 3));
    assert!(LetterOctave(Letter::Csh, 3) != LetterOctave(Letter::Csh, 4));
}

#[test]
fn ordering_is_octave_then_letter() {
    assert!(LetterOctave(Letter::B, 3) < LetterOctave(Letter::C, 4));
    assert!(LetterOctave(Letter::D, 4) > LetterOctave(Letter::Db, 4));
    assert_eq!(
        LetterOctave(Letter::Ash, 1).partial_cmp(&LetterOctave(Letter::Bb, 1)),
        Some(Ordering::Equal)
    );
}

#[test]
fn arithmetic_on_steps() {
    let a4 = LetterOctave(Letter::A, 4);
    let c0 = LetterOctave(Letter::C, 0);
    assert!(a4 + c0 == LetterOctave(Letter::A, 5));
    assert!(a4 - c0 == LetterOctave(Letter::A, 3));
    assert!(-LetterOctave(Letter::C, 0) == LetterOctave(Letter::C, -2));
    assert!(LetterOctave(Letter::D, -1) * LetterOctave(Letter::E, -1) == LetterOctave(Letter::Gsh, -1));
    assert!(LetterOctave(Letter::A, 4) % LetterOctave(Letter::C, 0) == LetterOctave(Letter::A, -1));
    assert!(-LetterOctave(Letter::A, 4) % LetterOctave(Letter::C, 0) == LetterOctave(Letter::Dsh, -2));
}

#[test]
fn division_rounds_halves_away_from_zero() {
    assert!(LetterOctave(Letter::G, -1) / LetterOctave(Letter::D, -1) == LetterOctave(Letter::E, -1));
    assert!(LetterOctave(Letter::Csh, -1) / LetterOctave(Letter::D, -1) == LetterOctave(Letter::Csh, -1));
    assert!(LetterOctave(Letter::E, -1) / LetterOctave(Letter::Dsh, -1) == LetterOctave(Letter::Csh, -1));
    assert!(-LetterOctave(Letter::G, -1) / LetterOctave(Letter::D, -1) == LetterOctave(Letter::Gsh, -2));
}

#[test]
fn division_and_remainder_by_step_zero() {
    let zero = LetterOctave(Letter::C, -1);
    assert!(zero / zero == zero);
    assert!(LetterOctave(Letter::A, 4) % zero == zero);
    assert!(LetterOctave(Letter::A, 4) / zero == LetterOctave(Letter::G, 178956969));
}

#[test]
fn large_products_saturate() {
    let big = LetterOctave(Letter::C, 1_000_000);
    assert!(big * big == LetterOctave(Letter::G, 178956969));
    assert!(-big * big == LetterOctave(Letter::E, -178956972));
}
