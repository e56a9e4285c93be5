use pitch_calc::{DecodeError, Letter, ToLetter, TOTAL_LETTERS};
use std::cmp::Ordering;

#[test]
fn black_keys_are_the_sharps_and_flats() {
    let black = [
        Letter::Csh, Letter::Db, Letter::Dsh, Letter::Eb, Letter::Fsh, Letter::Gb, Letter::Gsh,
        Letter::Ab, Letter::Ash, Letter::Bb,
    ];
    let white = [Letter::C, Letter::D, Letter::E, Letter::F, Letter::G, Letter::A, Letter::B];
    for l in black.iter() {
        assert!(l.is_black_key(), "{:?}", l);
    }
    for l in white.iter() {
        assert!(!l.is_black_key(), "{:?}", l);
    }
}

#[test]
fn enharmonic_letters_are_equal() {
    assert!(Letter::Csh == Letter::Db);
    assert!(Letter::Ash == Letter::Bb);
    assert!(Letter::C != Letter::Csh);
    assert_eq!(Letter::Gb.partial_cmp(&Letter::Fsh), Some(Ordering::Equal));
}

#[test]
fn letters_order_by_pitch_class() {
    assert!(Letter::C < Letter::Db);
    assert!(Letter::Csh < Letter::D);
    assert!(Letter::B > Letter::Bb);
    assert_eq!(Letter::E.partial_cmp(&Letter::Eb), Some(Ordering::Greater));
}

#[test]
fn from_integer_wraps_and_spells_sharp() {
    assert!(matches!(Letter::from_i64(1), Some(Letter::Csh)));
    assert!(matches!(Letter::from_i64(-1), Some(Letter::B)));
    assert!(matches!(Letter::from_i64(21), Some(Letter::A)));
    assert!(matches!(Letter::from_i64(i64::MIN), Some(Letter::E)));
    assert!(matches!(Letter::from_u64(15), Some(Letter::Dsh)));
    assert!(matches!(Letter::from_u64(u64::MAX), Some(Letter::Dsh)));
}

#[test]
fn to_integer_gives_pitch_class() {
    assert_eq!(Letter::C.to_i64(), Some(0));
    assert_eq!(Letter::Db.to_i64(), Some(1));
    assert_eq!(Letter::Bb.to_u64(), Some(10));
    assert_eq!(Letter::B.to_u64(), Some(11));
    assert_eq!(Letter::Eb.semitone(), 3);
    assert_eq!(TOTAL_LETTERS, 12);
}

#[test]
fn every_class_round_trips() {
    for i in 0..12u8 {
        assert_eq!(Letter::from_semitone(i).semitone(), i);
        assert!(!Letter::from_semitone(i).name().ends_with('b'));
    }
}

#[test]
fn to_letter_on_primitives() {
    assert!(matches!(9i32.to_letter(), Letter::A));
    assert!(matches!((-3i8).to_letter(), Letter::A));
    assert!(matches!(60u8.to_letter(), Letter::C));
    assert!(matches!(70u16.to_letter(), Letter::Ash));
    assert!(matches!((-13i16).to_letter(), Letter::B));
    assert!(matches!(u32::MAX.to_letter(), Letter::Dsh));
    assert!(matches!(u64::MAX.to_letter(), Letter::Dsh));
    assert!(matches!(i64::MAX.to_letter(), Letter::G));
}

#[test]
fn letter_plus_semitones() {
    assert!(matches!(Letter::B + 2i64, Letter::Csh));
    assert!(matches!(Letter::C + (-1i64), Letter::B));
    assert!(matches!(Letter::Db + 12i64, Letter::Csh));
    assert!(matches!(Letter::A + i64::MAX, Letter::E));
}

#[test]
fn letter_minus_semitones() {
    assert!(matches!(Letter::C - 1i64, Letter::B));
    assert!(matches!(Letter::E - (-3i64), Letter::G));
    assert!(matches!(Letter::D - 26i64, Letter::C));
    assert!(matches!(Letter::C - i64::MIN, Letter::Gsh));
}

#[test]
fn letter_plus_and_minus_letter() {
    assert!(matches!(Letter::E + Letter::G, Letter::B));
    assert!(matches!(Letter::A + Letter::Eb, Letter::C));
    assert!(matches!(Letter::C - Letter::Db, Letter::B));
    assert!(matches!(Letter::G - Letter::E, Letter::Dsh));
}

#[test]
fn names_are_variant_names() {
    assert_eq!(Letter::Fsh.name(), "Fsh");
    assert_eq!(Letter::Db.name(), "Db");
    assert_eq!(Letter::C.name(), "C");
}

#[test]
fn every_name_decodes_to_its_letter() {
    let all = [
        Letter::C, Letter::Csh, Letter::Db, Letter::D, Letter::Dsh, Letter::Eb, Letter::E,
        Letter::F, Letter::Fsh, Letter::Gb, Letter::G, Letter::Gsh, Letter::Ab, Letter::A,
        Letter::Ash, Letter::Bb, Letter::B,
    ];
    for l in all.iter() {
        let back = Letter::from_name(l.name()).unwrap();
        assert_eq!(back.name(), l.name());
    }
}

#[test]
fn unknown_name_is_an_error_naming_it() {
    for bad in ["H", "", "Cb", "Esh", "C#", "Fshh", "fsh"].iter() {
        match Letter::from_name(bad) {
            Err(DecodeError { value }) => assert_eq!(&value, bad),
            Ok(l) => panic!("{} decoded as {:?}", bad, l),
        }
    }
}
