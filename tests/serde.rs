use pitch_calc::{Letter, LetterOctave};

#[test]
fn test_letter() {
    let div = Letter::Fsh;
    let serialized = serde_json::to_string(div.name()).unwrap();

    println!("{}", serialized);
    assert_eq!("\"Fsh\"", &serialized);

    let name: String = serde_json::from_str(&serialized).unwrap();
    let deserialized = Letter::from_name(&name).unwrap();

    println!("{:?}", deserialized);
    assert_eq!(div, deserialized);
}

#[test]
fn test_letter_octave() {
    let letter_octave = LetterOctave(Letter::A, 4);
    let serialized =
        serde_json::to_string(&(letter_octave.letter().name(), letter_octave.octave())).unwrap();

    println!("{}", serialized);
    assert_eq!("[\"A\",4]", &serialized);

    let (name, octave): (String, i32) = serde_json::from_str(&serialized).unwrap();
    let deserialized = LetterOctave(Letter::from_name(&name).unwrap(), octave);

    println!("{:?}", deserialized);
    assert_eq!(letter_octave, deserialized);
}
