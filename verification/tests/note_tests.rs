use scales::Accidentals;
use scales::Chord;
use scales::ParseError;
use scales::Scale;

/// Pitch class of a note name: the letter's chromatic position, adjusted by
/// a trailing `#` or `b`.
fn pitch_class(name: &str) -> u8 {
    let mut chars = name.chars();
    let letter = chars.next().unwrap();
    let base: u8 = match letter {
        'C' => 0,
        'D' => 2,
        'E' => 4,
        'F' => 5,
        'G' => 7,
        'A' => 9,
        'B' => 11,
        _ => panic!("not a note name: {}", name),
    };
    match chars.next() {
        Some('#') => (base + 1) % 12,
        Some('b') => (base + 11) % 12,
        None => base,
        _ => panic!("not a note name: {}", name),
    }
}

fn pitch_class_set(notes: &[&str]) -> Vec<bool> {
    let mut set = vec![false; 12];
    for n in notes {
        set[pitch_class(n) as usize] = true;
    }
    set
}

#[test]
fn all_keys_give_seven_distinct_notes() {
    for letter in ["C", "D", "E", "F", "G", "A", "B"] {
        for marker in ["", "#", "b"] {
            for quality in ["maj", "min"] {
                let name = format!("{}{}{}", letter, marker, quality);
                let scale = Scale::parse(&name).unwrap();
                let notes = scale.to_notes();
                assert_eq!(notes.len(), 7, "{}", name);
                for i in 0..7 {
                    for j in 0..7 {
                        if i != j {
                            assert_ne!(notes[i], notes[j], "{}", name);
                        }
                    }
                }
                // The first note is the (normalized) key itself.
                assert_eq!(pitch_class(notes[0]), pitch_class(&scale.key), "{}", name);
                assert_eq!(notes[0], scale.key, "{}", name);
            }
        }
    }
}

#[test]
fn cmaj_notes() {
    assert_eq!(
        Scale::parse("Cmaj").unwrap().to_notes().join("-"),
        "C-D-E-F-G-A-B"
    );
}

#[test]
fn amin_notes() {
    assert_eq!(
        Scale::parse("Amin").unwrap().to_notes().join("-"),
        "A-B-C-D-E-F-G"
    );
}

#[test]
fn dsharpmin_notes() {
    assert_eq!(
        Scale::parse("D#min").unwrap().to_notes().join("-"),
        "D#-F-F#-G#-A#-B-C#"
    );
}

#[test]
fn to_string_joins_notes() {
    assert_eq!(Scale::parse("Cmaj").unwrap().to_string(), "C-D-E-F-G-A-B");
    assert_eq!(
        Scale::parse("Abmaj").unwrap().to_string(),
        "Ab-Bb-C-Db-Eb-F-G"
    );
}

#[test]
fn relative_of_cmaj_is_amin() {
    let relative = Scale::parse("Cmaj").unwrap().relative();
    assert_eq!(relative.to_string(), "A-B-C-D-E-F-G");
    assert_eq!(relative.name(), "Amin");
}

#[test]
fn relative_round_trip() {
    for letter in ["C", "D", "E", "F", "G", "A", "B"] {
        for marker in ["", "#", "b"] {
            for quality in ["maj", "min"] {
                let name = format!("{}{}{}", letter, marker, quality);
                let scale = Scale::parse(&name).unwrap();
                let relative = scale.relative();
                // Same pitch-class set, different tonic.
                assert_eq!(
                    pitch_class_set(&scale.to_notes()),
                    pitch_class_set(&relative.to_notes()),
                    "{}",
                    name
                );
                // The relative of the relative is the original again.
                let back = relative.relative();
                assert_eq!(back.key, scale.key, "{}", name);
                assert!(back.accidental == scale.accidental, "{}", name);
                assert!(back.scale_type == scale.scale_type, "{}", name);
            }
        }
    }
}

#[test]
fn chord_notes_triads() {
    assert_eq!(Chord::parse("Cmaj").unwrap().to_notes(), ["C", "E", "G"]);
    assert_eq!(
        Chord::parse("D#min").unwrap().to_notes(),
        ["D#", "F#", "A#"]
    );
    assert_eq!(Chord::parse("Amin").unwrap().to_notes(), ["A", "C", "E"]);
    assert_eq!(Chord::parse("Cdim").unwrap().to_notes(), ["C", "D#", "F#"]);
    assert_eq!(Chord::parse("Caug").unwrap().to_notes(), ["C", "E", "G#"]);
    assert_eq!(Chord::parse("Csus2").unwrap().to_notes(), ["C", "D", "G"]);
    assert_eq!(Chord::parse("Csus4").unwrap().to_notes(), ["C", "F", "G"]);
}

#[test]
fn chord_notes_sevenths() {
    assert_eq!(
        Chord::parse("Cdom7").unwrap().to_notes(),
        ["C", "E", "G", "A#"]
    );
    assert_eq!(
        Chord::parse("Cmin7").unwrap().to_notes(),
        ["C", "D#", "G", "A#"]
    );
    assert_eq!(
        Chord::parse("Cmaj7").unwrap().to_notes(),
        ["C", "E", "G", "B"]
    );
    assert_eq!(
        Chord::parse("Abmin7").unwrap().to_notes(),
        ["Ab", "B", "Eb", "Gb"]
    );
}

#[test]
fn cb_scale_uses_flat_spellings() {
    let scale = Scale::parse("Cbmaj").unwrap();
    assert_eq!(scale.key, "B");
    assert!(scale.accidental == Accidentals::Flat);
    assert_eq!(
        scale.to_notes(),
        ["B", "Db", "Eb", "E", "Gb", "Ab", "Bb"]
    );
}

#[test]
fn enharmonic_keys_normalize() {
    assert_eq!(Scale::parse("Fbmaj").unwrap().key, "E");
    assert_eq!(Scale::parse("E#maj").unwrap().key, "F");
    assert_eq!(Scale::parse("B#min").unwrap().key, "C");
}

#[test]
fn error_kinds() {
    assert!(matches!(
        Scale::parse(""),
        Err(ParseError::InputTooShort(_))
    ));
    assert!(matches!(Scale::parse("Xmin"), Err(ParseError::InvalidKey(_))));
    assert!(matches!(
        Scale::parse("A$min"),
        Err(ParseError::UnknownScaleQuality(_))
    ));
    assert!(matches!(
        Scale::parse("A#foo"),
        Err(ParseError::UnknownScaleQuality(_))
    ));
    assert!(matches!(
        Chord::parse(""),
        Err(ParseError::InputTooShort(_))
    ));
    assert!(matches!(Chord::parse("Xmin"), Err(ParseError::InvalidKey(_))));
    assert!(matches!(
        Chord::parse("A$min"),
        Err(ParseError::UnknownChordQuality(_))
    ));
    assert!(matches!(
        Chord::parse("A#foo"),
        Err(ParseError::UnknownChordQuality(_))
    ));
}

#[test]
fn error_messages() {
    assert_eq!(
        Scale::parse("").unwrap_err().message(),
        "Input '' is too short"
    );
    assert_eq!(
        Scale::parse("Xmin").unwrap_err().message(),
        "Wrong key value 'X'"
    );
    assert_eq!(
        Scale::parse("A#foo").unwrap_err().message(),
        "Error parsing scale 'A#foo', wrong scale type"
    );
    assert_eq!(
        Chord::parse("A#foo").unwrap_err().message(),
        "Wrong chord type: 'A#foo'"
    );
}

#[test]
fn chord_canonical_key() {
    assert!(Chord::parse("Cmaj").unwrap().has_canonical_key());
    assert!(Chord::parse("D#min").unwrap().has_canonical_key());
    assert!(Chord::parse("Abmaj").unwrap().has_canonical_key());
    // The unnormalized enharmonic keys are absent from the reference.
    assert!(!Chord::parse("Cbmaj").unwrap().has_canonical_key());
    assert!(!Chord::parse("Fbmin").unwrap().has_canonical_key());
    assert!(!Chord::parse("E#maj").unwrap().has_canonical_key());
    assert!(!Chord::parse("B#min").unwrap().has_canonical_key());
}

#[test]
fn scale_names() {
    assert_eq!(Scale::parse("Cmaj").unwrap().name(), "Cmaj");
    assert_eq!(Scale::parse("D#min").unwrap().name(), "D#min");
    assert_eq!(Scale::parse("Cbmaj").unwrap().name(), "Bmaj");
}
