use scales::Accidentals;
use scales::Chord;
use scales::ChordTypes;
use scales::Scale;
use scales::ScaleTypes;
use scales::parse_key_acc;

#[test]
fn lib_parse_key_acc_ok() {
    let result = parse_key_acc("Amin").unwrap();
    assert_eq!(result, (String::from("A"), Accidentals::Natural));

    let result = parse_key_acc("Cmaj").unwrap();
    assert_eq!(result, (String::from("C"), Accidentals::Natural));

    let result = parse_key_acc("D#min").unwrap();
    assert_eq!(result, (String::from("D#"), Accidentals::Sharp));

    let result = parse_key_acc("Abmaj").unwrap();
    assert_eq!(result, (String::from("Ab"), Accidentals::Flat));
}

#[test]
fn lib_parse_key_acc_err() {
    let result = parse_key_acc("");
    assert!(result.is_err());
    assert_eq!(
        result.unwrap_err().message(),
        String::from("Input '' is too short")
    );

    let result = parse_key_acc("Xmin");
    assert!(result.is_err());
    assert_eq!(
        result.unwrap_err().message(),
        String::from("Wrong key value 'X'")
    );
}

#[test]
fn lib_parse_ok_scales() {
    let scale = Scale::parse("Amin").unwrap();
    assert_eq!(scale.key, "A");
    assert!(scale.accidental == Accidentals::Natural);
    assert!(scale.scale_type == ScaleTypes::Min);

    let scale = Scale::parse("Cmaj").unwrap();
    assert_eq!(scale.key, "C");
    assert!(scale.accidental == Accidentals::Natural);
    assert!(scale.scale_type == ScaleTypes::Maj);

    let scale = Scale::parse("D#min").unwrap();
    assert_eq!(scale.key, "D#");
    assert!(scale.accidental == Accidentals::Sharp);
    assert!(scale.scale_type == ScaleTypes::Min);

    let scale = Scale::parse("Abmaj").unwrap();
    assert_eq!(scale.key, "Ab");
    assert!(scale.accidental == Accidentals::Flat);
    assert!(scale.scale_type == ScaleTypes::Maj);

    // The enharmonic key Cb is normalized to B; the flat accidental is kept.
    let scale = Scale::parse("Cbmaj").unwrap();
    assert_eq!(scale.key, "B");
    assert!(scale.accidental == Accidentals::Flat);
    assert!(scale.scale_type == ScaleTypes::Maj);
}

#[test]
fn parse_wrong_scales() {
    let scale = Scale::parse("");
    assert!(scale.is_err());
    let scale = Scale::parse("Xmin");
    assert!(scale.is_err());
    let scale = Scale::parse("Something completely unrelated");
    assert!(scale.is_err());
    let scale = Scale::parse("A$min");
    assert!(scale.is_err());
    let scale = Scale::parse("A#foo");
    assert!(scale.is_err());
}

#[test]
fn parse_ok_chords() {
    let chord = Chord::parse("Amin").unwrap();
    assert_eq!(chord.key, "A");
    assert!(chord.accidental == Accidentals::Natural);
    assert!(chord.chord_type == ChordTypes::Min);

    let chord = Chord::parse("Cmaj").unwrap();
    assert_eq!(chord.key, "C");
    assert!(chord.accidental == Accidentals::Natural);
    assert!(chord.chord_type == ChordTypes::Maj);

    let chord = Chord::parse("D#min").unwrap();
    assert_eq!(chord.key, "D#");
    assert!(chord.accidental == Accidentals::Sharp);
    assert!(chord.chord_type == ChordTypes::Min);

    let chord = Chord::parse("Abmaj").unwrap();
    assert_eq!(chord.key, "Ab");
    assert!(chord.accidental == Accidentals::Flat);
    assert!(chord.chord_type == ChordTypes::Maj);

    let chord = Chord::parse("Cbmaj").unwrap();
    assert_eq!(chord.key, "Cb");
    assert!(chord.accidental == Accidentals::Flat);
    assert!(chord.chord_type == ChordTypes::Maj);
}

#[test]
fn parse_wrong_chords() {
    let chord = Chord::parse("");
    assert!(chord.is_err());
    let chord = Chord::parse("Xmin");
    assert!(chord.is_err());
    let chord = Chord::parse("Something completely unrelated");
    assert!(chord.is_err());
    let chord = Chord::parse("A$min");
    assert!(chord.is_err());
    let chord = Chord::parse("A#foo");
    assert!(chord.is_err());
}

#[test]
fn scales_parse_key_acc_ok() {
    let result = parse_key_acc("Amin").unwrap();
    assert_eq!(result, (String::from("A"), Accidentals::Natural));

    let result = parse_key_acc("Cmaj").unwrap();
    assert_eq!(result, (String::from("C"), Accidentals::Natural));

    let result = parse_key_acc("D#min").unwrap();
    assert_eq!(result, (String::from("D#"), Accidentals::Sharp));

    let result = parse_key_acc("Abmaj").unwrap();
    assert_eq!(result, (String::from("Ab"), Accidentals::Flat));
}

#[test]
fn scales_parse_key_acc_err() {
    let result = parse_key_acc("");
    assert!(result.is_err());
    assert_eq!(
        result.unwrap_err().message(),
        String::from("Input '' is too short")
    );

    let result = parse_key_acc("Xmin");
    assert!(result.is_err());
    assert_eq!(
        result.unwrap_err().message(),
        String::from("Wrong key value 'X'")
    );
}

#[test]
fn scales_parse_ok_scales() {
    let scale = Scale::parse("Amin").unwrap();
    assert_eq!(scale.key, "A");
    assert!(scale.accidental == Accidentals::Natural);
    assert!(scale.scale_type == ScaleTypes::Min);

    let scale = Scale::parse("Cmaj").unwrap();
    assert_eq!(scale.key, "C");
    assert!(scale.accidental == Accidentals::Natural);
    assert!(scale.scale_type == ScaleTypes::Maj);

    let scale = Scale::parse("D#min").unwrap();
    assert_eq!(scale.key, "D#");
    assert!(scale.accidental == Accidentals::Sharp);
    assert!(scale.scale_type == ScaleTypes::Min);

    let scale = Scale::parse("Abmaj").unwrap();
    assert_eq!(scale.key, "Ab");
    assert!(scale.accidental == Accidentals::Flat);
    assert!(scale.scale_type == ScaleTypes::Maj);

    // The enharmonic key Cb is normalized to B; the flat accidental is kept.
    let scale = Scale::parse("Cbmaj").unwrap();
    assert_eq!(scale.key, "B");
    assert!(scale.accidental == Accidentals::Flat);
    assert!(scale.scale_type == ScaleTypes::Maj);
}

#[test]
fn parse_wrong_scale() {
    let scale = Scale::parse("");
    assert!(scale.is_err());
    let scale = Scale::parse("Xmin");
    assert!(scale.is_err());
    let scale = Scale::parse("Something completely unrelated");
    assert!(scale.is_err());
    let scale = Scale::parse("A$min");
    assert!(scale.is_err());
    let scale = Scale::parse("A#foo");
    assert!(scale.is_err());
}
