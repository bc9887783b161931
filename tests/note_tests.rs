use guitar_scale::interval::Interval;
use guitar_scale::note::{Note, TraitGenerate, TraitNoteSemitones};
use ukebox::{PitchClass, StaffPosition};

const SYMBOLS: [&str; 17] = [
    "C", "C#", "Db", "D", "D#", "Eb", "E", "F", "F#", "Gb", "G", "G#", "Ab", "A", "A#", "Bb", "B",
];

fn parse(s: &str) -> Note {
    Note::from_str(s).unwrap()
}

#[test]
fn it_works() {
    assert_eq!(2 + 2, 4);
}

#[test]
fn test_from_and_to_str() {
    for s in SYMBOLS {
        let note = Note::from_str(s).unwrap();
        assert_eq!(note.to_string(), s);
    }
}

#[test]
fn symbol_round_trip_keeps_spelling() {
    let db = parse("Db");
    assert_eq!(db.pitch_class(), PitchClass::CSharp);
    assert_eq!(db.staff_position(), StaffPosition::DPos);
    let cs = parse("C#");
    assert_eq!(cs.pitch_class(), PitchClass::CSharp);
    assert_eq!(cs.staff_position(), StaffPosition::CPos);
    assert_eq!(db.symbol(), "Db");
    assert_eq!(cs.symbol(), "C#");
}

#[test]
fn parse_rejects_other_spellings() {
    for s in ["E#", "Fb", "Cb", "B#", "H", "", "c", "C##", "Dbb", " C"] {
        let e = Note::from_str(s).unwrap_err();
        assert_eq!(e.name, s);
    }
    let e = Note::from_str("E#").unwrap_err();
    assert_eq!(e.message(), "Could not parse note name \"E#\"");
}

#[test]
fn parse_through_from_str_trait() {
    let n: Note = "G#".parse().unwrap();
    assert_eq!(n.to_string(), "G#");
    assert!("X".parse::<Note>().is_err());
}

#[test]
fn test_add_interval() {
    let cases = [
        ("C", Interval::PerfectUnison, "C"),
        ("C", Interval::MinorThird, "Eb"),
        ("C", Interval::MajorThird, "E"),
        ("C", Interval::PerfectFifth, "G"),
        ("C#", Interval::PerfectUnison, "C#"),
        ("C#", Interval::MajorThird, "F"),
    ];
    for (note_name, interval, result_name) in cases {
        let note = parse(note_name);
        assert!(note.add(interval) == parse(result_name));
    }
}

#[test]
fn c_plus_minor_third_is_e_flat() {
    let r = parse("C").add(Interval::MinorThird);
    assert!(r == parse("Eb"));
    assert_eq!(r.pitch_class(), PitchClass::DSharp);
    assert_eq!(r.staff_position(), StaffPosition::EPos);
    assert_eq!(r.to_string(), "Eb");
    assert!(r != parse("D#"));
}

#[test]
fn c_sharp_plus_major_third_is_f() {
    let r = parse("C#").add(Interval::MajorThird);
    assert!(r == parse("F"));
    assert_eq!(r.pitch_class(), PitchClass::F);
    assert_eq!(r.staff_position(), StaffPosition::EPos);
    assert_eq!(r.to_string(), "F");
}

#[test]
fn octaves_keep_the_note() {
    let d = parse("D");
    let up = d.add(Interval::PlusOctave);
    assert_eq!(up.pitch_class(), PitchClass::D);
    assert_eq!(up.staff_position(), StaffPosition::DPos);
    let e = parse("E").add(Interval::PlusPlusOctave);
    assert_eq!(e.pitch_class(), PitchClass::E);
    assert_eq!(e.staff_position(), StaffPosition::EPos);
}

#[test]
fn equality_goes_by_symbol() {
    // A# on the staff position of B is written as "C" (B sharp).
    let b_sharp = parse("A#").add(Interval::MajorSecond);
    assert_eq!(b_sharp.staff_position(), StaffPosition::BPos);
    assert_eq!(b_sharp.pitch_class(), PitchClass::C);
    let c = parse("C");
    assert_eq!(c.staff_position(), StaffPosition::CPos);
    assert!(b_sharp == c);
    // Enharmonic notes with different symbols are different.
    assert!(parse("C#") != parse("Db"));
    assert!(parse("C#") == Note::from_semitones(1));
}

#[test]
fn from_semitones_table() {
    let expected = ["C", "C#", "D", "D#", "E", "F", "F#", "G", "G#", "A", "A#", "B"];
    for n in 0u8..12 {
        assert_eq!(Note::from_semitones(n).to_string(), expected[n as usize]);
    }
    assert_eq!(Note::from_semitones(1).staff_position(), StaffPosition::CPos);
    assert_eq!(Note::from_semitones(10).staff_position(), StaffPosition::APos);
}

#[test]
fn from_semitones_closure() {
    for n in 0u8..=255 {
        let a = Note::from_semitones(n);
        let b = Note::from_semitones(n % 12);
        assert_eq!(a.pitch_class(), b.pitch_class());
        assert_eq!(a.staff_position(), b.staff_position());
        if n <= 243 {
            let c = Note::from_semitones(n + 12);
            assert_eq!(a.pitch_class(), c.pitch_class());
        }
    }
    assert_eq!(Note::from_semitones(255).to_string(), "D#");
    assert_eq!(Note::from_semitones(24).to_string(), "C");
}

#[test]
fn data_names() {
    assert_eq!(parse("C").data_name(), "c");
    assert_eq!(parse("Db").data_name(), "c_sharp");
    assert_eq!(parse("A#").data_name(), "a_sharp");
    assert_eq!(parse("B").data_name(), "b");
}

#[test]
fn interval_values() {
    assert_eq!(Interval::PerfectUnison.to_semitones(), 0);
    assert_eq!(Interval::PerfectUnison.to_number(), 1);
    assert_eq!(Interval::MinorThird.to_semitones(), 3);
    assert_eq!(Interval::MinorThird.to_number(), 3);
    assert_eq!(Interval::MajorThird.to_semitones(), 4);
    assert_eq!(Interval::PlusOctave.to_semitones(), 12);
    assert_eq!(Interval::PlusOctave.to_number(), 8);
    assert_eq!(Interval::PlusPlusOctave.to_semitones(), 24);
    assert_eq!(Interval::PlusPlusOctave.to_number(), 15);
    assert_eq!(Interval::MajorThirteenth.to_semitones(), 21);
    assert_eq!(Interval::MajorThirteenth.to_number(), 13);
}
