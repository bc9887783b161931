use guitar_scale::note::Note;
use guitar_scale::scale::{Scale, ScaleType, NUMBER_POSITION};
use guitar_scale::svg_draw::guitar_string_convert;
use guitar_scale::svg_draw::settings::{Instrument, Theme};
use guitar_scale::tuning::Tuning;
use guitar_scale::NUMBER_STRING;
use ukebox::PitchClass;

fn scale(tonic: &str, name: &str) -> Scale {
    Scale {
        scale_type: ScaleType::from_str(name).unwrap(),
        tuning: Tuning::from_str("E").unwrap(),
        tonic: Note::from_str(tonic).unwrap(),
    }
}

fn positions(s: &Scale, string: usize) -> Vec<usize> {
    s.get_string_combination()[string]
        .degree_single_string
        .iter()
        .map(|d| d.position)
        .collect()
}

#[test]
fn scale_names_round_trip() {
    let all = ScaleType::all();
    assert_eq!(all.len(), 36);
    for t in all {
        let name = t.get_name_short();
        assert_eq!(ScaleType::from_str(&name).unwrap(), t);
    }
    assert_eq!(ScaleType::from_str("phrygian_minor").unwrap(), ScaleType::PhrygianMinor);
    assert_eq!(ScaleType::from_str("maj_pentagonic").unwrap(), ScaleType::MajorPentagonic);
    assert_eq!(ScaleType::from_str("8_tones_spanish").unwrap(), ScaleType::_8TonesSpanish);
}

#[test]
fn unknown_scale_is_refused() {
    for s in ["", "Major", "majo", "major ", "pentagonic", "phrygian_min"] {
        let e = ScaleType::from_str(s).unwrap_err();
        assert_eq!(e.name, s);
    }
    let e = ScaleType::from_str("blues").unwrap_err();
    assert_eq!(e.message(), "Could not parse scale \"blues\"");
    assert!("kumoi".parse::<ScaleType>().is_ok());
}

#[test]
fn names() {
    assert_eq!(ScaleType::Major.get_name_short(), "major");
    assert_eq!(ScaleType::Major.get_name_long(), "Major");
    assert_eq!(ScaleType::Dorian4.get_name_long(), "Dorian #4");
    assert_eq!(ScaleType::Phrygian.get_name_long(), "Phrygian Major");
    assert_eq!(ScaleType::LydianAugumented.get_name_short(), "lydian_augmented");
    assert_eq!(ScaleType::Messiaen7.get_name_short(), "messiaen_7");
}

#[test]
fn degrees_increase_from_one() {
    for t in ScaleType::all() {
        let d = t.get_degree_from_tonic();
        assert_eq!(d[0], 1);
        for w in d.windows(2) {
            assert!(w[0] < w[1]);
        }
        assert!(*d.last().unwrap() <= 12);
    }
    assert_eq!(ScaleType::Major.get_degree_from_tonic(), vec![1, 3, 5, 6, 8, 10, 12]);
    assert_eq!(
        ScaleType::Messiaen7.get_degree_from_tonic(),
        vec![1, 2, 3, 4, 6, 7, 8, 9, 10, 12]
    );
}

#[test]
fn c_major_pitch_classes() {
    let s = scale("C", "major");
    let degrees = s.get_degree();
    let first: Vec<(u8, bool)> = degrees.iter().cloned().take(8).collect();
    assert_eq!(
        first,
        vec![
            (0, true),
            (2, false),
            (4, false),
            (5, false),
            (7, false),
            (9, false),
            (11, false),
            (12, true)
        ]
    );
    for (n, tonic) in degrees.iter() {
        assert!([0, 2, 4, 5, 7, 9, 11].contains(&(n % 12)));
        assert_eq!(*tonic, n % 12 == 0);
    }
    // Every pitch from 0 to 254 whose class is in the scale is listed.
    let expected = (0u8..255).filter(|n| [0, 2, 4, 5, 7, 9, 11].contains(&(n % 12))).count();
    assert_eq!(degrees.len(), expected);
    let names: Vec<String> = degrees.iter().take(7).map(|(n, _)| {
        guitar_scale::note::TraitNoteSemitones::from_semitones(*n)
    }).map(|n: Note| n.to_string()).collect();
    assert_eq!(names, vec!["C", "D", "E", "F", "G", "A", "B"]);
}

#[test]
fn d_minor_listing() {
    let s = scale("D", "minor");
    let degrees = s.get_degree();
    let classes: Vec<u8> = degrees.iter().take(7).map(|(n, _)| *n).collect();
    // D minor: D E F G A Bb C, that is 2 4 5 7 9 10 0.
    assert_eq!(classes, vec![0, 2, 4, 5, 7, 9, 10]);
    assert_eq!(degrees[1], (2, true));
    assert_eq!(degrees[0], (0, false));
}

#[test]
fn low_e_string_in_c_major() {
    let s = scale("C", "major");
    let strings = s.get_string_combination();
    let low = &strings[0];
    assert_eq!(low.string_number, 1);
    let pos: Vec<usize> = low.degree_single_string.iter().map(|d| d.position).collect();
    assert_eq!(pos, vec![0, 1, 3, 5, 7, 8, 10, 12, 13, 15, 17, 19]);
    let names: Vec<String> = low.degree_single_string.iter().map(|d| d.note.to_string()).collect();
    assert_eq!(
        names,
        vec!["E", "F", "G", "A", "B", "C", "D", "E", "F", "G", "A", "B"]
    );
    let tonic: Vec<usize> = low
        .degree_single_string
        .iter()
        .filter(|d| d.sw_tonic)
        .map(|d| d.position)
        .collect();
    assert_eq!(tonic, vec![8]);
}

#[test]
fn all_strings_in_c_major() {
    let s = scale("C", "major");
    let strings = s.get_string_combination();
    assert_eq!(strings.len(), NUMBER_STRING as usize);
    for (i, st) in strings.iter().enumerate() {
        assert_eq!(st.string_number, i + 1);
    }
    // A string: A(9) .. 28.
    assert_eq!(positions(&s, 1), vec![0, 2, 3, 5, 7, 8, 10, 12, 14, 15, 17, 19]);
    // D string.
    assert_eq!(positions(&s, 2), vec![0, 2, 3, 5, 7, 9, 10, 12, 14, 15, 17, 19]);
    // G string.
    assert_eq!(positions(&s, 3), vec![0, 2, 4, 5, 7, 9, 10, 12, 14, 16, 17, 19]);
    // B string.
    assert_eq!(positions(&s, 4), vec![0, 1, 3, 5, 6, 8, 10, 12, 13, 15, 17, 18]);
    // High E string: same as the low one.
    assert_eq!(positions(&s, 5), positions(&s, 0));
    let g_tonic: Vec<usize> = strings[3]
        .degree_single_string
        .iter()
        .filter(|d| d.sw_tonic)
        .map(|d| d.position)
        .collect();
    assert_eq!(g_tonic, vec![5, 17]);
}

#[test]
fn tonic_flags_match_pitch() {
    let open = [4usize, 9, 2, 7, 11, 4];
    for t in ScaleType::all() {
        for tonic in ["C", "Db", "E", "F#", "Ab", "B"] {
            let s = Scale {
                scale_type: t,
                tuning: Tuning::E,
                tonic: Note::from_str(tonic).unwrap(),
            };
            let t_index = s.tonic.pitch_class() as usize;
            for (i, st) in s.get_string_combination().iter().enumerate() {
                for d in st.degree_single_string.iter() {
                    let c = open[i] + d.position;
                    assert_eq!(d.sw_tonic, c % 12 == t_index);
                    assert_eq!(d.note.pitch_class() as usize, c % 12);
                }
            }
        }
    }
}

#[test]
fn window_and_octave_repeat() {
    for t in ScaleType::all() {
        let s = Scale {
            scale_type: t,
            tuning: Tuning::E,
            tonic: Note::from_str("G").unwrap(),
        };
        for st in s.get_string_combination().iter() {
            let pos: Vec<usize> = st.degree_single_string.iter().map(|d| d.position).collect();
            for w in pos.windows(2) {
                assert!(w[0] < w[1]);
            }
            for d in st.degree_single_string.iter() {
                assert!(d.position <= NUMBER_POSITION);
                if d.position + 12 <= NUMBER_POSITION {
                    let up = st
                        .degree_single_string
                        .iter()
                        .find(|e| e.position == d.position + 12)
                        .unwrap();
                    assert_eq!(up.note.pitch_class(), d.note.pitch_class());
                    assert_eq!(up.sw_tonic, d.sw_tonic);
                }
            }
        }
    }
}

#[test]
fn all_scale_lists() {
    let all = ScaleType::Major.get_all_scale(Tuning::E);
    assert_eq!(all.len(), 36);
    let major = &all[0];
    assert_eq!(major.short, "major");
    assert_eq!(major.long, "Major");
    assert_eq!(major.note_scale_c, vec!["C", "D", "E", "F", "G", "A", "B"]);
    assert_eq!(major.note_scale_d, vec!["D", "E", "F#", "G", "A", "B", "C#"]);
    assert_eq!(major.note_scale_f, vec!["F", "G", "A", "A#", "C", "D", "E"]);
    assert_eq!(major.note_scale_b, vec!["B", "C#", "D#", "E", "F#", "G#", "A#"]);
    let kumoi = &all[28];
    assert_eq!(kumoi.short, "kumoi");
    assert_eq!(kumoi.note_scale_a_sharp, vec!["A#", "C", "C#", "F", "G"]);
    let last = &all[35];
    assert_eq!(last.long, "Messiaen 7");
    assert_eq!(last.note_scale_c.len(), 10);
}

#[test]
fn tuning_values() {
    assert_eq!(Tuning::E.get_semitones(), 0);
    assert_eq!(Tuning::E.get_interval(), guitar_scale::interval::Interval::PerfectUnison);
    assert!(matches!(Tuning::from_str("E"), Ok(Tuning::E)));
    let e = Tuning::from_str("D").unwrap_err();
    assert_eq!(e.name, "D");
    assert_eq!(e.message(), "Could not parse tuning name \"D\"");
}

#[test]
fn theme_parse() {
    assert_eq!(Theme::from_str("L").unwrap(), Theme::Light(Instrument::Guitar));
    assert_eq!(Theme::from_str("D").unwrap(), Theme::Dark(Instrument::Guitar));
    let e = Theme::from_str("dark").unwrap_err();
    assert_eq!(e.name(), "dark");
}

#[test]
fn string_rows() {
    assert_eq!(guitar_string_convert(0), 5);
    assert_eq!(guitar_string_convert(2), 3);
    assert_eq!(guitar_string_convert(5), 0);
    assert_eq!(guitar_string_convert(6), 0);
    assert_eq!(guitar_string_convert(200), 0);
}

#[test]
fn entries_compare_by_symbol() {
    let s = scale("C", "major");
    let a = s.get_string_combination();
    let b = s.get_string_combination();
    assert!(a[0].degree_single_string == b[0].degree_single_string);
    assert!(a[0].degree_single_string[0] != a[0].degree_single_string[1]);
    // The low and high E strings hold the same entries.
    assert!(a[0].degree_single_string == a[5].degree_single_string);
}

#[test]
fn open_strings_in_standard_tuning() {
    let roots = guitar_scale::scale::open_string_roots(Tuning::E);
    let names: Vec<String> = roots.iter().map(|n| n.to_string()).collect();
    assert_eq!(names, vec!["E", "A", "D", "G", "B", "E"]);
}
