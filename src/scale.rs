use crate::interval::Interval;
use crate::note::{
    canonical_staff, canonical_text, lemma_natural_symbols, lemma_semitones_closure,
    note_of_symbol, Note, TraitNoteSemitones,
};
use crate::pitch::{
    lemma_pc_index_of, pc_index, pc_of, pitch_class_from, same_pitch_class, semitones_of,
    PITCH_CLASS_COUNT,
};
use crate::text::same_text;
use crate::tuning::Tuning;
use crate::{Degree, NUMBER_STRING};
use ukebox::{PitchClass, Semitones, StaffPosition};
use std::str::FromStr;
use vstd::prelude::*;

verus! {

/// Error for a string that names no scale.
#[derive(Debug)]
pub struct ParseScaleError {
    pub name: String,
}

impl ParseScaleError {
    /// The message that describes the error.
    pub fn message(&self) -> (r: String)
        ensures
            r@ == "Could not parse scale \""@ + self.name@ + "\""@,
    {
        let mut m = "Could not parse scale \"".to_owned();
        m.append(self.name.as_str());
        m.append("\"");
        m
    }
}

/// The type of scale.
#[derive(Debug, Clone, Copy, PartialEq, Eq, Structural)]
pub enum ScaleType {
    Major,
    Minor,
    Dorian,
    Mixolydian,
    Lydian,
    PhrygianMinor,
    Phrygian,
    Locrian,
    WholeTone,
    HalfWholeDiminished,
    WholeHalfDiminished,
    MinorBlues,
    MinorPentagonic,
    MajorPentagonic,
    HarmonicMinor,
    HarmonicMajor,
    Dorian4,
    PhrygianDominant,
    MelodicMinor,
    LydianAugumented,
    LydianDominant,
    SuperLocrian,
    _8TonesSpanish,
    Bhairav,
    HungarianMinor,
    Hirajoshi,
    InSen,
    Iwato,
    Kumoi,
    PelogSelisir,
    PelogTembung,
    Messiaen3,
    Messiaen4,
    Messiaen5,
    Messiaen6,
    Messiaen7,
}

/// Every scale type, in the order of declaration.
pub open spec fn all_scale_types() -> Seq<ScaleType> {
    seq![
        ScaleType::Major,
        ScaleType::Minor,
        ScaleType::Dorian,
        ScaleType::Mixolydian,
        ScaleType::Lydian,
        ScaleType::PhrygianMinor,
        ScaleType::Phrygian,
        ScaleType::Locrian,
        ScaleType::WholeTone,
        ScaleType::HalfWholeDiminished,
        ScaleType::WholeHalfDiminished,
        ScaleType::MinorBlues,
        ScaleType::MinorPentagonic,
        ScaleType::MajorPentagonic,
        ScaleType::HarmonicMinor,
        ScaleType::HarmonicMajor,
        ScaleType::Dorian4,
        ScaleType::PhrygianDominant,
        ScaleType::MelodicMinor,
        ScaleType::LydianAugumented,
        ScaleType::LydianDominant,
        ScaleType::SuperLocrian,
        ScaleType::_8TonesSpanish,
        ScaleType::Bhairav,
        ScaleType::HungarianMinor,
        ScaleType::Hirajoshi,
        ScaleType::InSen,
        ScaleType::Iwato,
        ScaleType::Kumoi,
        ScaleType::PelogSelisir,
        ScaleType::PelogTembung,
        ScaleType::Messiaen3,
        ScaleType::Messiaen4,
        ScaleType::Messiaen5,
        ScaleType::Messiaen6,
        ScaleType::Messiaen7,
    ]
}

/// The scale type whose short identifier is `s`.
pub open spec fn scale_type_of_name(s: Seq<char>) -> Option<ScaleType> {
    if s == "major"@ {
        Some(ScaleType::Major)
    } else if s == "minor"@ {
        Some(ScaleType::Minor)
    } else if s == "dorian"@ {
        Some(ScaleType::Dorian)
    } else if s == "mixolydian"@ {
        Some(ScaleType::Mixolydian)
    } else if s == "lydian"@ {
        Some(ScaleType::Lydian)
    } else if s == "phrygian_minor"@ {
        Some(ScaleType::PhrygianMinor)
    } else if s == "phrygian"@ {
        Some(ScaleType::Phrygian)
    } else if s == "locrian"@ {
        Some(ScaleType::Locrian)
    } else if s == "whole_tone"@ {
        Some(ScaleType::WholeTone)
    } else if s == "half_whole_diminished"@ {
        Some(ScaleType::HalfWholeDiminished)
    } else if s == "whole_half_diminished"@ {
        Some(ScaleType::WholeHalfDiminished)
    } else if s == "minor_blues"@ {
        Some(ScaleType::MinorBlues)
    } else if s == "minor_pentagonic"@ {
        Some(ScaleType::MinorPentagonic)
    } else if s == "maj_pentagonic"@ {
        Some(ScaleType::MajorPentagonic)
    } else if s == "harmonic_minor"@ {
        Some(ScaleType::HarmonicMinor)
    } else if s == "harmonic_major"@ {
        Some(ScaleType::HarmonicMajor)
    } else if s == "dorian_4"@ {
        Some(ScaleType::Dorian4)
    } else if s == "phrygian_dominant"@ {
        Some(ScaleType::PhrygianDominant)
    } else if s == "melodic_minor"@ {
        Some(ScaleType::MelodicMinor)
    } else if s == "lydian_augmented"@ {
        Some(ScaleType::LydianAugumented)
    } else if s == "lydian_dominant"@ {
        Some(ScaleType::LydianDominant)
    } else if s == "super_locrian"@ {
        Some(ScaleType::SuperLocrian)
    } else if s == "8_tones_spanish"@ {
        Some(ScaleType::_8TonesSpanish)
    } else if s == "bhairav"@ {
        Some(ScaleType::Bhairav)
    } else if s == "hungarian_minor"@ {
        Some(ScaleType::HungarianMinor)
    } else if s == "hirajoshi"@ {
        Some(ScaleType::Hirajoshi)
    } else if s == "in_sen"@ {
        Some(ScaleType::InSen)
    } else if s == "iwato"@ {
        Some(ScaleType::Iwato)
    } else if s == "kumoi"@ {
        Some(ScaleType::Kumoi)
    } else if s == "pelog_selisir"@ {
        Some(ScaleType::PelogSelisir)
    } else if s == "pelog_tembung"@ {
        Some(ScaleType::PelogTembung)
    } else if s == "messiaen_3"@ {
        Some(ScaleType::Messiaen3)
    } else if s == "messiaen_4"@ {
        Some(ScaleType::Messiaen4)
    } else if s == "messiaen_5"@ {
        Some(ScaleType::Messiaen5)
    } else if s == "messiaen_6"@ {
        Some(ScaleType::Messiaen6)
    } else if s == "messiaen_7"@ {
        Some(ScaleType::Messiaen7)
    } else {
        None
    }
}

impl ScaleType {
    /// The scale's degrees: the semitones above the tonic that it holds, plus one,
    /// so that the tonic is degree 1.
    pub open spec fn degrees(self) -> Seq<Degree> {
        match self {
            ScaleType::Major => seq![1, 3, 5, 6, 8, 10, 12],
            ScaleType::Minor => seq![1, 3, 4, 6, 8, 9, 11],
            ScaleType::Dorian => seq![1, 3, 4, 6, 8, 10, 11],
            ScaleType::Mixolydian => seq![1, 3, 5, 6, 8, 10, 11],
            ScaleType::Lydian => seq![1, 3, 5, 7, 8, 10, 12],
            ScaleType::PhrygianMinor => seq![1, 2, 3, 6, 8, 9, 11],
            ScaleType::Phrygian => seq![1, 2, 4, 6, 8, 9, 11],
            ScaleType::Locrian => seq![1, 2, 4, 6, 7, 9, 11],
            ScaleType::WholeTone => seq![1, 3, 5, 7, 9, 11],
            ScaleType::HalfWholeDiminished => seq![1, 2, 4, 5, 7, 8, 10, 11],
            ScaleType::WholeHalfDiminished => seq![1, 3, 4, 6, 7, 9, 10, 12],
            ScaleType::MinorBlues => seq![1, 4, 6, 7, 8, 11],
            ScaleType::MinorPentagonic => seq![1, 4, 6, 7, 8, 11],
            ScaleType::MajorPentagonic => seq![1, 4, 6, 8, 11],
            ScaleType::HarmonicMinor => seq![1, 3, 4, 6, 8, 9, 12],
            ScaleType::HarmonicMajor => seq![1, 3, 5, 6, 8, 9, 12],
            ScaleType::Dorian4 => seq![1, 3, 4, 7, 8, 10, 11],
            ScaleType::PhrygianDominant => seq![1, 2, 5, 6, 8, 9, 11],
            ScaleType::MelodicMinor => seq![1, 3, 4, 6, 8, 10, 12],
            ScaleType::LydianAugumented => seq![1, 3, 5, 7, 9, 10, 12],
            ScaleType::LydianDominant => seq![1, 3, 5, 7, 8, 10, 11],
            ScaleType::SuperLocrian => seq![1, 2, 4, 5, 7, 9, 11],
            ScaleType::_8TonesSpanish => seq![1, 2, 4, 5, 6, 7, 9, 11],
            ScaleType::Bhairav => seq![1, 2, 5, 6, 8, 9, 12],
            ScaleType::HungarianMinor => seq![1, 3, 4, 7, 8, 9, 12],
            ScaleType::Hirajoshi => seq![1, 3, 4, 8, 9, 12],
            ScaleType::InSen => seq![1, 2, 6, 8, 11],
            ScaleType::Iwato => seq![1, 2, 6, 7, 11],
            ScaleType::Kumoi => seq![1, 3, 4, 8, 10],
            ScaleType::PelogSelisir => seq![1, 2, 4, 8, 9],
            ScaleType::PelogTembung => seq![1, 2, 6, 8, 9],
            ScaleType::Messiaen3 => seq![1, 3, 4, 5, 7, 8, 9, 11, 12],
            ScaleType::Messiaen4 => seq![1, 2, 3, 6, 7, 8, 9, 12],
            ScaleType::Messiaen5 => seq![1, 2, 6, 7, 8, 12],
            ScaleType::Messiaen6 => seq![1, 3, 5, 6, 7, 9, 11, 12],
            ScaleType::Messiaen7 => seq![1, 2, 3, 4, 6, 7, 8, 9, 10, 12],
        }
    }

    /// The short identifier, used in file names.
    pub open spec fn short_name(self) -> Seq<char> {
        match self {
            ScaleType::Major => "major"@,
            ScaleType::Minor => "minor"@,
            ScaleType::Dorian => "dorian"@,
            ScaleType::Mixolydian => "mixolydian"@,
            ScaleType::Lydian => "lydian"@,
            ScaleType::PhrygianMinor => "phrygian_minor"@,
            ScaleType::Phrygian => "phrygian"@,
            ScaleType::Locrian => "locrian"@,
            ScaleType::WholeTone => "whole_tone"@,
            ScaleType::HalfWholeDiminished => "half_whole_diminished"@,
            ScaleType::WholeHalfDiminished => "whole_half_diminished"@,
            ScaleType::MinorBlues => "minor_blues"@,
            ScaleType::MinorPentagonic => "minor_pentagonic"@,
            ScaleType::MajorPentagonic => "maj_pentagonic"@,
            ScaleType::HarmonicMinor => "harmonic_minor"@,
            ScaleType::HarmonicMajor => "harmonic_major"@,
            ScaleType::Dorian4 => "dorian_4"@,
            ScaleType::PhrygianDominant => "phrygian_dominant"@,
            ScaleType::MelodicMinor => "melodic_minor"@,
            ScaleType::LydianAugumented => "lydian_augmented"@,
            ScaleType::LydianDominant => "lydian_dominant"@,
            ScaleType::SuperLocrian => "super_locrian"@,
            ScaleType::_8TonesSpanish => "8_tones_spanish"@,
            ScaleType::Bhairav => "bhairav"@,
            ScaleType::HungarianMinor => "hungarian_minor"@,
            ScaleType::Hirajoshi => "hirajoshi"@,
            ScaleType::InSen => "in_sen"@,
            ScaleType::Iwato => "iwato"@,
            ScaleType::Kumoi => "kumoi"@,
            ScaleType::PelogSelisir => "pelog_selisir"@,
            ScaleType::PelogTembung => "pelog_tembung"@,
            ScaleType::Messiaen3 => "messiaen_3"@,
            ScaleType::Messiaen4 => "messiaen_4"@,
            ScaleType::Messiaen5 => "messiaen_5"@,
            ScaleType::Messiaen6 => "messiaen_6"@,
            ScaleType::Messiaen7 => "messiaen_7"@,
        }
    }

    /// The name to show.
    pub open spec fn long_name(self) -> Seq<char> {
        match self {
            ScaleType::Major => "Major"@,
            ScaleType::Minor => "Minor"@,
            ScaleType::Dorian => "Dorian"@,
            ScaleType::Mixolydian => "Mixolydian"@,
            ScaleType::Lydian => "Lydian"@,
            ScaleType::PhrygianMinor => "Phrygian Minor"@,
            ScaleType::Phrygian => "Phrygian Major"@,
            ScaleType::Locrian => "Locrian"@,
            ScaleType::WholeTone => "Whole Tone"@,
            ScaleType::HalfWholeDiminished => "Half-whole Diminished"@,
            ScaleType::WholeHalfDiminished => "Whole-half Diminished"@,
            ScaleType::MinorBlues => "Minor Blues"@,
            ScaleType::MinorPentagonic => "Minor Pentagonic"@,
            ScaleType::MajorPentagonic => "Major Pentagonic"@,
            ScaleType::HarmonicMinor => "Harmonic Minor"@,
            ScaleType::HarmonicMajor => "Harmonic Major"@,
            ScaleType::Dorian4 => "Dorian #4"@,
            ScaleType::PhrygianDominant => "Phrygian Dominant"@,
            ScaleType::MelodicMinor => "Melodic Minor"@,
            ScaleType::LydianAugumented => "Lydian Augumented"@,
            ScaleType::LydianDominant => "Lydian Dominant"@,
            ScaleType::SuperLocrian => "Super Locrian"@,
            ScaleType::_8TonesSpanish => "8-Tones Spanish"@,
            ScaleType::Bhairav => "Bhairav"@,
            ScaleType::HungarianMinor => "Hungarian Minor"@,
            ScaleType::Hirajoshi => "Hirajoshi"@,
            ScaleType::InSen => "In-Sen"@,
            ScaleType::Iwato => "Iwato"@,
            ScaleType::Kumoi => "Kumoi"@,
            ScaleType::PelogSelisir => "Pelog Selisir"@,
            ScaleType::PelogTembung => "Pelog Tembung"@,
            ScaleType::Messiaen3 => "Messiaen 3"@,
            ScaleType::Messiaen4 => "Messiaen 4"@,
            ScaleType::Messiaen5 => "Messiaen 5"@,
            ScaleType::Messiaen6 => "Messiaen 6"@,
            ScaleType::Messiaen7 => "Messiaen 7"@,
        }
    }

    /// Degrees from the tonic, 1 to 12.
    pub fn get_degree_from_tonic(self) -> (r: Vec<Degree>)
        ensures
            r@ == self.degrees(),
    {
        match self {
            ScaleType::Major => vec![1, 3, 5, 6, 8, 10, 12],
            ScaleType::Minor => vec![1, 3, 4, 6, 8, 9, 11],
            ScaleType::Dorian => vec![1, 3, 4, 6, 8, 10, 11],
            ScaleType::Mixolydian => vec![1, 3, 5, 6, 8, 10, 11],
            ScaleType::Lydian => vec![1, 3, 5, 7, 8, 10, 12],
            ScaleType::PhrygianMinor => vec![1, 2, 3, 6, 8, 9, 11],
            ScaleType::Phrygian => vec![1, 2, 4, 6, 8, 9, 11],
            ScaleType::Locrian => vec![1, 2, 4, 6, 7, 9, 11],
            ScaleType::WholeTone => vec![1, 3, 5, 7, 9, 11],
            ScaleType::HalfWholeDiminished => vec![1, 2, 4, 5, 7, 8, 10, 11],
            ScaleType::WholeHalfDiminished => vec![1, 3, 4, 6, 7, 9, 10, 12],
            ScaleType::MinorBlues => vec![1, 4, 6, 7, 8, 11],
            ScaleType::MinorPentagonic => vec![1, 4, 6, 7, 8, 11],
            ScaleType::MajorPentagonic => vec![1, 4, 6, 8, 11],
            ScaleType::HarmonicMinor => vec![1, 3, 4, 6, 8, 9, 12],
            ScaleType::HarmonicMajor => vec![1, 3, 5, 6, 8, 9, 12],
            ScaleType::Dorian4 => vec![1, 3, 4, 7, 8, 10, 11],
            ScaleType::PhrygianDominant => vec![1, 2, 5, 6, 8, 9, 11],
            ScaleType::MelodicMinor => vec![1, 3, 4, 6, 8, 10, 12],
            ScaleType::LydianAugumented => vec![1, 3, 5, 7, 9, 10, 12],
            ScaleType::LydianDominant => vec![1, 3, 5, 7, 8, 10, 11],
            ScaleType::SuperLocrian => vec![1, 2, 4, 5, 7, 9, 11],
            ScaleType::_8TonesSpanish => vec![1, 2, 4, 5, 6, 7, 9, 11],
            ScaleType::Bhairav => vec![1, 2, 5, 6, 8, 9, 12],
            ScaleType::HungarianMinor => vec![1, 3, 4, 7, 8, 9, 12],
            ScaleType::Hirajoshi => vec![1, 3, 4, 8, 9, 12],
            ScaleType::InSen => vec![1, 2, 6, 8, 11],
            ScaleType::Iwato => vec![1, 2, 6, 7, 11],
            ScaleType::Kumoi => vec![1, 3, 4, 8, 10],
            ScaleType::PelogSelisir => vec![1, 2, 4, 8, 9],
            ScaleType::PelogTembung => vec![1, 2, 6, 8, 9],
            ScaleType::Messiaen3 => vec![1, 3, 4, 5, 7, 8, 9, 11, 12],
            ScaleType::Messiaen4 => vec![1, 2, 3, 6, 7, 8, 9, 12],
            ScaleType::Messiaen5 => vec![1, 2, 6, 7, 8, 12],
            ScaleType::Messiaen6 => vec![1, 3, 5, 6, 7, 9, 11, 12],
            ScaleType::Messiaen7 => vec![1, 2, 3, 4, 6, 7, 8, 9, 10, 12],
        }
    }

    /// The short identifier, used in file names.
    pub fn get_name_short(self) -> (r: String)
        ensures
            r@ == self.short_name(),
    {
        let s = match self {
            ScaleType::Major => "major",
            ScaleType::Minor => "minor",
            ScaleType::Dorian => "dorian",
            ScaleType::Mixolydian => "mixolydian",
            ScaleType::Lydian => "lydian",
            ScaleType::PhrygianMinor => "phrygian_minor",
            ScaleType::Phrygian => "phrygian",
            ScaleType::Locrian => "locrian",
            ScaleType::WholeTone => "whole_tone",
            ScaleType::HalfWholeDiminished => "half_whole_diminished",
            ScaleType::WholeHalfDiminished => "whole_half_diminished",
            ScaleType::MinorBlues => "minor_blues",
            ScaleType::MinorPentagonic => "minor_pentagonic",
            ScaleType::MajorPentagonic => "maj_pentagonic",
            ScaleType::HarmonicMinor => "harmonic_minor",
            ScaleType::HarmonicMajor => "harmonic_major",
            ScaleType::Dorian4 => "dorian_4",
            ScaleType::PhrygianDominant => "phrygian_dominant",
            ScaleType::MelodicMinor => "melodic_minor",
            ScaleType::LydianAugumented => "lydian_augmented",
            ScaleType::LydianDominant => "lydian_dominant",
            ScaleType::SuperLocrian => "super_locrian",
            ScaleType::_8TonesSpanish => "8_tones_spanish",
            ScaleType::Bhairav => "bhairav",
            ScaleType::HungarianMinor => "hungarian_minor",
            ScaleType::Hirajoshi => "hirajoshi",
            ScaleType::InSen => "in_sen",
            ScaleType::Iwato => "iwato",
            ScaleType::Kumoi => "kumoi",
            ScaleType::PelogSelisir => "pelog_selisir",
            ScaleType::PelogTembung => "pelog_tembung",
            ScaleType::Messiaen3 => "messiaen_3",
            ScaleType::Messiaen4 => "messiaen_4",
            ScaleType::Messiaen5 => "messiaen_5",
            ScaleType::Messiaen6 => "messiaen_6",
            ScaleType::Messiaen7 => "messiaen_7",
        };
        s.to_owned()
    }

    /// The name to show.
    pub fn get_name_long(self) -> (r: String)
        ensures
            r@ == self.long_name(),
    {
        let s = match self {
            ScaleType::Major => "Major",
            ScaleType::Minor => "Minor",
            ScaleType::Dorian => "Dorian",
            ScaleType::Mixolydian => "Mixolydian",
            ScaleType::Lydian => "Lydian",
            ScaleType::PhrygianMinor => "Phrygian Minor",
            ScaleType::Phrygian => "Phrygian Major",
            ScaleType::Locrian => "Locrian",
            ScaleType::WholeTone => "Whole Tone",
            ScaleType::HalfWholeDiminished => "Half-whole Diminished",
            ScaleType::WholeHalfDiminished => "Whole-half Diminished",
            ScaleType::MinorBlues => "Minor Blues",
            ScaleType::MinorPentagonic => "Minor Pentagonic",
            ScaleType::MajorPentagonic => "Major Pentagonic",
            ScaleType::HarmonicMinor => "Harmonic Minor",
            ScaleType::HarmonicMajor => "Harmonic Major",
            ScaleType::Dorian4 => "Dorian #4",
            ScaleType::PhrygianDominant => "Phrygian Dominant",
            ScaleType::MelodicMinor => "Melodic Minor",
            ScaleType::LydianAugumented => "Lydian Augumented",
            ScaleType::LydianDominant => "Lydian Dominant",
            ScaleType::SuperLocrian => "Super Locrian",
            ScaleType::_8TonesSpanish => "8-Tones Spanish",
            ScaleType::Bhairav => "Bhairav",
            ScaleType::HungarianMinor => "Hungarian Minor",
            ScaleType::Hirajoshi => "Hirajoshi",
            ScaleType::InSen => "In-Sen",
            ScaleType::Iwato => "Iwato",
            ScaleType::Kumoi => "Kumoi",
            ScaleType::PelogSelisir => "Pelog Selisir",
            ScaleType::PelogTembung => "Pelog Tembung",
            ScaleType::Messiaen3 => "Messiaen 3",
            ScaleType::Messiaen4 => "Messiaen 4",
            ScaleType::Messiaen5 => "Messiaen 5",
            ScaleType::Messiaen6 => "Messiaen 6",
            ScaleType::Messiaen7 => "Messiaen 7",
        };
        s.to_owned()
    }

    /// Every scale type, in the order of declaration.
    pub fn all() -> (r: Vec<ScaleType>)
        ensures
            r@ == all_scale_types(),
    {
        let r = vec![
            ScaleType::Major,
            ScaleType::Minor,
            ScaleType::Dorian,
            ScaleType::Mixolydian,
            ScaleType::Lydian,
            ScaleType::PhrygianMinor,
            ScaleType::Phrygian,
            ScaleType::Locrian,
            ScaleType::WholeTone,
            ScaleType::HalfWholeDiminished,
            ScaleType::WholeHalfDiminished,
            ScaleType::MinorBlues,
            ScaleType::MinorPentagonic,
            ScaleType::MajorPentagonic,
            ScaleType::HarmonicMinor,
            ScaleType::HarmonicMajor,
            ScaleType::Dorian4,
            ScaleType::PhrygianDominant,
            ScaleType::MelodicMinor,
            ScaleType::LydianAugumented,
            ScaleType::LydianDominant,
            ScaleType::SuperLocrian,
            ScaleType::_8TonesSpanish,
            ScaleType::Bhairav,
            ScaleType::HungarianMinor,
            ScaleType::Hirajoshi,
            ScaleType::InSen,
            ScaleType::Iwato,
            ScaleType::Kumoi,
            ScaleType::PelogSelisir,
            ScaleType::PelogTembung,
            ScaleType::Messiaen3,
            ScaleType::Messiaen4,
            ScaleType::Messiaen5,
            ScaleType::Messiaen6,
            ScaleType::Messiaen7,
        ];
        assert(r@ =~= all_scale_types());
        r
    }

    /// Read a scale type from its short identifier.
    pub fn from_str(s: &str) -> (r: Result<ScaleType, ParseScaleError>)
        ensures
            scale_type_of_name(s@) is Some <==> r is Ok,
            r matches Ok(t) ==> scale_type_of_name(s@) == Some(t),
            r matches Err(e) ==> e.name@ == s@,
    {
        if same_text(s, "major") {
            Ok(ScaleType::Major)
        } else if same_text(s, "minor") {
            Ok(ScaleType::Minor)
        } else if same_text(s, "dorian") {
            Ok(ScaleType::Dorian)
        } else if same_text(s, "mixolydian") {
            Ok(ScaleType::Mixolydian)
        } else if same_text(s, "lydian") {
            Ok(ScaleType::Lydian)
        } else if same_text(s, "phrygian_minor") {
            Ok(ScaleType::PhrygianMinor)
        } else if same_text(s, "phrygian") {
            Ok(ScaleType::Phrygian)
        } else if same_text(s, "locrian") {
            Ok(ScaleType::Locrian)
        } else if same_text(s, "whole_tone") {
            Ok(ScaleType::WholeTone)
        } else if same_text(s, "half_whole_diminished") {
            Ok(ScaleType::HalfWholeDiminished)
        } else if same_text(s, "whole_half_diminished") {
            Ok(ScaleType::WholeHalfDiminished)
        } else if same_text(s, "minor_blues") {
            Ok(ScaleType::MinorBlues)
        } else if same_text(s, "minor_pentagonic") {
            Ok(ScaleType::MinorPentagonic)
        } else if same_text(s, "maj_pentagonic") {
            Ok(ScaleType::MajorPentagonic)
        } else if same_text(s, "harmonic_minor") {
            Ok(ScaleType::HarmonicMinor)
        } else if same_text(s, "harmonic_major") {
            Ok(ScaleType::HarmonicMajor)
        } else if same_text(s, "dorian_4") {
            Ok(ScaleType::Dorian4)
        } else if same_text(s, "phrygian_dominant") {
            Ok(ScaleType::PhrygianDominant)
        } else if same_text(s, "melodic_minor") {
            Ok(ScaleType::MelodicMinor)
        } else if same_text(s, "lydian_augmented") {
            Ok(ScaleType::LydianAugumented)
        } else if same_text(s, "lydian_dominant") {
            Ok(ScaleType::LydianDominant)
        } else if same_text(s, "super_locrian") {
            Ok(ScaleType::SuperLocrian)
        } else if same_text(s, "8_tones_spanish") {
            Ok(ScaleType::_8TonesSpanish)
        } else if same_text(s, "bhairav") {
            Ok(ScaleType::Bhairav)
        } else if same_text(s, "hungarian_minor") {
            Ok(ScaleType::HungarianMinor)
        } else if same_text(s, "hirajoshi") {
            Ok(ScaleType::Hirajoshi)
        } else if same_text(s, "in_sen") {
            Ok(ScaleType::InSen)
        } else if same_text(s, "iwato") {
            Ok(ScaleType::Iwato)
        } else if same_text(s, "kumoi") {
            Ok(ScaleType::Kumoi)
        } else if same_text(s, "pelog_selisir") {
            Ok(ScaleType::PelogSelisir)
        } else if same_text(s, "pelog_tembung") {
            Ok(ScaleType::PelogTembung)
        } else if same_text(s, "messiaen_3") {
            Ok(ScaleType::Messiaen3)
        } else if same_text(s, "messiaen_4") {
            Ok(ScaleType::Messiaen4)
        } else if same_text(s, "messiaen_5") {
            Ok(ScaleType::Messiaen5)
        } else if same_text(s, "messiaen_6") {
            Ok(ScaleType::Messiaen6)
        } else if same_text(s, "messiaen_7") {
            Ok(ScaleType::Messiaen7)
        } else {
            Err(ParseScaleError { name: s.to_owned() })
        }
    }
}

impl FromStr for ScaleType {
    type Err = ParseScaleError;

    fn from_str(s: &str) -> Result<ScaleType, ParseScaleError> {
        ScaleType::from_str(s)
    }
}

/// The short identifiers of all scale types are told apart by `from_str`:
/// reading the short identifier of a scale type gives that scale type back.
pub proof fn lemma_name_round_trip(t: ScaleType)
    ensures
        scale_type_of_name(t.short_name()) == Some(t),
{
    // Revealing the identifiers, and naming their lengths and the characters at
    // a few places, lets the solver tell any two of them apart.
    reveal_strlit("major");
    reveal_strlit("minor");
    reveal_strlit("dorian");
    reveal_strlit("mixolydian");
    reveal_strlit("lydian");
    reveal_strlit("phrygian_minor");
    reveal_strlit("phrygian");
    reveal_strlit("locrian");
    reveal_strlit("whole_tone");
    reveal_strlit("half_whole_diminished");
    reveal_strlit("whole_half_diminished");
    reveal_strlit("minor_blues");
    reveal_strlit("minor_pentagonic");
    reveal_strlit("maj_pentagonic");
    reveal_strlit("harmonic_minor");
    reveal_strlit("harmonic_major");
    reveal_strlit("dorian_4");
    reveal_strlit("phrygian_dominant");
    reveal_strlit("melodic_minor");
    reveal_strlit("lydian_augmented");
    reveal_strlit("lydian_dominant");
    reveal_strlit("super_locrian");
    reveal_strlit("8_tones_spanish");
    reveal_strlit("bhairav");
    reveal_strlit("hungarian_minor");
    reveal_strlit("hirajoshi");
    reveal_strlit("in_sen");
    reveal_strlit("iwato");
    reveal_strlit("kumoi");
    reveal_strlit("pelog_selisir");
    reveal_strlit("pelog_tembung");
    reveal_strlit("messiaen_3");
    reveal_strlit("messiaen_4");
    reveal_strlit("messiaen_5");
    reveal_strlit("messiaen_6");
    reveal_strlit("messiaen_7");
    assert("major"@.len() == 5 && "major"@[1] == 'a' && "major"@[4] == 'r');
    assert("minor"@.len() == 5 && "minor"@[1] == 'i' && "minor"@[4] == 'r');
    assert("dorian"@.len() == 6 && "dorian"@[1] == 'o' && "dorian"@[4] == 'a');
    assert("mixolydian"@.len() == 10
        && "mixolydian"@[1] == 'i'
        && "mixolydian"@[4] == 'l'
        && "mixolydian"@[9] == 'n');
    assert("lydian"@.len() == 6 && "lydian"@[1] == 'y' && "lydian"@[4] == 'a');
    assert("phrygian_minor"@.len() == 14
        && "phrygian_minor"@[1] == 'h'
        && "phrygian_minor"@[4] == 'g'
        && "phrygian_minor"@[9] == 'm'
        && "phrygian_minor"@[10] == 'i');
    assert("phrygian"@.len() == 8 && "phrygian"@[1] == 'h' && "phrygian"@[4] == 'g');
    assert("locrian"@.len() == 7 && "locrian"@[1] == 'o' && "locrian"@[4] == 'i');
    assert("whole_tone"@.len() == 10
        && "whole_tone"@[1] == 'h'
        && "whole_tone"@[4] == 'e'
        && "whole_tone"@[9] == 'e');
    assert("half_whole_diminished"@.len() == 21
        && "half_whole_diminished"@[1] == 'a'
        && "half_whole_diminished"@[4] == '_'
        && "half_whole_diminished"@[9] == 'e'
        && "half_whole_diminished"@[10] == '_');
    assert("whole_half_diminished"@.len() == 21
        && "whole_half_diminished"@[1] == 'h'
        && "whole_half_diminished"@[4] == 'e'
        && "whole_half_diminished"@[9] == 'f'
        && "whole_half_diminished"@[10] == '_');
    assert("minor_blues"@.len() == 11
        && "minor_blues"@[1] == 'i'
        && "minor_blues"@[4] == 'r'
        && "minor_blues"@[9] == 'e'
        && "minor_blues"@[10] == 's');
    assert("minor_pentagonic"@.len() == 16
        && "minor_pentagonic"@[1] == 'i'
        && "minor_pentagonic"@[4] == 'r'
        && "minor_pentagonic"@[9] == 't'
        && "minor_pentagonic"@[10] == 'a');
    assert("maj_pentagonic"@.len() == 14
        && "maj_pentagonic"@[1] == 'a'
        && "maj_pentagonic"@[4] == 'p'
        && "maj_pentagonic"@[9] == 'g'
        && "maj_pentagonic"@[10] == 'o');
    assert("harmonic_minor"@.len() == 14
        && "harmonic_minor"@[1] == 'a'
        && "harmonic_minor"@[4] == 'o'
        && "harmonic_minor"@[9] == 'm'
        && "harmonic_minor"@[10] == 'i');
    assert("harmonic_major"@.len() == 14
        && "harmonic_major"@[1] == 'a'
        && "harmonic_major"@[4] == 'o'
        && "harmonic_major"@[9] == 'm'
        && "harmonic_major"@[10] == 'a');
    assert("dorian_4"@.len() == 8 && "dorian_4"@[1] == 'o' && "dorian_4"@[4] == 'a');
    assert("phrygian_dominant"@.len() == 17
        && "phrygian_dominant"@[1] == 'h'
        && "phrygian_dominant"@[4] == 'g'
        && "phrygian_dominant"@[9] == 'd'
        && "phrygian_dominant"@[10] == 'o');
    assert("melodic_minor"@.len() == 13
        && "melodic_minor"@[1] == 'e'
        && "melodic_minor"@[4] == 'd'
        && "melodic_minor"@[9] == 'i'
        && "melodic_minor"@[10] == 'n');
    assert("lydian_augmented"@.len() == 16
        && "lydian_augmented"@[1] == 'y'
        && "lydian_augmented"@[4] == 'a'
        && "lydian_augmented"@[9] == 'g'
        && "lydian_augmented"@[10] == 'm');
    assert("lydian_dominant"@.len() == 15
        && "lydian_dominant"@[1] == 'y'
        && "lydian_dominant"@[4] == 'a'
        && "lydian_dominant"@[9] == 'm'
        && "lydian_dominant"@[10] == 'i');
    assert("super_locrian"@.len() == 13
        && "super_locrian"@[1] == 'u'
        && "super_locrian"@[4] == 'r'
        && "super_locrian"@[9] == 'r'
        && "super_locrian"@[10] == 'i');
    assert("8_tones_spanish"@.len() == 15
        && "8_tones_spanish"@[1] == '_'
        && "8_tones_spanish"@[4] == 'n'
        && "8_tones_spanish"@[9] == 'p'
        && "8_tones_spanish"@[10] == 'a');
    assert("bhairav"@.len() == 7 && "bhairav"@[1] == 'h' && "bhairav"@[4] == 'r');
    assert("hungarian_minor"@.len() == 15
        && "hungarian_minor"@[1] == 'u'
        && "hungarian_minor"@[4] == 'a'
        && "hungarian_minor"@[9] == '_'
        && "hungarian_minor"@[10] == 'm');
    assert("hirajoshi"@.len() == 9 && "hirajoshi"@[1] == 'i' && "hirajoshi"@[4] == 'j');
    assert("in_sen"@.len() == 6 && "in_sen"@[1] == 'n' && "in_sen"@[4] == 'e');
    assert("iwato"@.len() == 5 && "iwato"@[1] == 'w' && "iwato"@[4] == 'o');
    assert("kumoi"@.len() == 5 && "kumoi"@[1] == 'u' && "kumoi"@[4] == 'i');
    assert("pelog_selisir"@.len() == 13
        && "pelog_selisir"@[1] == 'e'
        && "pelog_selisir"@[4] == 'g'
        && "pelog_selisir"@[9] == 'i'
        && "pelog_selisir"@[10] == 's');
    assert("pelog_tembung"@.len() == 13
        && "pelog_tembung"@[1] == 'e'
        && "pelog_tembung"@[4] == 'g'
        && "pelog_tembung"@[9] == 'b'
        && "pelog_tembung"@[10] == 'u');
    assert("messiaen_3"@.len() == 10
        && "messiaen_3"@[1] == 'e'
        && "messiaen_3"@[4] == 'i'
        && "messiaen_3"@[9] == '3');
    assert("messiaen_4"@.len() == 10
        && "messiaen_4"@[1] == 'e'
        && "messiaen_4"@[4] == 'i'
        && "messiaen_4"@[9] == '4');
    assert("messiaen_5"@.len() == 10
        && "messiaen_5"@[1] == 'e'
        && "messiaen_5"@[4] == 'i'
        && "messiaen_5"@[9] == '5');
    assert("messiaen_6"@.len() == 10
        && "messiaen_6"@[1] == 'e'
        && "messiaen_6"@[4] == 'i'
        && "messiaen_6"@[9] == '6');
    assert("messiaen_7"@.len() == 10
        && "messiaen_7"@[1] == 'e'
        && "messiaen_7"@[4] == 'i'
        && "messiaen_7"@[9] == '7');
}

/// Each scale type's degrees start at 1, strictly increase, and stay within 1..=12.
pub proof fn lemma_degrees_increasing(t: ScaleType)
    ensures
        t.degrees().len() > 0,
        t.degrees()[0] == 1,
        forall|i: int, j: int| 0 <= i < j < t.degrees().len() ==> t.degrees()[i] < t.degrees()[j],
        forall|i: int| 0 <= i < t.degrees().len() ==> 1 <= #[trigger] t.degrees()[i] <= 12,
{
}

/// The scales of a scale type on each of the twelve tonics, as note symbols.
pub struct ScaleTypeSelect {
    pub short: String,
    pub long: String,
    pub note_scale_c: Vec<String>,
    pub note_scale_c_sharp: Vec<String>,
    pub note_scale_d: Vec<String>,
    pub note_scale_d_sharp: Vec<String>,
    pub note_scale_e: Vec<String>,
    pub note_scale_f: Vec<String>,
    pub note_scale_f_sharp: Vec<String>,
    pub note_scale_g: Vec<String>,
    pub note_scale_g_sharp: Vec<String>,
    pub note_scale_a: Vec<String>,
    pub note_scale_a_sharp: Vec<String>,
    pub note_scale_b: Vec<String>,
}

/// The characters of each string.
pub open spec fn texts(v: Seq<String>) -> Seq<Seq<char>> {
    v.map_values(|s: String| s@)
}

/// The symbols of the notes with the given degrees above the pitch `root` semitones above C.
pub open spec fn note_names(degrees: Seq<Degree>, root: int) -> Seq<Seq<char>> {
    degrees.map_values(|d: Degree| canonical_text(root + d - 1))
}

impl ScaleTypeSelect {
    /// This holds the names of the scale type `t` and its notes on each tonic,
    /// the pitches being raised by `semitones`.
    pub open spec fn describes(self, t: ScaleType, semitones: int) -> bool {
        &&& self.short@ == t.short_name()
        &&& self.long@ == t.long_name()
        &&& texts(self.note_scale_c@) == note_names(t.degrees(), semitones + 0)
        &&& texts(self.note_scale_c_sharp@) == note_names(t.degrees(), semitones + 1)
        &&& texts(self.note_scale_d@) == note_names(t.degrees(), semitones + 2)
        &&& texts(self.note_scale_d_sharp@) == note_names(t.degrees(), semitones + 3)
        &&& texts(self.note_scale_e@) == note_names(t.degrees(), semitones + 4)
        &&& texts(self.note_scale_f@) == note_names(t.degrees(), semitones + 5)
        &&& texts(self.note_scale_f_sharp@) == note_names(t.degrees(), semitones + 6)
        &&& texts(self.note_scale_g@) == note_names(t.degrees(), semitones + 7)
        &&& texts(self.note_scale_g_sharp@) == note_names(t.degrees(), semitones + 8)
        &&& texts(self.note_scale_a@) == note_names(t.degrees(), semitones + 9)
        &&& texts(self.note_scale_a_sharp@) == note_names(t.degrees(), semitones + 10)
        &&& texts(self.note_scale_b@) == note_names(t.degrees(), semitones + 11)
    }
}

/// The symbols of the notes with the given degrees above the pitch `root` semitones above C.
fn names_from_root(degree: &Vec<Degree>, root: Semitones) -> (r: Vec<String>)
    requires
        root <= 22,
        forall|j: int| 0 <= j < degree.len() ==> 1 <= #[trigger] degree@[j] <= 12,
    ensures
        texts(r@) == note_names(degree@, root as int),
{
    let mut r: Vec<String> = Vec::new();
    let mut j: usize = 0;
    while j < degree.len()
        invariant
            root <= 22,
            forall|j: int| 0 <= j < degree.len() ==> 1 <= #[trigger] degree@[j] <= 12,
            j <= degree.len(),
            texts(r@) == note_names(degree@.take(j as int), root as int),
        decreases degree.len() - j,
    {
        let name = Note::from_semitones(root + (degree[j] - 1)).to_string();
        let ghost prev = r@;
        r.push(name);
        assert(degree@.take(j + 1) =~= degree@.take(j as int).push(degree@[j as int]));
        assert(texts(r@) =~= texts(prev).push(name@));
        assert(note_names(degree@.take(j + 1), root as int) =~= note_names(
            degree@.take(j as int),
            root as int,
        ).push(canonical_text(root + degree@[j as int] - 1)));
        j = j + 1;
    }
    assert(degree@.take(degree.len() as int) =~= degree@);
    r
}

impl ScaleType {
    /// Every scale type known to the library, with its names and its notes on
    /// each of the twelve tonics in the given tuning.
    pub fn get_all_scale(self, tuning: Tuning) -> (r: Vec<ScaleTypeSelect>)
        ensures
            r.len() == all_scale_types().len(),
            forall|i: int|
                0 <= i < r.len() ==> (#[trigger] r[i]).describes(
                    all_scale_types()[i],
                    tuning.semitones() as int,
                ),
    {
        let all = ScaleType::all();
        let mut vec_scale: Vec<ScaleTypeSelect> = Vec::new();
        let mut i: usize = 0;
        while i < all.len()
            invariant
                all@ == all_scale_types(),
                i <= all.len(),
                vec_scale.len() == i,
                forall|k: int|
                    0 <= k < i ==> (#[trigger] vec_scale[k]).describes(
                        all_scale_types()[k],
                        tuning.semitones() as int,
                    ),
            decreases all.len() - i,
        {
            let c = all[i];
            let short = c.get_name_short();
            let long = c.get_name_long();
            let degree: Vec<Degree> = c.get_degree_from_tonic();
            let semitones = tuning.get_semitones();
            proof {
                lemma_degrees_increasing(c);
            }
            let scale_type_select = ScaleTypeSelect {
                short,
                long,
                note_scale_c: names_from_root(&degree, semitones + 0),
                note_scale_c_sharp: names_from_root(&degree, semitones + 1),
                note_scale_d: names_from_root(&degree, semitones + 2),
                note_scale_d_sharp: names_from_root(&degree, semitones + 3),
                note_scale_e: names_from_root(&degree, semitones + 4),
                note_scale_f: names_from_root(&degree, semitones + 5),
                note_scale_f_sharp: names_from_root(&degree, semitones + 6),
                note_scale_g: names_from_root(&degree, semitones + 7),
                note_scale_g_sharp: names_from_root(&degree, semitones + 8),
                note_scale_a: names_from_root(&degree, semitones + 9),
                note_scale_a_sharp: names_from_root(&degree, semitones + 10),
                note_scale_b: names_from_root(&degree, semitones + 11),
            };
            vec_scale.push(scale_type_select);
            i = i + 1;
        }
        vec_scale
    }
}

/// A scale: a scale type on a tonic, for an instrument in a tuning.
#[derive(Debug, Clone, Copy)]
pub struct Scale {
    pub scale_type: ScaleType,
    pub tuning: Tuning,
    pub tonic: Note,
}

impl Scale {
    /// The scale's pitch classes, one for each degree, in the order of the degrees.
    pub open spec fn pitch_classes(self) -> Seq<PitchClass> {
        self.scale_type.degrees().map_values(
            |d: Degree| pc_of(d - 1 + pc_index(self.tonic.pitch())),
        )
    }

    /// Whether the pitch `n` semitones above C belongs to the scale, in any octave.
    pub open spec fn holds(self, n: int) -> bool {
        self.pitch_classes().contains(pc_of(n))
    }

    /// Whether the pitch `n` semitones above C is the tonic, in any octave.
    pub open spec fn is_tonic(self, n: int) -> bool {
        pc_of(n) == self.tonic.pitch()
    }

    /// The pitches below `k` semitones above C that belong to the scale, in
    /// ascending order, each with whether it is the tonic.
    pub open spec fn degree_listing(self, k: nat) -> Seq<(Semitones, bool)>
        decreases k,
    {
        if k == 0 {
            seq![]
        } else {
            let n = k - 1;
            let prev = self.degree_listing(n as nat);
            if self.holds(n) {
                prev.push((n as Semitones, self.is_tonic(n)))
            } else {
                prev
            }
        }
    }

    /// The pitches from `0` to `254` semitones above C that belong to the
    /// scale, in ascending order, each with whether it is the tonic.
    pub fn get_degree(self) -> (r: Vec<(Semitones, bool)>)
        ensures
            r@ == self.degree_listing(255),
    {
        let degree: Vec<Degree> = self.scale_type.get_degree_from_tonic();
        let tonic_class = self.tonic.pitch_class();
        let pc_semitones: Semitones = semitones_of(tonic_class);
        proof {
            lemma_degrees_increasing(self.scale_type);
        }
        let mut vec_pitch_class: Vec<PitchClass> = Vec::new();
        let mut i: usize = 0;
        while i < degree.len()
            invariant
                degree@ == self.scale_type.degrees(),
                pc_semitones == pc_index(self.tonic.pitch()),
                pc_semitones < 12,
                i <= degree.len(),
                forall|j: int| 0 <= j < degree.len() ==> 1 <= #[trigger] degree@[j] <= 12,
                vec_pitch_class@ == self.pitch_classes().take(i as int),
            decreases degree.len() - i,
        {
            // Degrees start at 1, pitch classes at 0.
            let degree_compute = ((degree[i] - 1) + pc_semitones) % PITCH_CLASS_COUNT;
            proof {
                assert((degree[i as int] - 1 + pc_semitones) % 12 % 12 == (degree[i as int] - 1
                    + pc_semitones) % 12) by (nonlinear_arith);
            }
            vec_pitch_class.push(pitch_class_from(degree_compute));
            assert(self.pitch_classes().take(i + 1) =~= self.pitch_classes().take(
                i as int,
            ).push(self.pitch_classes()[i as int]));
            i = i + 1;
        }
        assert(vec_pitch_class@ =~= self.pitch_classes());
        let mut vec_semitones: Vec<(Semitones, bool)> = Vec::new();
        let mut n: Semitones = 0;
        while n < 255
            invariant
                vec_pitch_class@ == self.pitch_classes(),
                tonic_class == self.tonic.pitch(),
                n <= 255,
                vec_semitones@ == self.degree_listing(n as nat),
            decreases 255 - n,
        {
            let n_pitch_class = pitch_class_from(n);
            let sw_tonic = same_pitch_class(n_pitch_class, tonic_class);
            if contains_pitch_class(&vec_pitch_class, n_pitch_class) {
                vec_semitones.push((n, sw_tonic));
            }
            n = n + 1;
        }
        vec_semitones
    }
}

/// Whether the pitch class `p` is in `v`.
fn contains_pitch_class(v: &Vec<PitchClass>, p: PitchClass) -> (r: bool)
    ensures
        r == v@.contains(p),
{
    let mut i: usize = 0;
    while i < v.len()
        invariant
            i <= v.len(),
            forall|j: int| 0 <= j < i ==> v@[j] != p,
        decreases v.len() - i,
    {
        if same_pitch_class(v[i], p) {
            return true;
        }
        i = i + 1;
    }
    false
}

/// The highest fret position shown on a string; position 0 is the open string.
pub const NUMBER_POSITION: usize = 19;

/// All positions of a scale on one string.
#[derive(Debug, Clone)]
pub struct DegreeAllStrings {
    /// The string, from 1 for the lowest.
    pub string_number: usize,
    /// The positions on the string that hold a note of the scale, in ascending order.
    pub degree_single_string: Vec<DegreeSingleString>,
}

/// A position on a string that holds a note of the scale.
#[derive(Debug, Clone, Copy)]
pub struct DegreeSingleString {
    /// The fret, 0 for the open string, up to `NUMBER_POSITION`.
    pub position: usize,
    /// Whether the note is the tonic.
    pub sw_tonic: bool,
    /// The note at the position.
    pub note: Note,
}

impl PartialEq for DegreeSingleString {
    fn eq(&self, other: &DegreeSingleString) -> (r: bool) {
        self.position == other.position && self.sw_tonic == other.sw_tonic && self.note
            == other.note
    }
}

impl vstd::std_specs::cmp::PartialEqSpecImpl for DegreeSingleString {
    open spec fn obeys_eq_spec() -> bool {
        true
    }

    open spec fn eq_spec(&self, other: &DegreeSingleString) -> bool {
        &&& self.position == other.position
        &&& self.sw_tonic == other.sw_tonic
        &&& self.note.text() == other.note.text()
    }
}

impl DegreeSingleString {
    /// The position, the tonic flag, and the note's pitch class and staff position.
    pub open spec fn model(self) -> (int, bool, PitchClass, StaffPosition) {
        (self.position as int, self.sw_tonic, self.note.pitch(), self.note.staff())
    }
}

/// Semitones above C of the open strings in standard tuning, lowest string (0) first:
/// E A D G B E.
pub open spec fn standard_open_semitones(i: int) -> nat {
    if i == 0 {
        4
    } else if i == 1 {
        9
    } else if i == 2 {
        2
    } else if i == 3 {
        7
    } else if i == 4 {
        11
    } else {
        4
    }
}

/// The pitch class, as semitones above C, of string `i` (0 for the lowest) in a tuning.
pub open spec fn open_semitones(tuning: Tuning, i: int) -> nat {
    ((standard_open_semitones(i) + tuning.interval().semitones()) % 12) as nat
}

/// A note read from a symbol that is known to name one.
fn note_of(s: &str) -> (r: Note)
    requires
        note_of_symbol(s@) is Some,
    ensures
        (r.pitch(), r.staff()) == note_of_symbol(s@)->Some_0,
{
    match Note::from_str(s) {
        Ok(n) => n,
        Err(_) => unreached(),
    }
}

/// The notes of the open strings in a tuning, lowest string first; the higher
/// strings are taken one or two octaves up.
pub fn open_string_roots(tuning: Tuning) -> (r: Vec<Note>)
    ensures
        r.len() == NUMBER_STRING,
        forall|i: int| 0 <= i < r.len() ==> pc_index(#[trigger] r[i].pitch()) == open_semitones(tuning, i),
{
    proof {
        lemma_natural_symbols();
    }
    let interval = tuning.get_interval();
    vec![
        note_of("E").add(interval),
        note_of("A").add(interval),
        note_of("D").add(interval).add(Interval::PlusOctave),
        note_of("G").add(interval).add(Interval::PlusOctave),
        note_of("B").add(interval).add(Interval::PlusOctave),
        note_of("E").add(interval).add(Interval::PlusPlusOctave),
    ]
}

/// The tonic flag of the first entry for the pitch `c`, if there is one.
fn find_degree(degrees: &Vec<(Semitones, bool)>, c: usize) -> (r: Option<bool>)
    ensures
        r is Some <==> exists|j: int| 0 <= j < degrees.len() && degrees@[j].0 == c,
        r matches Some(f) ==> exists|j: int| 0 <= j < degrees.len() && degrees@[j] == (c as Semitones, f) && c < 256,
{
    let mut j: usize = 0;
    while j < degrees.len()
        invariant
            j <= degrees.len(),
            forall|k: int| 0 <= k < j ==> degrees@[k].0 != c,
        decreases degrees.len() - j,
    {
        let (d, sw_bool) = degrees[j];
        if d as usize == c {
            return Some(sw_bool);
        }
        j = j + 1;
    }
    None
}

impl Scale {
    /// The entries of a string whose open string is `b` semitones above C, over its
    /// first `k` positions: each position whose pitch belongs to the scale, with
    /// whether it is the tonic and the note for that pitch.
    pub open spec fn string_layout(self, b: nat, k: nat) -> Seq<(int, bool, PitchClass, StaffPosition)>
        decreases k,
    {
        if k == 0 {
            seq![]
        } else {
            let j = k - 1;
            let c = b + j;
            let prev = self.string_layout(b, j as nat);
            if self.holds(c) {
                prev.push((j, self.is_tonic(c), pc_of(c), canonical_staff(c)))
            } else {
                prev
            }
        }
    }

    /// The layout of string `i` (0 for the lowest): positions 0 to `NUMBER_POSITION`.
    pub open spec fn layout(self, i: int) -> Seq<(int, bool, PitchClass, StaffPosition)> {
        self.string_layout(open_semitones(self.tuning, i), (NUMBER_POSITION + 1) as nat)
    }

    /// The notes of the scale on each string, from the lowest string (number 1),
    /// over the positions 0 to `NUMBER_POSITION` of each.
    pub fn get_string_combination(self) -> (r: Vec<DegreeAllStrings>)
        ensures
            r.len() == NUMBER_STRING,
            forall|i: int|
                0 <= i < r.len() ==> (#[trigger] r[i]).string_number == i + 1
                    && r[i].degree_single_string@.map_values(|e: DegreeSingleString| e.model())
                    == self.layout(i),
    {
        let roots = open_string_roots(self.tuning);
        let degrees = self.get_degree();
        proof {
            lemma_degree_listing(self, 255);
        }
        let mut vec_degree_all_strings: Vec<DegreeAllStrings> = Vec::new();
        let mut string_number: usize = 0;
        while string_number < NUMBER_STRING as usize
            invariant
                roots.len() == NUMBER_STRING,
                forall|i: int| 0 <= i < roots.len() ==> pc_index(#[trigger] roots[i].pitch()) == open_semitones(self.tuning, i),
                degrees@ == self.degree_listing(255),
                string_number <= NUMBER_STRING,
                vec_degree_all_strings.len() == string_number,
                forall|i: int|
                    0 <= i < string_number ==> (#[trigger] vec_degree_all_strings[i]).string_number == i + 1
                        && vec_degree_all_strings[i].degree_single_string@.map_values(
                        |e: DegreeSingleString| e.model(),
                    ) == self.layout(i),
            decreases NUMBER_STRING - string_number,
        {
            let pos_begin: usize = semitones_of(roots[string_number].pitch_class()) as usize;
            let pos_end = pos_begin + NUMBER_POSITION;
            let ghost b = pos_begin as nat;
            let mut vec_degree_single_string: Vec<DegreeSingleString> = Vec::new();
            let mut count: usize = pos_begin;
            while count <= pos_end
                invariant
                    b == pos_begin,
                    pos_begin < 12,
                    pos_end == pos_begin + NUMBER_POSITION,
                    pos_begin <= count <= pos_end + 1,
                    degrees@ == self.degree_listing(255),
                    vec_degree_single_string@.map_values(|e: DegreeSingleString| e.model())
                        == self.string_layout(b, (count - pos_begin) as nat),
                decreases pos_end + 1 - count,
            {
                let ghost prev = vec_degree_single_string@;
                let found = find_degree(&degrees, count);
                proof {
                    lemma_degree_listing(self, 255);
                    let c = count as int;
                    assert(self.string_layout(b, (count + 1 - pos_begin) as nat) == if self.holds(c) {
                        self.string_layout(b, (count - pos_begin) as nat).push(
                            (c - b, self.is_tonic(c), pc_of(c), canonical_staff(c)),
                        )
                    } else {
                        self.string_layout(b, (count - pos_begin) as nat)
                    });
                    if let Some(f) = found {
                        let j = choose|j: int|
                            0 <= j < degrees.len() && degrees@[j] == (count as Semitones, f) && count
                                < 256;
                        assert(degrees@[j].0 == c);
                    }
                }
                match found {
                    Some(sw_tonic) => {
                        let note = Note::from_semitones(count as Semitones);
                        vec_degree_single_string.push(
                            DegreeSingleString { position: count - pos_begin, sw_tonic, note },
                        );
                        assert(vec_degree_single_string@.map_values(|e: DegreeSingleString| e.model())
                            =~= prev.map_values(|e: DegreeSingleString| e.model()).push(
                            vec_degree_single_string@.last().model(),
                        ));
                    },
                    None => {},
                }
                count = count + 1;
            }
            vec_degree_all_strings.push(
                DegreeAllStrings {
                    string_number: string_number + 1,
                    degree_single_string: vec_degree_single_string,
                },
            );
            string_number = string_number + 1;
        }
        vec_degree_all_strings
    }
}

/// What each entry of the listing of pitches below `k` is, and that every pitch
/// of the scale below `k` has an entry.
pub proof fn lemma_degree_listing(scale: Scale, k: nat)
    requires
        k <= 255,
    ensures
        forall|j: int|
            0 <= j < scale.degree_listing(k).len() ==> {
                let e = #[trigger] scale.degree_listing(k)[j];
                &&& e.0 < k
                &&& scale.holds(e.0 as int)
                &&& e.1 == scale.is_tonic(e.0 as int)
            },
        forall|n: int|
            0 <= n < k && #[trigger] scale.holds(n) ==> exists|j: int|
                0 <= j < scale.degree_listing(k).len() && scale.degree_listing(k)[j].0 == n,
        forall|i: int, j: int|
            0 <= i < j < scale.degree_listing(k).len() ==> scale.degree_listing(k)[i].0
                < scale.degree_listing(k)[j].0,
    decreases k,
{
    if k > 0 {
        lemma_degree_listing(scale, (k - 1) as nat);
        let prev = scale.degree_listing((k - 1) as nat);
        let n = k - 1;
        if scale.holds(n) {
            assert(scale.degree_listing(k)[prev.len() as int].0 == n);
        }
        assert forall|m: int|
            0 <= m < k && #[trigger] scale.holds(m) implies exists|j: int|
                0 <= j < scale.degree_listing(k).len() && scale.degree_listing(k)[j].0 == m by {
            if m < n {
                let j = choose|j: int| 0 <= j < prev.len() && prev[j].0 == m;
                assert(scale.degree_listing(k)[j] == prev[j]);
            } else {
                assert(scale.degree_listing(k)[prev.len() as int].0 == m);
            }
        }
    }
}

/// What each entry of the layout of a string over its first `k` positions is,
/// and that every position of the scale among them has an entry.
pub proof fn lemma_string_layout(scale: Scale, b: nat, k: nat)
    ensures
        forall|j: int|
            0 <= j < scale.string_layout(b, k).len() ==> {
                let e = #[trigger] scale.string_layout(b, k)[j];
                &&& 0 <= e.0 < k
                &&& scale.holds(b + e.0)
                &&& e.1 == scale.is_tonic(b + e.0)
                &&& e.2 == pc_of(b + e.0)
            },
        forall|p: int|
            0 <= p < k && #[trigger] scale.holds(b + p) ==> exists|j: int|
                0 <= j < scale.string_layout(b, k).len() && scale.string_layout(b, k)[j].0 == p,
        forall|i: int, j: int|
            0 <= i < j < scale.string_layout(b, k).len() ==> scale.string_layout(b, k)[i].0
                < scale.string_layout(b, k)[j].0,
    decreases k,
{
    if k > 0 {
        lemma_string_layout(scale, b, (k - 1) as nat);
        let prev = scale.string_layout(b, (k - 1) as nat);
        let n = k - 1;
        assert forall|p: int|
            0 <= p < k && #[trigger] scale.holds(b + p) implies exists|j: int|
                0 <= j < scale.string_layout(b, k).len() && scale.string_layout(b, k)[j].0 == p by {
            if p < n {
                let j = choose|j: int| 0 <= j < prev.len() && prev[j].0 == p;
                assert(scale.string_layout(b, k)[j] == prev[j]);
            } else {
                assert(scale.string_layout(b, k)[prev.len() as int].0 == p);
            }
        }
    }
}

/// Exactly the entries whose pitch is the tonic's pitch class are flagged as the
/// tonic: on each string, where the pitch is the open string's plus the position,
/// and in the listing of the scale's pitches.
pub proof fn lemma_tonic_membership(scale: Scale, i: int)
    requires
        0 <= i < NUMBER_STRING,
    ensures
        forall|j: int|
            0 <= j < scale.layout(i).len() ==> ((#[trigger] scale.layout(i)[j]).1 <==> (
            open_semitones(scale.tuning, i) + scale.layout(i)[j].0) % 12 == pc_index(
                scale.tonic.pitch(),
            )),
        forall|j: int|
            0 <= j < scale.degree_listing(255).len() ==> ((#[trigger] scale.degree_listing(
                255,
            )[j]).1 <==> scale.degree_listing(255)[j].0 % 12 == pc_index(scale.tonic.pitch())),
{
    let b = open_semitones(scale.tuning, i);
    lemma_string_layout(scale, b, (NUMBER_POSITION + 1) as nat);
    lemma_degree_listing(scale, 255);
    lemma_pc_index_of(scale.tonic.pitch(), 0);
    assert forall|c: int| #[trigger] scale.is_tonic(c) <==> c % 12 == pc_index(scale.tonic.pitch()) by {
        lemma_pc_index_of(scale.tonic.pitch(), c);
    }
}

/// Every position on a string lies between 0 and `NUMBER_POSITION`, the positions
/// ascend, and a pitch class found at a position is found again twelve positions
/// higher when that position is still on the string.
pub proof fn lemma_fretboard_window(scale: Scale, i: int)
    requires
        0 <= i < NUMBER_STRING,
    ensures
        forall|j: int, k: int|
            0 <= j < k < scale.layout(i).len() ==> scale.layout(i)[j].0 < scale.layout(i)[k].0,
        forall|j: int|
            0 <= j < scale.layout(i).len() ==> 0 <= (#[trigger] scale.layout(i)[j]).0
                <= NUMBER_POSITION,
        forall|j: int|
            0 <= j < scale.layout(i).len() && (#[trigger] scale.layout(i)[j]).0 + 12
                <= NUMBER_POSITION ==> exists|j2: int|
                0 <= j2 < scale.layout(i).len() && scale.layout(i)[j2].0 == scale.layout(i)[j].0
                    + 12 && scale.layout(i)[j2].2 == scale.layout(i)[j].2,
{
    let b = open_semitones(scale.tuning, i);
    let l = scale.layout(i);
    lemma_string_layout(scale, b, (NUMBER_POSITION + 1) as nat);
    assert forall|j: int|
        0 <= j < l.len() && (#[trigger] l[j]).0 + 12 <= NUMBER_POSITION implies exists|j2: int|
            0 <= j2 < l.len() && l[j2].0 == l[j].0 + 12 && l[j2].2 == l[j].2 by {
        let c = b + l[j].0;
        lemma_semitones_closure(c);
        assert(scale.holds(b + (l[j].0 + 12)));
    }
}

} // verus!
