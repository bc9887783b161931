use crate::interval::Interval;
use crate::pitch::{
    lemma_pc_index_of, lemma_sp_index_of, pc_index, pc_of, pitch_class_plus, sp_index, sp_of,
    staff_position_plus, PITCH_CLASS_COUNT,
};
use crate::text::same_text;
use std::str::FromStr;
use ukebox::{PitchClass, Semitones, StaffPosition};
use vstd::prelude::*;

verus! {

/// Error for a string that names no note.
#[derive(Debug)]
pub struct ParseNoteError {
    pub name: String,
}

impl ParseNoteError {
    /// The message that describes the error.
    pub fn message(&self) -> (r: String)
        ensures
            r@ == "Could not parse note name \""@ + self.name@ + "\""@,
    {
        let mut m = "Could not parse note name \"".to_owned();
        m.append(self.name.as_str());
        m.append("\"");
        m
    }
}

/// The symbol that a pitch class written on a staff position is called by, where
/// the pair is one the notes of this library can take: each staff position holds
/// the pitch classes from two semitones below its natural note to two above.
pub open spec fn spelling(s: StaffPosition, p: PitchClass) -> Option<Seq<char>> {
    match (s, p) {
        (StaffPosition::CPos, PitchClass::ASharp) => Some("Bb"@),
        (StaffPosition::CPos, PitchClass::B) => Some("B"@),
        (StaffPosition::CPos, PitchClass::C) => Some("C"@),
        (StaffPosition::CPos, PitchClass::CSharp) => Some("C#"@),
        (StaffPosition::CPos, PitchClass::D) => Some("D"@),
        (StaffPosition::DPos, PitchClass::C) => Some("C"@),
        (StaffPosition::DPos, PitchClass::CSharp) => Some("Db"@),
        (StaffPosition::DPos, PitchClass::D) => Some("D"@),
        (StaffPosition::DPos, PitchClass::DSharp) => Some("D#"@),
        (StaffPosition::DPos, PitchClass::E) => Some("E"@),
        (StaffPosition::EPos, PitchClass::D) => Some("D"@),
        (StaffPosition::EPos, PitchClass::DSharp) => Some("Eb"@),
        (StaffPosition::EPos, PitchClass::E) => Some("E"@),
        (StaffPosition::EPos, PitchClass::F) => Some("F"@),
        (StaffPosition::EPos, PitchClass::FSharp) => Some("F#"@),
        (StaffPosition::FPos, PitchClass::DSharp) => Some("Eb"@),
        (StaffPosition::FPos, PitchClass::E) => Some("E"@),
        (StaffPosition::FPos, PitchClass::F) => Some("F"@),
        (StaffPosition::FPos, PitchClass::FSharp) => Some("F#"@),
        (StaffPosition::FPos, PitchClass::G) => Some("G"@),
        (StaffPosition::GPos, PitchClass::F) => Some("F"@),
        (StaffPosition::GPos, PitchClass::FSharp) => Some("Gb"@),
        (StaffPosition::GPos, PitchClass::G) => Some("G"@),
        (StaffPosition::GPos, PitchClass::GSharp) => Some("G#"@),
        (StaffPosition::GPos, PitchClass::A) => Some("A"@),
        (StaffPosition::APos, PitchClass::G) => Some("G"@),
        (StaffPosition::APos, PitchClass::GSharp) => Some("Ab"@),
        (StaffPosition::APos, PitchClass::A) => Some("A"@),
        (StaffPosition::APos, PitchClass::ASharp) => Some("A#"@),
        (StaffPosition::APos, PitchClass::B) => Some("B"@),
        (StaffPosition::BPos, PitchClass::A) => Some("A"@),
        (StaffPosition::BPos, PitchClass::ASharp) => Some("Bb"@),
        (StaffPosition::BPos, PitchClass::B) => Some("B"@),
        (StaffPosition::BPos, PitchClass::C) => Some("C"@),
        (StaffPosition::BPos, PitchClass::CSharp) => Some("C#"@),
        _ => None,
    }
}

/// The note that a symbol names: one of the seventeen usual spellings.
pub open spec fn note_of_symbol(s: Seq<char>) -> Option<(PitchClass, StaffPosition)> {
    if s == "C"@ {
        Some((PitchClass::C, StaffPosition::CPos))
    } else if s == "C#"@ {
        Some((PitchClass::CSharp, StaffPosition::CPos))
    } else if s == "Db"@ {
        Some((PitchClass::CSharp, StaffPosition::DPos))
    } else if s == "D"@ {
        Some((PitchClass::D, StaffPosition::DPos))
    } else if s == "D#"@ {
        Some((PitchClass::DSharp, StaffPosition::DPos))
    } else if s == "Eb"@ {
        Some((PitchClass::DSharp, StaffPosition::EPos))
    } else if s == "E"@ {
        Some((PitchClass::E, StaffPosition::EPos))
    } else if s == "F"@ {
        Some((PitchClass::F, StaffPosition::FPos))
    } else if s == "F#"@ {
        Some((PitchClass::FSharp, StaffPosition::FPos))
    } else if s == "Gb"@ {
        Some((PitchClass::FSharp, StaffPosition::GPos))
    } else if s == "G"@ {
        Some((PitchClass::G, StaffPosition::GPos))
    } else if s == "G#"@ {
        Some((PitchClass::GSharp, StaffPosition::GPos))
    } else if s == "Ab"@ {
        Some((PitchClass::GSharp, StaffPosition::APos))
    } else if s == "A"@ {
        Some((PitchClass::A, StaffPosition::APos))
    } else if s == "A#"@ {
        Some((PitchClass::ASharp, StaffPosition::APos))
    } else if s == "Bb"@ {
        Some((PitchClass::ASharp, StaffPosition::BPos))
    } else if s == "B"@ {
        Some((PitchClass::B, StaffPosition::BPos))
    } else {
        None
    }
}

/// The staff position on which the note `n` semitones above C is written:
/// natural notes on their own letter, the others as sharps.
pub open spec fn canonical_staff(n: int) -> StaffPosition {
    let v = n % 12;
    if v <= 1 {
        StaffPosition::CPos
    } else if v <= 3 {
        StaffPosition::DPos
    } else if v == 4 {
        StaffPosition::EPos
    } else if v <= 6 {
        StaffPosition::FPos
    } else if v <= 8 {
        StaffPosition::GPos
    } else if v <= 10 {
        StaffPosition::APos
    } else {
        StaffPosition::BPos
    }
}

/// The symbol of the note `n` semitones above C as `from_semitones` writes it.
pub open spec fn canonical_text(n: int) -> Seq<char> {
    spelling(canonical_staff(n), pc_of(n))->Some_0
}

/// The lower-case name of a pitch class used in file names.
pub open spec fn data_name_of(p: PitchClass) -> Seq<char> {
    match p {
        PitchClass::C => "c"@,
        PitchClass::CSharp => "c_sharp"@,
        PitchClass::D => "d"@,
        PitchClass::DSharp => "d_sharp"@,
        PitchClass::E => "e"@,
        PitchClass::F => "f"@,
        PitchClass::FSharp => "f_sharp"@,
        PitchClass::G => "g"@,
        PitchClass::GSharp => "g_sharp"@,
        PitchClass::A => "a"@,
        PitchClass::ASharp => "a_sharp"@,
        PitchClass::B => "b"@,
    }
}

/// A note: a pitch class written on a staff position.
#[derive(Debug, Clone, Copy)]
pub struct Note {
    pub(crate) pitch_class: PitchClass,
    pub(crate) staff_position: StaffPosition,
}

impl Note {
    /// The note's pitch class.
    pub closed spec fn pitch(self) -> PitchClass {
        self.pitch_class
    }

    /// The staff position the note is written on.
    pub closed spec fn staff(self) -> StaffPosition {
        self.staff_position
    }

    /// The pair has a symbol.
    pub open spec fn spelled(self) -> bool {
        spelling(self.staff(), self.pitch()) is Some
    }

    /// The note's symbol.
    pub open spec fn text(self) -> Seq<char> {
        spelling(self.staff(), self.pitch())->Some_0
    }

    #[verifier::type_invariant]
    pub(crate) closed spec fn wf(self) -> bool {
        self.spelled()
    }

    /// The note's pitch class.
    pub fn pitch_class(&self) -> (r: PitchClass)
        ensures
            r == self.pitch(),
    {
        self.pitch_class
    }

    /// The staff position the note is written on.
    pub fn staff_position(&self) -> (r: StaffPosition)
        ensures
            r == self.staff(),
    {
        self.staff_position
    }

    /// The note's symbol, such as "C", "F#" or "Bb".
    pub fn symbol(&self) -> (r: &'static str)
        ensures
            r@ == self.text(),
    {
        proof {
            use_type_invariant(self);
        }
        match (self.staff_position, self.pitch_class) {
            (StaffPosition::CPos, PitchClass::ASharp) => "Bb",
            (StaffPosition::CPos, PitchClass::B) => "B",
            (StaffPosition::CPos, PitchClass::C) => "C",
            (StaffPosition::CPos, PitchClass::CSharp) => "C#",
            (StaffPosition::CPos, PitchClass::D) => "D",
            (StaffPosition::DPos, PitchClass::C) => "C",
            (StaffPosition::DPos, PitchClass::CSharp) => "Db",
            (StaffPosition::DPos, PitchClass::D) => "D",
            (StaffPosition::DPos, PitchClass::DSharp) => "D#",
            (StaffPosition::DPos, PitchClass::E) => "E",
            (StaffPosition::EPos, PitchClass::D) => "D",
            (StaffPosition::EPos, PitchClass::DSharp) => "Eb",
            (StaffPosition::EPos, PitchClass::E) => "E",
            (StaffPosition::EPos, PitchClass::F) => "F",
            (StaffPosition::EPos, PitchClass::FSharp) => "F#",
            (StaffPosition::FPos, PitchClass::DSharp) => "Eb",
            (StaffPosition::FPos, PitchClass::E) => "E",
            (StaffPosition::FPos, PitchClass::F) => "F",
            (StaffPosition::FPos, PitchClass::FSharp) => "F#",
            (StaffPosition::FPos, PitchClass::G) => "G",
            (StaffPosition::GPos, PitchClass::F) => "F",
            (StaffPosition::GPos, PitchClass::FSharp) => "Gb",
            (StaffPosition::GPos, PitchClass::G) => "G",
            (StaffPosition::GPos, PitchClass::GSharp) => "G#",
            (StaffPosition::GPos, PitchClass::A) => "A",
            (StaffPosition::APos, PitchClass::G) => "G",
            (StaffPosition::APos, PitchClass::GSharp) => "Ab",
            (StaffPosition::APos, PitchClass::A) => "A",
            (StaffPosition::APos, PitchClass::ASharp) => "A#",
            (StaffPosition::APos, PitchClass::B) => "B",
            (StaffPosition::BPos, PitchClass::A) => "A",
            (StaffPosition::BPos, PitchClass::ASharp) => "Bb",
            (StaffPosition::BPos, PitchClass::B) => "B",
            (StaffPosition::BPos, PitchClass::C) => "C",
            (StaffPosition::BPos, PitchClass::CSharp) => "C#",
            _ => unreached(),
        }
    }

    /// The note's symbol as a `String`.
    pub fn to_string(&self) -> (r: String)
        ensures
            r@ == self.text(),
    {
        self.symbol().to_owned()
    }

    /// Read a note from one of its seventeen usual symbols; sharps are written
    /// with `#` and flats with `b`. Other spellings, such as "E#", are refused.
    pub fn from_str(s: &str) -> (r: Result<Note, ParseNoteError>)
        ensures
            note_of_symbol(s@) is Some <==> r is Ok,
            r matches Ok(n) ==> (n.pitch(), n.staff()) == note_of_symbol(s@)->Some_0,
            r matches Err(e) ==> e.name@ == s@,
    {
        let (pitch_class, staff_position) = if same_text(s, "C") {
            (PitchClass::C, StaffPosition::CPos)
        } else if same_text(s, "C#") {
            (PitchClass::CSharp, StaffPosition::CPos)
        } else if same_text(s, "Db") {
            (PitchClass::CSharp, StaffPosition::DPos)
        } else if same_text(s, "D") {
            (PitchClass::D, StaffPosition::DPos)
        } else if same_text(s, "D#") {
            (PitchClass::DSharp, StaffPosition::DPos)
        } else if same_text(s, "Eb") {
            (PitchClass::DSharp, StaffPosition::EPos)
        } else if same_text(s, "E") {
            (PitchClass::E, StaffPosition::EPos)
        } else if same_text(s, "F") {
            (PitchClass::F, StaffPosition::FPos)
        } else if same_text(s, "F#") {
            (PitchClass::FSharp, StaffPosition::FPos)
        } else if same_text(s, "Gb") {
            (PitchClass::FSharp, StaffPosition::GPos)
        } else if same_text(s, "G") {
            (PitchClass::G, StaffPosition::GPos)
        } else if same_text(s, "G#") {
            (PitchClass::GSharp, StaffPosition::GPos)
        } else if same_text(s, "Ab") {
            (PitchClass::GSharp, StaffPosition::APos)
        } else if same_text(s, "A") {
            (PitchClass::A, StaffPosition::APos)
        } else if same_text(s, "A#") {
            (PitchClass::ASharp, StaffPosition::APos)
        } else if same_text(s, "Bb") {
            (PitchClass::ASharp, StaffPosition::BPos)
        } else if same_text(s, "B") {
            (PitchClass::B, StaffPosition::BPos)
        } else {
            return Err(ParseNoteError { name: s.to_owned() });
        };
        Ok(Note { pitch_class, staff_position })
    }
}

impl Note {
    /// The pitch class and staff position of the note `interval` above this one.
    pub open spec fn plus(self, interval: Interval) -> (PitchClass, StaffPosition) {
        (
            pc_of(pc_index(self.pitch()) + interval.semitones() as int),
            sp_of(sp_index(self.staff()) + interval.number() - 1),
        )
    }

    /// The note `interval` above this one has a symbol.
    pub open spec fn can_add(self, interval: Interval) -> bool {
        spelling(self.plus(interval).1, self.plus(interval).0) is Some
    }

    /// The note `interval` above this one: the pitch class moves up by the
    /// interval's semitones and the staff position by its number less one.
    pub fn add(self, interval: Interval) -> (r: Note)
        requires
            self.can_add(interval),
        ensures
            (r.pitch(), r.staff()) == self.plus(interval),
    {
        proof {
            lemma_pc_index_of(self.pitch_class, 0);
            lemma_sp_index_of(self.staff_position, 0);
        }
        let pitch_class = pitch_class_plus(self.pitch_class, interval.to_semitones());
        let staff_position = staff_position_plus(self.staff_position, interval.to_number() - 1);
        Note { pitch_class, staff_position }
    }
}

/// Conversion from a number of semitones to a note.
pub trait TraitNoteSemitones: Sized {
    /// The note that lies `semitones` above C, reduced to one octave.
    fn from_semitones(semitones: Semitones) -> Self;
}

impl TraitNoteSemitones for Note {
    /// The note `semitones` above C, modulo 12: natural notes on their own
    /// staff position, the others as sharps.
    fn from_semitones(semitones: Semitones) -> (r: Note)
        ensures
            r.pitch() == pc_of(semitones as int),
            r.staff() == canonical_staff(semitones as int),
    {
        let semitones_redux = semitones % PITCH_CLASS_COUNT;
        let (pitch_class, staff_position) = match semitones_redux {
            0 => (PitchClass::C, StaffPosition::CPos),
            1 => (PitchClass::CSharp, StaffPosition::CPos),
            2 => (PitchClass::D, StaffPosition::DPos),
            3 => (PitchClass::DSharp, StaffPosition::DPos),
            4 => (PitchClass::E, StaffPosition::EPos),
            5 => (PitchClass::F, StaffPosition::FPos),
            6 => (PitchClass::FSharp, StaffPosition::FPos),
            7 => (PitchClass::G, StaffPosition::GPos),
            8 => (PitchClass::GSharp, StaffPosition::GPos),
            9 => (PitchClass::A, StaffPosition::APos),
            10 => (PitchClass::ASharp, StaffPosition::APos),
            _ => (PitchClass::B, StaffPosition::BPos),
        };
        Note { pitch_class, staff_position }
    }
}

/// A name of the note for use in file names.
pub trait TraitGenerate {
    /// The name, in lower case letters and underscores.
    fn data_name(&self) -> &str;
}

impl TraitGenerate for Note {
    /// The pitch class's name: "c", "c_sharp", ..., "b".
    fn data_name(&self) -> (r: &str)
        ensures
            r@ == data_name_of(self.pitch()),
    {
        match self.pitch_class {
            PitchClass::C => "c",
            PitchClass::CSharp => "c_sharp",
            PitchClass::D => "d",
            PitchClass::DSharp => "d_sharp",
            PitchClass::E => "e",
            PitchClass::F => "f",
            PitchClass::FSharp => "f_sharp",
            PitchClass::G => "g",
            PitchClass::GSharp => "g_sharp",
            PitchClass::A => "a",
            PitchClass::ASharp => "a_sharp",
            PitchClass::B => "b",
        }
    }
}

/// Two notes are equal when they are called by the same symbol: a note written
/// as B sharp equals C.
impl PartialEq for Note {
    fn eq(&self, other: &Note) -> (r: bool) {
        same_text(self.symbol(), other.symbol())
    }
}

impl vstd::std_specs::cmp::PartialEqSpecImpl for Note {
    open spec fn obeys_eq_spec() -> bool {
        true
    }

    open spec fn eq_spec(&self, other: &Note) -> bool {
        self.text() == other.text()
    }
}

impl FromStr for Note {
    type Err = ParseNoteError;

    fn from_str(s: &str) -> Result<Note, ParseNoteError> {
        Note::from_str(s)
    }
}

/// Reading any of the seventeen accepted symbols into a note and writing the
/// note back gives the same symbol.
pub proof fn lemma_symbol_round_trip(s: Seq<char>)
    requires
        note_of_symbol(s) is Some,
    ensures
        spelling(note_of_symbol(s)->Some_0.1, note_of_symbol(s)->Some_0.0) == Some(s),
{
}

/// The note for a number of semitones depends on that number modulo 12 only,
/// so its pitch class repeats every 12 semitones.
pub proof fn lemma_semitones_closure(n: int)
    ensures
        pc_of(n) == pc_of(n % 12),
        canonical_staff(n) == canonical_staff(n % 12),
        pc_of(n + 12) == pc_of(n),
        canonical_staff(n + 12) == canonical_staff(n),
{
    assert((n % 12) % 12 == n % 12) by (nonlinear_arith);
    assert((n + 12) % 12 == n % 12) by (nonlinear_arith);
}

/// The symbols of the open strings name the natural notes on their own staff positions.
pub proof fn lemma_natural_symbols()
    ensures
        note_of_symbol("E"@) == Some((PitchClass::E, StaffPosition::EPos)),
        note_of_symbol("A"@) == Some((PitchClass::A, StaffPosition::APos)),
        note_of_symbol("D"@) == Some((PitchClass::D, StaffPosition::DPos)),
        note_of_symbol("G"@) == Some((PitchClass::G, StaffPosition::GPos)),
        note_of_symbol("B"@) == Some((PitchClass::B, StaffPosition::BPos)),
{
    reveal_strlit("C");
    reveal_strlit("C#");
    reveal_strlit("Db");
    reveal_strlit("D");
    reveal_strlit("D#");
    reveal_strlit("Eb");
    reveal_strlit("E");
    reveal_strlit("F");
    reveal_strlit("F#");
    reveal_strlit("Gb");
    reveal_strlit("G");
    reveal_strlit("G#");
    reveal_strlit("Ab");
    reveal_strlit("A");
    reveal_strlit("A#");
    reveal_strlit("Bb");
    reveal_strlit("B");
    assert("C"@.len() == 1 && "C"@[0] == 'C');
    assert("C#"@.len() == 2 && "C#"@[0] == 'C' && "C#"@[1] == '#');
    assert("Db"@.len() == 2 && "Db"@[0] == 'D' && "Db"@[1] == 'b');
    assert("D"@.len() == 1 && "D"@[0] == 'D');
    assert("D#"@.len() == 2 && "D#"@[0] == 'D' && "D#"@[1] == '#');
    assert("Eb"@.len() == 2 && "Eb"@[0] == 'E' && "Eb"@[1] == 'b');
    assert("E"@.len() == 1 && "E"@[0] == 'E');
    assert("F"@.len() == 1 && "F"@[0] == 'F');
    assert("F#"@.len() == 2 && "F#"@[0] == 'F' && "F#"@[1] == '#');
    assert("Gb"@.len() == 2 && "Gb"@[0] == 'G' && "Gb"@[1] == 'b');
    assert("G"@.len() == 1 && "G"@[0] == 'G');
    assert("G#"@.len() == 2 && "G#"@[0] == 'G' && "G#"@[1] == '#');
    assert("Ab"@.len() == 2 && "Ab"@[0] == 'A' && "Ab"@[1] == 'b');
    assert("A"@.len() == 1 && "A"@[0] == 'A');
    assert("A#"@.len() == 2 && "A#"@[0] == 'A' && "A#"@[1] == '#');
    assert("Bb"@.len() == 2 && "Bb"@[0] == 'B' && "Bb"@[1] == 'b');
    assert("B"@.len() == 1 && "B"@[0] == 'B');
}

} // verus!
