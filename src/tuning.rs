use crate::interval::Interval;
use crate::text::same_text;
use std::str::FromStr;
use ukebox::Semitones;
use vstd::prelude::*;

verus! {

/// Error for a string that names no tuning.
#[derive(Debug)]
pub struct ParseTuningError {
    pub name: String,
}

impl ParseTuningError {
    /// The message that describes the error.
    pub fn message(&self) -> (r: String)
        ensures
            r@ == "Could not parse tuning name \""@ + self.name@ + "\""@,
    {
        let mut m = "Could not parse tuning name \"".to_owned();
        m.append(self.name.as_str());
        m.append("\"");
        m
    }
}

/// The tuning of the instrument.
#[derive(Debug, Clone, Copy, PartialEq, Eq, Structural)]
pub enum Tuning {
    /// Standard tuning: E A D G B E.
    E,
}

impl Tuning {
    /// The semitone offset that the tuning applies to every pitch.
    pub open spec fn semitones(self) -> nat {
        match self {
            Tuning::E => 0,
        }
    }

    /// The interval by which the tuning moves the open strings from standard tuning.
    pub open spec fn interval(self) -> Interval {
        match self {
            Tuning::E => Interval::PerfectUnison,
        }
    }

    /// The semitone offset that the tuning applies to every pitch.
    pub fn get_semitones(self) -> (r: Semitones)
        ensures
            r == self.semitones(),
    {
        match self {
            Tuning::E => 0,
        }
    }

    /// The interval by which the tuning moves the open strings from standard tuning.
    pub fn get_interval(self) -> (r: Interval)
        ensures
            r == self.interval(),
    {
        match self {
            Tuning::E => Interval::PerfectUnison,
        }
    }

    /// Read a tuning from its name; the standard tuning is "E".
    pub fn from_str(s: &str) -> (r: Result<Tuning, ParseTuningError>)
        ensures
            s@ == "E"@ <==> r is Ok,
            r matches Ok(t) ==> t == Tuning::E,
            r matches Err(e) ==> e.name@ == s@,
    {
        if same_text(s, "E") {
            Ok(Tuning::E)
        } else {
            Err(ParseTuningError { name: s.to_owned() })
        }
    }
}

impl FromStr for Tuning {
    type Err = ParseTuningError;

    fn from_str(s: &str) -> Result<Tuning, ParseTuningError> {
        Tuning::from_str(s)
    }
}

} // verus!
