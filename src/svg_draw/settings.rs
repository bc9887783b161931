use crate::text::same_text;
use std::str::FromStr;
use vstd::prelude::*;

verus! {

/// Error for a string that names no theme.
#[derive(Debug)]
pub struct ParseThemeError {
    name: String,
}

impl ParseThemeError {
    /// The string that was read.
    pub closed spec fn spec_name(&self) -> Seq<char> {
        self.name@
    }

    /// The string that was read.
    pub fn name(&self) -> (r: &str)
        ensures
            r@ == self.spec_name(),
    {
        self.name.as_str()
    }
}

/// The colours of a diagram, for an instrument.
#[derive(Debug, Clone, Copy, PartialEq, Eq, Structural)]
pub enum Theme {
    Light(Instrument),
    Dark(Instrument),
}

/// The instrument that a diagram is drawn for.
#[derive(Debug, Clone, Copy, PartialEq, Eq, Structural)]
pub enum Instrument {
    Guitar,
    Piano,
}

impl Theme {
    /// Read a theme from its letter: "L" for light, "D" for dark, both for the guitar.
    pub fn from_str(s: &str) -> (r: Result<Theme, ParseThemeError>)
        ensures
            s@ == "L"@ ==> r == Ok::<Theme, ParseThemeError>(Theme::Light(Instrument::Guitar)),
            s@ != "L"@ && s@ == "D"@ ==> r == Ok::<Theme, ParseThemeError>(
                Theme::Dark(Instrument::Guitar),
            ),
            r is Err <==> s@ != "L"@ && s@ != "D"@,
            r matches Err(e) ==> e.spec_name() == s@,
    {
        if same_text(s, "L") {
            Ok(Theme::Light(Instrument::Guitar))
        } else if same_text(s, "D") {
            Ok(Theme::Dark(Instrument::Guitar))
        } else {
            Err(ParseThemeError { name: s.to_owned() })
        }
    }
}

impl FromStr for Theme {
    type Err = ParseThemeError;

    fn from_str(s: &str) -> Result<Theme, ParseThemeError> {
        Theme::from_str(s)
    }
}

} // verus!
