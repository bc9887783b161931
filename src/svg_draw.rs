pub mod settings;

pub use settings::{Instrument, ParseThemeError, Theme};

use crate::NUMBER_STRING;
use vstd::prelude::*;

verus! {

/// The row on which a string is drawn: the strings are numbered from the lowest,
/// and the lowest is drawn at the bottom. Numbers past the last string go to row 0.
pub fn guitar_string_convert(string: u8) -> (r: u8)
    ensures
        string < NUMBER_STRING ==> r == NUMBER_STRING - 1 - string,
        string >= NUMBER_STRING ==> r == 0,
{
    if string < NUMBER_STRING {
        NUMBER_STRING - 1 - string
    } else {
        0
    }
}

} // verus!
