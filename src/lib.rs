//! Scale fingerings for a fretted string instrument: note and pitch class
//! arithmetic, a catalog of scale types, and the layout of a scale's notes
//! over the strings and frets of the fretboard.

pub mod interval;
pub mod note;
pub mod pitch;
pub mod scale;
pub mod svg_draw;
pub mod tuning;
mod text;

use vstd::prelude::*;

verus! {

/// The number of a degree: its position above the tonic in a scale, the tonic being 1.
pub type Degree = u8;

/// The number of strings of the instrument.
pub const NUMBER_STRING: u8 = 6;

} // verus!
