use ukebox::{Semitones, StaffSteps};
use vstd::prelude::*;

verus! {

/// An interval between two notes: a number of semitones and a number of
/// staff positions (the interval's "number", a third being 3).
#[derive(Debug, Clone, Copy, PartialEq, Eq, Structural)]
pub enum Interval {
    PerfectUnison,
    MajorSecond,
    MinorThird,
    MajorThird,
    PerfectFourth,
    DiminishedFifth,
    PerfectFifth,
    AugmentedFifth,
    MajorSixth,
    DiminishedSeventh,
    MinorSeventh,
    MajorSeventh,
    PlusOctave,
    MinorNinth,
    MajorNinth,
    AugmentedNinth,
    PerfectEleventh,
    MajorThirteenth,
    PlusPlusOctave,
}

impl Interval {
    /// The number of semitones that the interval spans.
    pub open spec fn semitones(self) -> nat {
        match self {
            Interval::PerfectUnison => 0,
            Interval::MajorSecond => 2,
            Interval::MinorThird => 3,
            Interval::MajorThird => 4,
            Interval::PerfectFourth => 5,
            Interval::DiminishedFifth => 6,
            Interval::PerfectFifth => 7,
            Interval::AugmentedFifth => 8,
            Interval::MajorSixth => 9,
            Interval::DiminishedSeventh => 9,
            Interval::MinorSeventh => 10,
            Interval::MajorSeventh => 11,
            Interval::PlusOctave => 12,
            Interval::MinorNinth => 13,
            Interval::MajorNinth => 14,
            Interval::AugmentedNinth => 15,
            Interval::PerfectEleventh => 17,
            Interval::MajorThirteenth => 21,
            Interval::PlusPlusOctave => 24,
        }
    }

    /// The interval's number: how many staff positions it covers, counting both ends.
    pub open spec fn number(self) -> nat {
        match self {
            Interval::PerfectUnison => 1,
            Interval::MajorSecond => 2,
            Interval::MinorThird => 3,
            Interval::MajorThird => 3,
            Interval::PerfectFourth => 4,
            Interval::DiminishedFifth => 5,
            Interval::PerfectFifth => 5,
            Interval::AugmentedFifth => 5,
            Interval::MajorSixth => 6,
            Interval::DiminishedSeventh => 7,
            Interval::MinorSeventh => 7,
            Interval::MajorSeventh => 7,
            Interval::PlusOctave => 8,
            Interval::MinorNinth => 9,
            Interval::MajorNinth => 9,
            Interval::AugmentedNinth => 9,
            Interval::PerfectEleventh => 11,
            Interval::MajorThirteenth => 13,
            Interval::PlusPlusOctave => 15,
        }
    }

    /// Return the number of semitones that the interval spans.
    pub fn to_semitones(self) -> (r: Semitones)
        ensures
            r == self.semitones(),
    {
        match self {
            Interval::PerfectUnison => 0,
            Interval::MajorSecond => 2,
            Interval::MinorThird => 3,
            Interval::MajorThird => 4,
            Interval::PerfectFourth => 5,
            Interval::DiminishedFifth => 6,
            Interval::PerfectFifth => 7,
            Interval::AugmentedFifth => 8,
            Interval::MajorSixth => 9,
            Interval::DiminishedSeventh => 9,
            Interval::MinorSeventh => 10,
            Interval::MajorSeventh => 11,
            Interval::PlusOctave => 12,
            Interval::MinorNinth => 13,
            Interval::MajorNinth => 14,
            Interval::AugmentedNinth => 15,
            Interval::PerfectEleventh => 17,
            Interval::MajorThirteenth => 21,
            Interval::PlusPlusOctave => 24,
        }
    }

    /// Return the interval's number, the staff positions it covers counting both ends.
    pub fn to_number(self) -> (r: StaffSteps)
        ensures
            r == self.number(),
            r >= 1,
    {
        match self {
            Interval::PerfectUnison => 1,
            Interval::MajorSecond => 2,
            Interval::MinorThird => 3,
            Interval::MajorThird => 3,
            Interval::PerfectFourth => 4,
            Interval::DiminishedFifth => 5,
            Interval::PerfectFifth => 5,
            Interval::AugmentedFifth => 5,
            Interval::MajorSixth => 6,
            Interval::DiminishedSeventh => 7,
            Interval::MinorSeventh => 7,
            Interval::MajorSeventh => 7,
            Interval::PlusOctave => 8,
            Interval::MinorNinth => 9,
            Interval::MajorNinth => 9,
            Interval::AugmentedNinth => 9,
            Interval::PerfectEleventh => 11,
            Interval::MajorThirteenth => 13,
            Interval::PlusPlusOctave => 15,
        }
    }
}

} // verus!
