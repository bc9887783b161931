use ukebox::{PitchClass, Semitones, StaffPosition, StaffSteps};
use vstd::prelude::*;

verus! {

/// The twelve pitch classes of ukebox, C to B. Verus reads the variants.
#[verifier::external_type_specification]
pub struct ExPitchClass(PitchClass);

/// The seven staff positions of ukebox, CPos to BPos. Verus reads the variants.
#[verifier::external_type_specification]
pub struct ExStaffPosition(StaffPosition);

/// Number of pitch classes in an octave.
pub const PITCH_CLASS_COUNT: Semitones = 12;

/// Semitones from C up to the pitch class, in `0..12`.
pub open spec fn pc_index(p: PitchClass) -> nat {
    match p {
        PitchClass::C => 0,
        PitchClass::CSharp => 1,
        PitchClass::D => 2,
        PitchClass::DSharp => 3,
        PitchClass::E => 4,
        PitchClass::F => 5,
        PitchClass::FSharp => 6,
        PitchClass::G => 7,
        PitchClass::GSharp => 8,
        PitchClass::A => 9,
        PitchClass::ASharp => 10,
        PitchClass::B => 11,
    }
}

/// Letter steps from C up to the staff position, in `0..7`.
pub open spec fn sp_index(s: StaffPosition) -> nat {
    match s {
        StaffPosition::CPos => 0,
        StaffPosition::DPos => 1,
        StaffPosition::EPos => 2,
        StaffPosition::FPos => 3,
        StaffPosition::GPos => 4,
        StaffPosition::APos => 5,
        StaffPosition::BPos => 6,
    }
}

/// The pitch class whose index is `n` reduced modulo 12.
pub open spec fn pc_of(n: int) -> PitchClass {
    let v = n % 12;
    if v == 0 {
        PitchClass::C
    } else if v == 1 {
        PitchClass::CSharp
    } else if v == 2 {
        PitchClass::D
    } else if v == 3 {
        PitchClass::DSharp
    } else if v == 4 {
        PitchClass::E
    } else if v == 5 {
        PitchClass::F
    } else if v == 6 {
        PitchClass::FSharp
    } else if v == 7 {
        PitchClass::G
    } else if v == 8 {
        PitchClass::GSharp
    } else if v == 9 {
        PitchClass::A
    } else if v == 10 {
        PitchClass::ASharp
    } else {
        PitchClass::B
    }
}

/// The staff position whose index is `n` reduced modulo 7.
pub open spec fn sp_of(n: int) -> StaffPosition {
    let v = n % 7;
    if v == 0 {
        StaffPosition::CPos
    } else if v == 1 {
        StaffPosition::DPos
    } else if v == 2 {
        StaffPosition::EPos
    } else if v == 3 {
        StaffPosition::FPos
    } else if v == 4 {
        StaffPosition::GPos
    } else if v == 5 {
        StaffPosition::APos
    } else {
        StaffPosition::BPos
    }
}

/// `pc_of` inverts `pc_index`, and the other way round on `0..12`.
pub proof fn lemma_pc_index_of(p: PitchClass, n: int)
    ensures
        pc_index(p) < 12,
        pc_of(pc_index(p) as int) == p,
        0 <= n < 12 ==> pc_index(pc_of(n)) == n,
        pc_index(pc_of(n)) == n % 12,
{
}

/// `sp_of` inverts `sp_index`, and the other way round on `0..7`.
pub proof fn lemma_sp_index_of(s: StaffPosition, n: int)
    ensures
        sp_index(s) < 7,
        sp_of(sp_index(s) as int) == s,
        sp_index(sp_of(n)) == n % 7,
{
}

/// Relies on ukebox's `From<Semitones> for PitchClass`: the class of `n` modulo 12.
#[verifier::external_body]
pub(crate) fn pitch_class_from(n: Semitones) -> (r: PitchClass)
    ensures
        r == pc_of(n as int),
{
    PitchClass::from(n)
}

/// Relies on ukebox's `Add<Semitones> for PitchClass`: the class `n` semitones higher.
/// It adds `n` to the class's index in a `u8` first, so the sum must fit.
#[verifier::external_body]
pub(crate) fn pitch_class_plus(p: PitchClass, n: Semitones) -> (r: PitchClass)
    requires
        pc_index(p) + n <= u8::MAX,
    ensures
        r == pc_of(pc_index(p) + n),
{
    p + n
}

/// Relies on ukebox's `Add<StaffSteps> for StaffPosition`: the position `n` letters higher.
/// It adds `n` to the position's index in a `u8` first, so the sum must fit.
#[verifier::external_body]
pub(crate) fn staff_position_plus(s: StaffPosition, n: StaffSteps) -> (r: StaffPosition)
    requires
        sp_index(s) + n <= u8::MAX,
    ensures
        r == sp_of(sp_index(s) + n),
{
    s + n
}

/// The index of a pitch class, as a number of semitones above C.
pub fn semitones_of(p: PitchClass) -> (r: Semitones)
    ensures
        r == pc_index(p),
        r < PITCH_CLASS_COUNT,
{
    match p {
        PitchClass::C => 0,
        PitchClass::CSharp => 1,
        PitchClass::D => 2,
        PitchClass::DSharp => 3,
        PitchClass::E => 4,
        PitchClass::F => 5,
        PitchClass::FSharp => 6,
        PitchClass::G => 7,
        PitchClass::GSharp => 8,
        PitchClass::A => 9,
        PitchClass::ASharp => 10,
        PitchClass::B => 11,
    }
}

/// Whether two pitch classes are the same class.
pub fn same_pitch_class(a: PitchClass, b: PitchClass) -> (r: bool)
    ensures
        r == (a == b),
{
    proof {
        lemma_pc_index_of(a, 0);
        lemma_pc_index_of(b, 0);
    }
    semitones_of(a) == semitones_of(b)
}

} // verus!
