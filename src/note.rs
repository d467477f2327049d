use vstd::prelude::*;

verus! {

/// Number of subdivisions of one beat in which note lengths are counted.
///
/// The shortest length, an octet, is one subdivision; every other length is a
/// whole number of them, so all lengths are exact.
pub const BEAT_DIVISIONS: u32 = 80;

/// The closed set of note lengths, each a fixed number of beats.
#[derive(Debug, Clone, Copy, PartialEq, Eq, Structural)]
pub enum ToneLength {
    Four,
    FourDot,
    Two,
    TwoDot,
    Full,
    FullDot,
    Half,
    HalfDot,
    Quarter,
    QuarterDot,
    Octet,
}

/// Length of `l` in beat subdivisions (`BEAT_DIVISIONS` per beat).
pub open spec fn length_divisions(l: ToneLength) -> nat {
    match l {
        ToneLength::Four => 320,
        ToneLength::FourDot => 480,
        ToneLength::Two => 160,
        ToneLength::TwoDot => 240,
        ToneLength::Full => 80,
        ToneLength::FullDot => 120,
        ToneLength::Half => 40,
        ToneLength::HalfDot => 60,
        ToneLength::Quarter => 20,
        ToneLength::QuarterDot => 21,
        ToneLength::Octet => 1,
    }
}

/// One note of a melody.
#[derive(Debug, Clone, Copy, PartialEq, Eq, Structural)]
pub struct Note {
    /// Pitch as a ratio to the reference tone A, in thousandths
    /// (`PITCH_SCALE` stands for a ratio of one).
    pub pitch_relative_to_a: u32,
    pub length: ToneLength,
}

/// The value of `pitch_relative_to_a` that stands for the reference tone itself.
pub const PITCH_SCALE: u32 = 1000;

impl Note {
    /// Length of the note in beat subdivisions: a whole beat is
    /// `BEAT_DIVISIONS`, and a dotted length is half again its base length.
    pub fn beats(self) -> (r: u32)
        ensures
            r as nat == length_divisions(self.length),
            0 < r <= 480,
    {
        match self.length {
            ToneLength::Four => 320,
            ToneLength::FourDot => 480,
            ToneLength::Two => 160,
            ToneLength::TwoDot => 240,
            ToneLength::Full => 80,
            ToneLength::FullDot => 120,
            ToneLength::Half => 40,
            ToneLength::HalfDot => 60,
            ToneLength::Quarter => 20,
            ToneLength::QuarterDot => 21,
            ToneLength::Octet => 1,
        }
    }
}

} // verus!
