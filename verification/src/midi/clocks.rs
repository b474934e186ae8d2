//! Durations counted in MIDI clocks.

use vstd::prelude::*;

verus! {

/// There are 24 MIDI clocks in every quarter note (12 in an eighth note, 6
/// in a sixteenth, and so on). A time signature uses this to say how often
/// the metronome clicks.
#[derive(Clone, Copy, Debug, PartialEq, Eq, PartialOrd, Ord, Hash, Structural)]
pub enum Clocks {
    /// 142 MIDI clocks.
    DottedWhole,
    /// 96 MIDI clocks.
    Whole,
    /// 72 MIDI clocks.
    DottedHalf,
    /// 48 MIDI clocks.
    Half,
    /// 32 MIDI clocks.
    DottedQuarter,
    /// 24 MIDI clocks.
    Quarter,
    /// 18 MIDI clocks.
    DottedEighth,
    /// 12 MIDI clocks.
    Eighth,
    /// 9 MIDI clocks.
    DottedSixteenth,
    /// 6 MIDI clocks.
    Sixteenth,
    /// Any number of MIDI clocks, for durations not named above.
    Other(u8),
}

impl Clocks {
    /// The number of MIDI clocks.
    pub open spec fn count(self) -> u8 {
        match self {
            Clocks::DottedWhole => 142,
            Clocks::Whole => 96,
            Clocks::DottedHalf => 72,
            Clocks::Half => 48,
            Clocks::DottedQuarter => 32,
            Clocks::Quarter => 24,
            Clocks::DottedEighth => 18,
            Clocks::Eighth => 12,
            Clocks::DottedSixteenth => 9,
            Clocks::Sixteenth => 6,
            Clocks::Other(v) => v,
        }
    }

    /// The value for `v` clocks: a named one where there is one.
    pub open spec fn of_count(v: u8) -> Clocks {
        match v {
            142 => Clocks::DottedWhole,
            96 => Clocks::Whole,
            72 => Clocks::DottedHalf,
            48 => Clocks::Half,
            32 => Clocks::DottedQuarter,
            24 => Clocks::Quarter,
            18 => Clocks::DottedEighth,
            12 => Clocks::Eighth,
            9 => Clocks::DottedSixteenth,
            6 => Clocks::Sixteenth,
            _ => Clocks::Other(v),
        }
    }

    /// Whether the value is the one that `of_count` makes of its count:
    /// an `Other` holds no count that has a name.
    pub open spec fn resolved(self) -> bool {
        Clocks::of_count(self.count()) == self
    }

    /// The value for `v` clocks: one of the named variants if possible,
    /// `Other` if not.
    pub fn from_u8(v: u8) -> (r: Clocks)
        ensures
            r == Clocks::of_count(v),
    {
        match v {
            142 => Clocks::DottedWhole,
            96 => Clocks::Whole,
            72 => Clocks::DottedHalf,
            48 => Clocks::Half,
            32 => Clocks::DottedQuarter,
            24 => Clocks::Quarter,
            18 => Clocks::DottedEighth,
            12 => Clocks::Eighth,
            9 => Clocks::DottedSixteenth,
            6 => Clocks::Sixteenth,
            _ => Clocks::Other(v),
        }
    }

    /// The number of MIDI clocks.
    pub fn to_u8(self) -> (r: u8)
        ensures
            r == self.count(),
    {
        match self {
            Clocks::DottedWhole => 142,
            Clocks::Whole => 96,
            Clocks::DottedHalf => 72,
            Clocks::Half => 48,
            Clocks::DottedQuarter => 32,
            Clocks::Quarter => 24,
            Clocks::DottedEighth => 18,
            Clocks::Eighth => 12,
            Clocks::DottedSixteenth => 9,
            Clocks::Sixteenth => 6,
            Clocks::Other(v) => v,
        }
    }

    /// The value for `clocks` clocks: one of the named variants if
    /// possible, `Other` if not.
    pub fn new(clocks: u8) -> (r: Self)
        ensures
            r == Clocks::of_count(clocks),
    {
        Self::from_u8(clocks)
    }

    /// Turns an `Other` that holds a named count into the named variant.
    /// `Clocks::Other(24)` becomes `Clocks::Quarter`.
    pub fn resolve(&mut self)
        ensures
            *final(self) == Clocks::of_count(old(self).count()),
            final(self).count() == old(self).count(),
            final(self).resolved(),
    {
        *self = Self::from_u8(self.to_u8());
    }

    /// The value made of a count has that count and is resolved.
    pub proof fn lemma_of_count(v: u8)
        ensures
            Clocks::of_count(v).count() == v,
            Clocks::of_count(v).resolved(),
    {
    }
}

impl Default for Clocks {
    fn default() -> (r: Self)
        ensures
            r == Clocks::Quarter,
    {
        Clocks::Quarter
    }
}

} // verus!
