//! The names of note durations.

use crate::error::{agrees, Defect, Error, ErrorKind};
use vstd::prelude::*;
use vstd::std_specs::convert::TryFromSpecImpl;

verus! {

/// The denominator of a time signature. The MIDI file format writes it as
/// a negative power of two: 2 stands for a quarter-note, 3 for an
/// eighth-note, and so on.
#[derive(Clone, Copy, Debug, PartialEq, Eq, PartialOrd, Ord, Hash, Structural)]
pub enum DurationName {
    /// Whole Note / Semibreve
    Whole,
    /// Half Note / Minim
    Half,
    /// Quarter Note / Crotchet
    Quarter,
    /// Eighth Note / Quaver
    Eighth,
    /// Sixteenth note / Semiquaver
    Sixteenth,
    /// Thirty-Second Note / Demisemiquaver
    D32,
    /// Sixty-Fourth Note / Hemidemisemiquaver
    D64,
    /// One-Twenty-Eighth Note / Semihemidemisemiquaver
    D128,
    /// Two-Fifty-Sixth Note / Demisemihemidemisemiquaver
    D256,
    /// Five-Twelfth Note
    D512,
    /// One Thousand Twenty-Fourth Note
    D1024,
}

impl DurationName {
    /// The number that stands for the value on the wire.
    pub open spec fn code(self) -> u8 {
        match self {
            DurationName::Whole => 0,
            DurationName::Half => 1,
            DurationName::Quarter => 2,
            DurationName::Eighth => 3,
            DurationName::Sixteenth => 4,
            DurationName::D32 => 5,
            DurationName::D64 => 6,
            DurationName::D128 => 7,
            DurationName::D256 => 8,
            DurationName::D512 => 9,
            DurationName::D1024 => 10,
        }
    }

    /// The value that `value` stands for, if it stands for one.
    pub open spec fn of_code(value: u8) -> Option<DurationName> {
        match value {
            0 => Some(DurationName::Whole),
            1 => Some(DurationName::Half),
            2 => Some(DurationName::Quarter),
            3 => Some(DurationName::Eighth),
            4 => Some(DurationName::Sixteenth),
            5 => Some(DurationName::D32),
            6 => Some(DurationName::D64),
            7 => Some(DurationName::D128),
            8 => Some(DurationName::D256),
            9 => Some(DurationName::D512),
            10 => Some(DurationName::D1024),
            _ => None,
        }
    }

    /// The value that `value` stands for; an invalid-file error where it
    /// stands for none.
    pub fn from_u8(value: u8) -> (r: Result<Self, Error>)
        ensures
            agrees(
                r,
                match Self::of_code(value) {
                    Some(v) => Ok(v),
                    None => Err(ErrorKind::InvalidFile(Defect::UnknownDuration)),
                },
            ),
    {
        match value {
            0 => Ok(DurationName::Whole),
            1 => Ok(DurationName::Half),
            2 => Ok(DurationName::Quarter),
            3 => Ok(DurationName::Eighth),
            4 => Ok(DurationName::Sixteenth),
            5 => Ok(DurationName::D32),
            6 => Ok(DurationName::D64),
            7 => Ok(DurationName::D128),
            8 => Ok(DurationName::D256),
            9 => Ok(DurationName::D512),
            10 => Ok(DurationName::D1024),
            _ => Err(Error::new(ErrorKind::InvalidFile(Defect::UnknownDuration))),
        }
    }

    /// The number that stands for the value on the wire.
    pub fn to_u8(self) -> (r: u8)
        ensures
            r == self.code(),
    {
        match self {
            DurationName::Whole => 0,
            DurationName::Half => 1,
            DurationName::Quarter => 2,
            DurationName::Eighth => 3,
            DurationName::Sixteenth => 4,
            DurationName::D32 => 5,
            DurationName::D64 => 6,
            DurationName::D128 => 7,
            DurationName::D256 => 8,
            DurationName::D512 => 9,
            DurationName::D1024 => 10,
        }
    }

    /// A value is the one that its number stands for.
    pub proof fn lemma_of_code(self)
        ensures
            Self::of_code(self.code()) == Some(self),
    {
    }

    /// A number that stands for a value is the number of that value.
    pub proof fn lemma_code_of(value: u8)
        ensures
            Self::of_code(value) matches Some(v) ==> v.code() == value,
    {
    }
}

impl Default for DurationName {
    fn default() -> (r: Self)
        ensures
            r == DurationName::Quarter,
    {
        DurationName::Quarter
    }
}

impl TryFrom<u8> for DurationName {
    type Error = Error;

    fn try_from(value: u8) -> (r: Result<Self, Error>)
        ensures
            agrees(
                r,
                match Self::of_code(value) {
                    Some(v) => Ok(v),
                    None => Err(ErrorKind::InvalidFile(Defect::UnknownDuration)),
                },
            ),
    {
        DurationName::from_u8(value)
    }
}

impl TryFromSpecImpl<u8> for DurationName {
    open spec fn obeys_try_from_spec() -> bool {
        false
    }

    open spec fn try_from_spec(value: u8) -> Result<Self, Error> {
        arbitrary()
    }
}

} // verus!
