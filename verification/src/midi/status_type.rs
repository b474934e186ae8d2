//! The kinds of status byte.

use crate::error::{agrees, Defect, Error, ErrorKind};
use vstd::prelude::*;
use vstd::std_specs::convert::TryFromSpecImpl;

verus! {

/// The status byte types of the MIDI standard's "Summary of Status Bytes":
/// the upper four bits of a status byte.
#[derive(Clone, Copy, Debug, PartialEq, Eq, PartialOrd, Ord, Hash, Structural)]
pub enum StatusType {
    /// `0x8`: a `Note Off` message.
    NoteOff,
    /// `0x9`: a `Note On` message (a velocity of 0 means `Note Off`).
    NoteOn,
    /// `0xA`: a `Polyphonic key pressure/Aftertouch` message.
    PolyPressure,
    /// `0xB`: a `Control change` message or a `Channel Mode` message. Channel
    /// Mode messages go under the same status byte as Control Change
    /// messages and are told apart by the first data byte, which is 120 to
    /// 127 for them.
    ControlOrSelectChannelMode,
    /// `0xC`: a `Program change` message.
    Program,
    /// `0xD`: a `Channel pressure/After touch` message.
    ChannelPressure,
    /// `0xE`: a `Pitch bend change` message.
    PitchBend,
    /// `0xF`: a `System Message`.
    System,
}

impl StatusType {
    /// The number that stands for the value on the wire.
    pub open spec fn code(self) -> u8 {
        match self {
            StatusType::NoteOff => 0x8,
            StatusType::NoteOn => 0x9,
            StatusType::PolyPressure => 0xA,
            StatusType::ControlOrSelectChannelMode => 0xB,
            StatusType::Program => 0xC,
            StatusType::ChannelPressure => 0xD,
            StatusType::PitchBend => 0xE,
            StatusType::System => 0xF,
        }
    }

    /// The value that `value` stands for, if it stands for one.
    pub open spec fn of_code(value: u8) -> Option<StatusType> {
        match value {
            0x8 => Some(StatusType::NoteOff),
            0x9 => Some(StatusType::NoteOn),
            0xA => Some(StatusType::PolyPressure),
            0xB => Some(StatusType::ControlOrSelectChannelMode),
            0xC => Some(StatusType::Program),
            0xD => Some(StatusType::ChannelPressure),
            0xE => Some(StatusType::PitchBend),
            0xF => Some(StatusType::System),
            _ => None,
        }
    }

    /// The value that `value` stands for; an invalid-file error where it
    /// stands for none.
    pub fn from_u8(value: u8) -> (r: Result<Self, Error>)
        ensures
            agrees(
                r,
                match Self::of_code(value) {
                    Some(v) => Ok(v),
                    None => Err(ErrorKind::InvalidFile(Defect::UnknownStatus)),
                },
            ),
    {
        match value {
            0x8 => Ok(StatusType::NoteOff),
            0x9 => Ok(StatusType::NoteOn),
            0xA => Ok(StatusType::PolyPressure),
            0xB => Ok(StatusType::ControlOrSelectChannelMode),
            0xC => Ok(StatusType::Program),
            0xD => Ok(StatusType::ChannelPressure),
            0xE => Ok(StatusType::PitchBend),
            0xF => Ok(StatusType::System),
            _ => Err(Error::new(ErrorKind::InvalidFile(Defect::UnknownStatus))),
        }
    }

    /// The number that stands for the value on the wire.
    pub fn to_u8(self) -> (r: u8)
        ensures
            r == self.code(),
    {
        match self {
            StatusType::NoteOff => 0x8,
            StatusType::NoteOn => 0x9,
            StatusType::PolyPressure => 0xA,
            StatusType::ControlOrSelectChannelMode => 0xB,
            StatusType::Program => 0xC,
            StatusType::ChannelPressure => 0xD,
            StatusType::PitchBend => 0xE,
            StatusType::System => 0xF,
        }
    }

    /// A value is the one that its number stands for.
    pub proof fn lemma_of_code(self)
        ensures
            Self::of_code(self.code()) == Some(self),
    {
    }

    /// A number that stands for a value is the number of that value.
    pub proof fn lemma_code_of(value: u8)
        ensures
            Self::of_code(value) matches Some(v) ==> v.code() == value,
    {
    }
}

impl Default for StatusType {
    fn default() -> (r: Self)
        ensures
            r == StatusType::NoteOff,
    {
        StatusType::NoteOff
    }
}

impl TryFrom<u8> for StatusType {
    type Error = Error;

    fn try_from(value: u8) -> (r: Result<Self, Error>)
        ensures
            agrees(
                r,
                match Self::of_code(value) {
                    Some(v) => Ok(v),
                    None => Err(ErrorKind::InvalidFile(Defect::UnknownStatus)),
                },
            ),
    {
        StatusType::from_u8(value)
    }
}

impl TryFromSpecImpl<u8> for StatusType {
    open spec fn obeys_try_from_spec() -> bool {
        false
    }

    open spec fn try_from_spec(value: u8) -> Result<Self, Error> {
        arbitrary()
    }
}

} // verus!
