//! The division of a file: what its delta-times count.

use crate::byte_iter::be16_bytes;
use crate::error::{agrees, Error, ErrorKind, Feature};
use crate::file::numbers::QuarterNoteDivision;
use crate::scribe::{written, Scribe, Written};
use vstd::prelude::*;
use vstd::std_specs::convert::TryFromSpecImpl;

verus! {

/// The meaning of the delta-times. There is one form for metrical time and
/// one for time-code-based time.
#[derive(Clone, Copy, Debug, PartialEq, Eq, PartialOrd, Ord, Hash, Structural)]
pub enum Division {
    /// Bit 15 of the division word is zero: bits 14 to 0 are the number of
    /// delta-time ticks in a quarter note. With a division of 96, an
    /// eighth note between two events is a delta-time of 48.
    QuarterNote(QuarterNoteDivision),
    /// Bit 15 is one: frames per second and ticks per frame. Reading and
    /// writing this form is not implemented.
    Smpte(SmpteRate),
}

/// The frames per second of the four standard SMPTE and MIDI time code
/// formats.
#[derive(Clone, Copy, Debug, PartialEq, Eq, PartialOrd, Ord, Hash, Structural)]
pub enum FrameRate {
    /// 24 frames per second
    N24,
    /// 25 frames per second
    N25,
    /// 30 frames per second, drop frame
    N29,
    /// 30 frames per second
    N30,
}

/// A time-code-based division.
#[derive(Clone, Copy, Debug, PartialEq, Eq, PartialOrd, Ord, Hash, Structural)]
pub struct SmpteRate {
    /// The number of frames per second.
    pub frame_rate: FrameRate,
    /// The resolution within a frame: typical values are 4 (MIDI time code
    /// resolution), 8, 10, 80 (bit resolution), or 100.
    pub resolution: u8,
}

impl Division {
    /// The division that a division word stands for. A word with bit 15
    /// set is time-code-based, which is not implemented.
    pub open spec fn of_word(value: u16) -> Result<Division, ErrorKind> {
        if value >= 0x8000 {
            Err(ErrorKind::NotImplemented(Feature::SmpteDivision))
        } else {
            Ok(Division::QuarterNote(QuarterNoteDivision::spec_new(value)))
        }
    }

    /// The two bytes of the division in a header.
    pub open spec fn wire(self) -> Result<Seq<u8>, ErrorKind> {
        match self {
            Division::QuarterNote(q) => Ok(be16_bytes(q.value() as u16)),
            Division::Smpte(_) => Err(ErrorKind::NotImplemented(Feature::SmpteDivision)),
        }
    }

    /// The writer after the division, or why it cannot be written.
    pub open spec fn written_to(self, w: Written) -> Result<Written, ErrorKind> {
        match self.wire() {
            Ok(bytes) => Ok(w.put(bytes)),
            Err(e) => Err(e),
        }
    }

    /// The division that a division word stands for.
    pub fn from_u16(value: u16) -> (r: Result<Self, Error>)
        ensures
            agrees(r, Division::of_word(value)),
    {
        if value >= 0x8000 {
            Err(Error::new(ErrorKind::NotImplemented(Feature::SmpteDivision)))
        } else {
            Ok(Division::QuarterNote(QuarterNoteDivision::new(value)))
        }
    }

    /// Writes the division word. Where it cannot be written, nothing is.
    pub fn write(&self, w: &mut Scribe) -> (r: Result<(), Error>)
        ensures
            written(r, old(w)@, final(w)@, self.written_to(old(w)@)),
    {
        match self {
            Division::QuarterNote(q) => {
                w.write_u16(q.get());
                Ok(())
            },
            Division::Smpte(_) => Err(
                Error::new(ErrorKind::NotImplemented(Feature::SmpteDivision)),
            ),
        }
    }
}

impl Default for Division {
    fn default() -> (r: Self)
        ensures
            r == Division::QuarterNote(QuarterNoteDivision::spec_new(1024)),
    {
        Division::QuarterNote(QuarterNoteDivision::new(1024))
    }
}

impl Default for FrameRate {
    fn default() -> (r: Self)
        ensures
            r == FrameRate::N24,
    {
        FrameRate::N24
    }
}

impl Default for SmpteRate {
    /// The millisecond-based division: 25 frames per second, 40 ticks per
    /// frame.
    fn default() -> (r: Self)
        ensures
            r == (SmpteRate { frame_rate: FrameRate::N25, resolution: 40 }),
    {
        SmpteRate { frame_rate: FrameRate::N25, resolution: 40 }
    }
}

impl TryFrom<u16> for Division {
    type Error = Error;

    fn try_from(value: u16) -> (r: Result<Self, Error>)
        ensures
            agrees(
                r,
                Division::of_word(value),
            ),
    {
        Division::from_u16(value)
    }
}

impl TryFromSpecImpl<u16> for Division {
    open spec fn obeys_try_from_spec() -> bool {
        false
    }

    open spec fn try_from_spec(value: u16) -> Result<Self, Error> {
        arbitrary()
    }
}

} // verus!
