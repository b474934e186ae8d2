//! The header chunk, which opens a file.

use crate::byte_iter::{be16_bytes, be32_bytes};
use crate::error::{agrees, Defect, Error, ErrorKind};
use crate::file::division::Division;
use crate::scribe::{written, Scribe, Written};
use vstd::prelude::*;
use vstd::std_specs::convert::TryFromSpecImpl;

verus! {

/// The four bytes `MThd` that open a header chunk.
pub open spec fn header_tag() -> Seq<u8> {
    seq![0x4du8, 0x54u8, 0x68u8, 0x64u8]
}

/// The header chunk:
/// `<Header Chunk> = <chunk type><length><format><ntrks><division>`.
/// The chunk type is the four ASCII characters `MThd`; the length is the
/// number 6 in 32 bits; the data are three 16-bit words, each with its
/// most significant byte first.
#[derive(Clone, Copy, Debug, PartialEq, Eq, PartialOrd, Ord, Hash, Structural)]
pub struct Header {
    pub format: Format,
    pub division: Division,
}

/// The overall organisation of the file.
#[derive(Clone, Copy, Debug, PartialEq, Eq, PartialOrd, Ord, Hash, Structural)]
pub enum Format {
    /// 0: the file holds a single multi-channel track
    Single,
    /// 1: the file holds one or more simultaneous tracks of a sequence
    Multi,
    /// 2: the file holds one or more sequentially independent single-track
    /// patterns
    Sequential,
}

impl Format {
    /// The format word.
    pub open spec fn code(self) -> u16 {
        match self {
            Format::Single => 0,
            Format::Multi => 1,
            Format::Sequential => 2,
        }
    }

    /// The format that a format word stands for, if it stands for one.
    pub open spec fn of_code(value: u16) -> Option<Format> {
        match value {
            0 => Some(Format::Single),
            1 => Some(Format::Multi),
            2 => Some(Format::Sequential),
            _ => None,
        }
    }

    /// The format that a format word stands for; an invalid-file error
    /// where it stands for none.
    pub fn from_u16(value: u16) -> (r: Result<Self, Error>)
        ensures
            agrees(
                r,
                match Format::of_code(value) {
                    Some(f) => Ok(f),
                    None => Err(ErrorKind::InvalidFile(Defect::UnknownFormat)),
                },
            ),
    {
        match value {
            0 => Ok(Format::Single),
            1 => Ok(Format::Multi),
            2 => Ok(Format::Sequential),
            _ => Err(Error::new(ErrorKind::InvalidFile(Defect::UnknownFormat))),
        }
    }

    /// The format word.
    pub fn to_u16(self) -> (r: u16)
        ensures
            r == self.code(),
    {
        match self {
            Format::Single => 0,
            Format::Multi => 1,
            Format::Sequential => 2,
        }
    }
}

impl Default for Format {
    fn default() -> (r: Self)
        ensures
            r == Format::Multi,
    {
        Format::Multi
    }
}

impl Header {
    /// The bytes of the header chunk of a file with `ntracks` tracks.
    pub open spec fn wire(self, ntracks: u16) -> Result<Seq<u8>, ErrorKind> {
        match self.division.wire() {
            Err(e) => Err(e),
            Ok(division) => Ok(
                header_tag() + be32_bytes(6) + be16_bytes(self.format.code()) + be16_bytes(ntracks)
                    + division,
            ),
        }
    }

    /// The writer after the header chunk, or why it cannot be written.
    pub open spec fn written_to(self, w: Written, ntracks: u16) -> Result<Written, ErrorKind> {
        match self.wire(ntracks) {
            Ok(bytes) => Ok(w.put(bytes)),
            Err(e) => Err(e),
        }
    }

    /// A header.
    pub fn new(format: Format, division: Division) -> (r: Self)
        ensures
            r == (Header { format, division }),
    {
        Self { format, division }
    }

    /// The format.
    pub fn format(&self) -> (r: &Format)
        ensures
            *r == self.format,
    {
        &self.format
    }

    /// The division.
    pub fn division(&self) -> (r: &Division)
        ensures
            *r == self.division,
    {
        &self.division
    }

    /// Writes the header chunk of a file with `ntracks` tracks. Where it
    /// cannot be written, nothing is.
    pub fn write(&self, w: &mut Scribe, ntracks: u16) -> (r: Result<(), Error>)
        ensures
            written(r, old(w)@, final(w)@, self.written_to(old(w)@, ntracks)),
    {
        if let Division::Smpte(_) = self.division {
            return self.division.write(w);
        }
        // the header chunk identifier
        w.write_all(&[0x4d, 0x54, 0x68, 0x64]);
        // the header chunk length (always 6)
        w.write_u32(6);
        // the format indicator
        w.write_u16(self.format.to_u16());
        // the number of tracks
        w.write_u16(ntracks);
        // the division value
        let r = self.division.write(w);
        proof {
            let division = self.division.wire()->Ok_0;
            assert(final(w)@.bytes =~= old(w)@.bytes + (header_tag() + be32_bytes(6) + be16_bytes(
                self.format.code(),
            ) + be16_bytes(ntracks) + division));
        }
        r
    }
}

impl Default for Header {
    fn default() -> (r: Self)
        ensures
            r.format == Format::Multi,
            r.division == Division::QuarterNote(
                crate::file::numbers::QuarterNoteDivision::spec_new(1024),
            ),
    {
        Header { format: Format::default(), division: Division::default() }
    }
}

impl TryFrom<u16> for Format {
    type Error = Error;

    fn try_from(value: u16) -> (r: Result<Self, Error>)
        ensures
            agrees(
                r,
                match Format::of_code(value) {
                    Some(f) => Ok(f),
                    None => Err(ErrorKind::InvalidFile(Defect::UnknownFormat)),
                },
            ),
    {
        Format::from_u16(value)
    }
}

impl TryFromSpecImpl<u16> for Format {
    open spec fn obeys_try_from_spec() -> bool {
        false
    }

    open spec fn try_from_spec(value: u16) -> Result<Self, Error> {
        arbitrary()
    }
}

} // verus!
