//! System exclusive events. The format frames them; reading and writing
//! what they carry is not implemented, and both fail.

use crate::byte_iter::ByteIter;
use crate::error::{agrees, agrees_view, Error, ErrorKind, Feature};
use crate::scribe::Scribe;
use vstd::prelude::*;

verus! {

/// A system exclusive event.
#[derive(Clone, Debug, PartialEq, Eq, PartialOrd, Ord, Hash)]
pub struct SysexEvent {
    t: SysexEventType,
    data: Vec<u8>,
}

/// The two forms of a system exclusive event.
#[derive(Clone, Copy, Debug, PartialEq, Eq, PartialOrd, Ord, Hash, Structural)]
pub enum SysexEventType {
    /// `F0 <length> <bytes to be transmitted after F0>`: a complete
    /// message, or the first packet of one.
    F0,
    /// `F7 <length> <all bytes to be transmitted>`: a later packet of a
    /// message, or bytes to be sent as they are.
    F7,
}

/// A system exclusive event as contracts speak of it.
pub struct SysexEventView {
    pub t: SysexEventType,
    pub data: Seq<u8>,
}

impl View for SysexEvent {
    type V = SysexEventView;

    closed spec fn view(&self) -> SysexEventView {
        SysexEventView { t: self.t, data: self.data@ }
    }
}

impl SysexEvent {
    /// Not implemented: fails, and reads nothing.
    pub fn parse(_first_byte: u8, _r: &mut ByteIter) -> (r: Result<Self, Error>)
        ensures
            final(_r)@ == old(_r)@,
            agrees_view(r, Err(ErrorKind::NotImplemented(Feature::Sysex))),
    {
        Err(Error::new(ErrorKind::NotImplemented(Feature::Sysex)))
    }

    /// Not implemented: fails, and writes nothing.
    pub fn write(&self, _w: &mut Scribe) -> (r: Result<(), Error>)
        ensures
            final(_w)@ == old(_w)@,
            agrees(r, Err(ErrorKind::NotImplemented(Feature::Sysex))),
    {
        Err(Error::new(ErrorKind::NotImplemented(Feature::Sysex)))
    }
}

impl Default for SysexEventType {
    fn default() -> (r: Self)
        ensures
            r == SysexEventType::F0,
    {
        SysexEventType::F0
    }
}

impl Default for SysexEvent {
    fn default() -> (r: Self)
        ensures
            r@ == (SysexEventView { t: SysexEventType::F0, data: Seq::empty() }),
    {
        SysexEvent { t: SysexEventType::F0, data: Vec::new() }
    }
}

} // verus!
