//! A writer into a buffer of bytes that remembers the status byte written
//! last, so that a repeated status byte can be left out where running
//! status is wanted.

use crate::byte_iter::{be16_bytes, be24_bytes, be32_bytes};
use crate::error::{agrees, Error, ErrorKind};
use vstd::prelude::*;

verus! {

/// How a `Scribe` writes.
#[derive(Copy, Clone, Debug, Default, PartialEq, Eq, PartialOrd, Ord, Hash, Structural)]
pub struct ScribeSettings {
    /// Whether a status byte that repeats the one before it is left out.
    pub running_status: bool,
}

/// The state of a writer as contracts speak of it.
pub struct Written {
    /// Everything written so far.
    pub bytes: Seq<u8>,
    /// Whether a status byte that repeats the one before it is left out.
    pub running_status: bool,
    /// The status byte written last, kept only where running status is on.
    pub status: Option<u8>,
}

impl Written {
    /// A writer that has written nothing.
    pub open spec fn fresh(running_status: bool) -> Written {
        Written { bytes: Seq::empty(), running_status, status: None }
    }

    /// The writer after `bytes` more.
    pub open spec fn put(self, bytes: Seq<u8>) -> Written {
        Written { bytes: self.bytes + bytes, ..self }
    }

    /// The status byte that the next one may repeat silently.
    pub open spec fn remembered(self) -> Option<u8> {
        if self.running_status {
            self.status
        } else {
            None
        }
    }

    /// The writer after a status byte: nothing is written where running
    /// status is on and the byte repeats the one before; else the byte is
    /// written, and remembered where running status is on.
    pub open spec fn put_status(self, status: u8) -> Written {
        if self.remembered() == Some(status) {
            self
        } else {
            Written {
                bytes: self.bytes.push(status),
                status: if self.running_status {
                    Some(status)
                } else {
                    self.status
                },
                ..self
            }
        }
    }
}

/// Whether a write did what `s` describes: on success the writer is in
/// the state given, on failure the error is of the kind given and nothing
/// was written.
pub open spec fn written(
    r: Result<(), Error>,
    before: Written,
    after: Written,
    s: Result<Written, ErrorKind>,
) -> bool {
    match s {
        Ok(w) => r is Ok && after == w,
        Err(k) => agrees(r, Err(k)) && after == before,
    }
}

/// A writer into a buffer of bytes, with a setting for running status and
/// a memory of the status byte written last.
pub struct Scribe {
    w: Vec<u8>,
    settings: ScribeSettings,
    running_status_byte: Option<u8>,
}

impl View for Scribe {
    type V = Written;

    closed spec fn view(&self) -> Written {
        Written {
            bytes: self.w@,
            running_status: self.settings.running_status,
            status: self.running_status_byte,
        }
    }
}

impl Scribe {
    /// A writer that goes on after what `w` holds.
    pub fn new(w: Vec<u8>, settings: ScribeSettings) -> (r: Self)
        ensures
            r@ == (Written { bytes: w@, running_status: settings.running_status, status: None }),
    {
        Self { w, settings, running_status_byte: None }
    }

    /// Everything written.
    pub fn into_inner(self) -> (r: Vec<u8>)
        ensures
            r@ == self@.bytes,
    {
        self.w
    }

    /// How many bytes have been written.
    pub fn len(&self) -> (r: usize)
        ensures
            r == self@.bytes.len(),
    {
        self.w.len()
    }

    /// Writes one byte.
    pub fn write_u8(&mut self, value: u8)
        ensures
            final(self)@ == old(self)@.put(seq![value]),
    {
        self.w.push(value);
        assert(self.w@ =~= old(self).w@ + seq![value]);
    }

    /// Writes all of `bytes`.
    pub fn write_all(&mut self, bytes: &[u8])
        ensures
            final(self)@ == old(self)@.put(bytes@),
    {
        self.w.extend_from_slice(bytes);
        assert(self.w@ =~= old(self).w@ + bytes@);
    }

    /// Writes a number as two bytes, the high byte first.
    pub fn write_u16(&mut self, value: u16)
        ensures
            final(self)@ == old(self)@.put(be16_bytes(value)),
    {
        self.w.push((value / 256) as u8);
        self.w.push((value % 256) as u8);
        assert(self.w@ =~= old(self).w@ + be16_bytes(value));
    }

    /// Writes the low three bytes of a number, the highest first.
    pub fn write_u24(&mut self, value: u32)
        ensures
            final(self)@ == old(self)@.put(be24_bytes(value)),
    {
        self.w.push(((value / 65536) % 256) as u8);
        self.w.push(((value / 256) % 256) as u8);
        self.w.push((value % 256) as u8);
        assert(self.w@ =~= old(self).w@ + be24_bytes(value));
    }

    /// Writes a number as four bytes, the highest byte first.
    pub fn write_u32(&mut self, value: u32)
        ensures
            final(self)@ == old(self)@.put(be32_bytes(value)),
    {
        self.w.push((value / 16777216) as u8);
        self.w.push(((value / 65536) % 256) as u8);
        self.w.push(((value / 256) % 256) as u8);
        self.w.push((value % 256) as u8);
        assert(self.w@ =~= old(self).w@ + be32_bytes(value));
    }

    /// Takes back what was written after the first `len` bytes. The memory
    /// of the status byte written last stays as it is.
    pub fn truncate(&mut self, len: usize)
        requires
            len <= old(self)@.bytes.len(),
        ensures
            final(self)@ == (Written {
                bytes: old(self)@.bytes.subrange(0, len as int),
                ..old(self)@
            }),
    {
        self.w.truncate(len);
    }

    /// Writes a status byte. Where running status is on and `status` is
    /// the status byte written last, nothing happens.
    pub fn write_status_byte(&mut self, status: u8)
        ensures
            final(self)@ == old(self)@.put_status(status),
    {
        match self.running_status() {
            Some(previous_status) if previous_status == status => {},
            _ => {
                self.w.push(status);
                self.set_running_status(status);
            },
        }
    }

    /// Where running status is on and a status byte has been written, that
    /// status byte.
    pub fn running_status(&self) -> (r: Option<u8>)
        ensures
            r == self@.remembered(),
    {
        if self.use_running_status() {
            self.running_status_byte
        } else {
            None
        }
    }

    /// Where running status is on, remembers `value` as the status byte
    /// written last; does nothing otherwise.
    pub fn set_running_status(&mut self, value: u8)
        ensures
            final(self)@ == (Written {
                status: if old(self)@.running_status {
                    Some(value)
                } else {
                    old(self)@.status
                },
                ..old(self)@
            }),
    {
        if self.use_running_status() {
            self.running_status_byte = Some(value);
        }
    }

    /// Whether running status is on.
    pub fn use_running_status(&self) -> (r: bool)
        ensures
            r == self@.running_status,
    {
        self.settings.running_status
    }
}

} // verus!
