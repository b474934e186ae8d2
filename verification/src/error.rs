//! The error type of the library: what went wrong, where in the input it
//! went wrong, and a description for a human reader.

use crate::vlq::VlqError;
use vstd::prelude::*;
use vstd::string::*;

verus! {

/// A way in which a file can be structurally readable and still break the
/// format's rules.
#[derive(Clone, Copy, Debug, PartialEq, Eq, Hash, Structural)]
pub enum Defect {
    /// The caller's description says what is wrong.
    Described,
    /// The header chunk declares a length other than `6`.
    HeaderLength,
    /// The format word is none of `0`, `1`, `2`.
    UnknownFormat,
    /// The file declares format `0` and more than one track.
    TooManyTracksForFormat,
    /// A value that is not the upper nibble of any status byte.
    UnknownStatus,
    /// A controller number above `119`.
    UnknownControl,
    /// A meta-event type byte that the format does not define.
    UnknownMetaType,
    /// A time signature denominator beyond the named durations.
    UnknownDuration,
    /// A data byte stands where a status byte is due, and no earlier
    /// status byte exists that it could continue.
    NoRunningStatus,
    /// The declared length of a track chunk was used up before an
    /// end-of-track event was read.
    TrackTruncated,
    /// An end-of-track event was read before the declared length of the
    /// track chunk was used up.
    EarlyEndOfTrack,
}

/// A part of the format that this library recognizes and does not handle.
#[derive(Clone, Copy, Debug, PartialEq, Eq, Hash, Structural)]
pub enum Feature {
    Sysex,
    SmpteDivision,
    ChannelPressure,
    PitchBend,
    SystemMessage,
    SequenceNumber,
    SequencerSpecific,
}

/// What went wrong. Where the failure belongs to a place in the input,
/// `position` is the zero-based index of the byte read last (the length of
/// the input, where the read ran past its end).
#[derive(Clone, Copy, Debug, PartialEq, Eq, Hash, Structural)]
pub enum ErrorKind {
    /// Fewer bytes were available than required.
    EndOfInput { position: u64 },
    /// A four-byte chunk tag was expected and something else was found.
    TagMismatch { position: u64 },
    /// A byte with a fixed value was expected and another was found.
    UnexpectedByte { expected: u8, found: u8, position: u64 },
    /// A variable-length quantity went on for more than five bytes.
    VlqTooLong { position: u64 },
    /// A variable-length quantity could not be decoded.
    Vlq { error: VlqError, position: u64 },
    /// The input can be read and breaks the rules of the format.
    InvalidFile(Defect),
    /// The input uses a part of the format that is not handled.
    NotImplemented(Feature),
    /// More tracks than the 16-bit track count can hold.
    TooManyTracks,
    /// A track whose bytes outgrow the 32-bit chunk length.
    TrackTooLong,
    /// A text whose bytes outgrow the 32-bit length.
    StringTooLong,
    /// A request that the data at hand cannot meet, such as an index out
    /// of range.
    Other,
}

/// The description that the library gives to an error of each kind.
pub open spec fn describe(kind: ErrorKind) -> Seq<char> {
    match kind {
        ErrorKind::EndOfInput { .. } => "unexpected end of input"@,
        ErrorKind::TagMismatch { .. } => "chunk tag not found"@,
        ErrorKind::UnexpectedByte { .. } => "incorrect byte value"@,
        ErrorKind::VlqTooLong { .. } => "too many bytes in a variable-length quantity"@,
        ErrorKind::Vlq { .. } => "undecodable variable-length quantity"@,
        ErrorKind::InvalidFile(defect) => match defect {
            Defect::Described => "[no description]"@,
            Defect::HeaderLength => "the header chunk length is not 6"@,
            Defect::UnknownFormat => "unrecognized format"@,
            Defect::TooManyTracksForFormat => "more than one track in a single-track file"@,
            Defect::UnknownStatus => "unrecognized status byte"@,
            Defect::UnknownControl => "unrecognized controller number"@,
            Defect::UnknownMetaType => "unrecognized meta-event type"@,
            Defect::UnknownDuration => "unrecognized time signature denominator"@,
            Defect::NoRunningStatus => "running status without an earlier status byte"@,
            Defect::TrackTruncated => "end of track bytes reached before EndOfTrack event"@,
            Defect::EarlyEndOfTrack => "EndOfTrack event before end of track bytes"@,
        },
        ErrorKind::NotImplemented(_) => "not implemented"@,
        ErrorKind::TooManyTracks => "too many tracks for a 16-bit count"@,
        ErrorKind::TrackTooLong => "the track is too long for a 32-bit length"@,
        ErrorKind::StringTooLong => "the string is too long for a 32-bit length"@,
        ErrorKind::Other => "unknown error"@,
    }
}

/// The error type of this library.
#[derive(Clone, Debug)]
pub struct Error {
    kind: ErrorKind,
    description: String,
}

/// An error as contracts speak of it.
pub struct Failure {
    pub kind: ErrorKind,
    pub description: Seq<char>,
}

impl View for Error {
    type V = Failure;

    closed spec fn view(&self) -> Failure {
        Failure { kind: self.kind, description: self.description@ }
    }
}

impl Error {
    /// An error of the given kind, with the library's description of it.
    pub fn new(kind: ErrorKind) -> (e: Error)
        ensures
            e@.kind == kind,
            e@.description == describe(kind),
    {
        let text = match kind {
            ErrorKind::EndOfInput { .. } => "unexpected end of input",
            ErrorKind::TagMismatch { .. } => "chunk tag not found",
            ErrorKind::UnexpectedByte { .. } => "incorrect byte value",
            ErrorKind::VlqTooLong { .. } => "too many bytes in a variable-length quantity",
            ErrorKind::Vlq { .. } => "undecodable variable-length quantity",
            ErrorKind::InvalidFile(defect) => match defect {
                Defect::Described => "[no description]",
                Defect::HeaderLength => "the header chunk length is not 6",
                Defect::UnknownFormat => "unrecognized format",
                Defect::TooManyTracksForFormat => "more than one track in a single-track file",
                Defect::UnknownStatus => "unrecognized status byte",
                Defect::UnknownControl => "unrecognized controller number",
                Defect::UnknownMetaType => "unrecognized meta-event type",
                Defect::UnknownDuration => "unrecognized time signature denominator",
                Defect::NoRunningStatus => "running status without an earlier status byte",
                Defect::TrackTruncated => "end of track bytes reached before EndOfTrack event",
                Defect::EarlyEndOfTrack => "EndOfTrack event before end of track bytes",
            },
            ErrorKind::NotImplemented(_) => "not implemented",
            ErrorKind::TooManyTracks => "too many tracks for a 16-bit count",
            ErrorKind::TrackTooLong => "the track is too long for a 32-bit length",
            ErrorKind::StringTooLong => "the string is too long for a 32-bit length",
            ErrorKind::Other => "unknown error",
        };
        Error { kind, description: String::from_str(text) }
    }

    /// An invalid-file error that carries the caller's own description.
    pub fn invalid_file(description: &str) -> (e: Error)
        ensures
            e@.kind == ErrorKind::InvalidFile(Defect::Described),
            e@.description == description@,
    {
        Error {
            kind: ErrorKind::InvalidFile(Defect::Described),
            description: String::from_str(description),
        }
    }

    /// What went wrong.
    pub fn kind(&self) -> (k: ErrorKind)
        ensures
            k == self@.kind,
    {
        self.kind
    }

    /// The message of the error for a human reader.
    pub fn message(&self) -> (r: String)
        ensures
            r@ == message_of(self@),
    {
        match self.kind {
            ErrorKind::InvalidFile(_) => String::from_str("The MIDI file is invalid: ").concat(
                self.description.as_str(),
            ),
            _ => self.description.clone(),
        }
    }

    /// The description for a human reader.
    pub fn description(&self) -> (d: &str)
        ensures
            d@ == self@.description,
    {
        self.description.as_str()
    }
}

/// The message of an error: its description, which for an invalid file
/// follows the words that say so.
pub open spec fn message_of(failure: Failure) -> Seq<char> {
    match failure.kind {
        ErrorKind::InvalidFile(_) => "The MIDI file is invalid: "@ + failure.description,
        _ => failure.description,
    }
}

/// Whether a result is the one that `s` describes: the same value, or an
/// error of the given kind with the library's description of it.
pub open spec fn agrees<T>(r: Result<T, Error>, s: Result<T, ErrorKind>) -> bool {
    match (r, s) {
        (Ok(a), Ok(b)) => a == b,
        (Err(e), Err(k)) => e@.kind == k && e@.description == describe(k),
        _ => false,
    }
}

/// As `agrees`, for a value that contracts speak of by its view.
pub open spec fn agrees_view<T: View>(r: Result<T, Error>, s: Result<T::V, ErrorKind>) -> bool {
    match (r, s) {
        (Ok(a), Ok(b)) => a@ == b,
        (Err(e), Err(k)) => e@.kind == k && e@.description == describe(k),
        _ => false,
    }
}

} // verus!
