//! Meta-events: the events of a track that exist only in files, such as
//! names, lyrics, tempo and time signature, and the end of the track.
//!
//! On the wire a meta-event is `FF`, a type byte, the length of its data,
//! and the data. The length of a text is a variable-length quantity; the
//! other events have a fixed length, which is a single byte.

use crate::byte_iter::{be24, be24_bytes, ByteIter, Cursor, Parsed};
use crate::error::{agrees, agrees_view, Defect, Error, ErrorKind, Feature};
use crate::file::numbers::{KeyAccidentals, MicrosecondsPerQuarter};
use crate::midi::clocks::Clocks;
use crate::midi::duration_name::DurationName;
use crate::midi::numbers::{Channel, PortValue};
use crate::scribe::{written, Scribe, Written};
use crate::text::{text_of, Text, TextView};
use crate::vlq::{encode_u32, encoding};
use vstd::prelude::*;

verus! {

pub const META_SEQUENCE_NUM: u8 = 0x00;

pub const META_TEXT: u8 = 0x01;

pub const META_COPYRIGHT: u8 = 0x02;

pub const META_TRACK_NAME: u8 = 0x03;

pub const META_INSTR_NAME: u8 = 0x04;

pub const META_LYRIC: u8 = 0x05;

pub const META_MARKER: u8 = 0x06;

pub const META_CUE_POINT: u8 = 0x07;

pub const META_PROG_NAME: u8 = 0x08;

pub const META_DEVICE_NAME: u8 = 0x09;

pub const META_CHAN_PREFIX: u8 = 0x20;

pub const META_PORT: u8 = 0x21;

pub const META_END_OF_TRACK: u8 = 0x2f;

pub const META_SET_TEMPO: u8 = 0x51;

pub const META_SMTPE_OFFSET: u8 = 0x54;

pub const META_TIME_SIG: u8 = 0x58;

pub const META_KEY_SIG: u8 = 0x59;

pub const META_SEQ_SPECIFIC: u8 = 0x7f;

pub const LEN_META_CHAN_PREFIX: u8 = 1;

pub const LEN_META_PORT: u8 = 1;

pub const LEN_META_END_OF_TRACK: u8 = 0;

pub const LEN_META_SET_TEMPO: u8 = 3;

pub const LEN_META_SMTPE_OFFSET: u8 = 5;

pub const LEN_META_TIME_SIG: u8 = 4;

pub const LEN_META_KEY_SIG: u8 = 2;

/// A meta-event.
#[derive(Clone, Debug, PartialEq, Eq, PartialOrd, Ord, Hash)]
pub enum MetaEvent {
    /// `FF 00 02 ssss`: the number of a sequence. Not implemented.
    SequenceNumber,
    /// `FF 01 len text`: any amount of text describing anything.
    OtherText(Text),
    /// `FF 02 len text`: a copyright notice.
    Copyright(Text),
    /// `FF 03 len text`: the name of the sequence or of the track.
    TrackName(Text),
    /// `FF 04 len text`: the kind of instrumentation to be used in the
    /// track.
    InstrumentName(Text),
    /// `FF 05 len text`: a lyric to be sung, most often one syllable.
    Lyric(Text),
    /// `FF 06 len text`: the name of a point in the sequence, such as a
    /// rehearsal letter.
    Marker(Text),
    /// `FF 07 len text`: what happens on a film, video screen or stage at
    /// this point of the score.
    CuePoint(Text),
    /// `FF 08 len text`: the name of a program.
    ProgramName(Text),
    /// `FF 09 len text`: the name of a device.
    DeviceName(Text),
    /// `FF 20 01 cc`: the MIDI channel for the events that follow, until
    /// the next event that names a channel.
    MidiChannelPrefix(Channel),
    /// `FF 2F 00`: the end of the track. Every track has one, as its last
    /// event.
    EndOfTrack,
    /// `FF 51 03 tttttt`: the tempo, in microseconds per quarter note.
    SetTempo(MicrosecondsPerQuarter),
    /// `FF 54 05 hr mn se fr ff`: the SMPTE time at which the track is to
    /// start.
    SmpteOffset(SmpteOffsetValue),
    /// `FF 58 04 nn dd cc bb`: the time signature.
    TimeSignature(TimeSignatureValue),
    /// `FF 59 02 sf mi`: the key signature, as a number of flats or sharps
    /// and major or minor.
    KeySignature(KeySignatureValue),
    /// `FF 7F len data`: data for a particular sequencer. Not implemented.
    Sequencer,
    /// `FF 21 01 pp`: the port.
    Port(PortValue),
}

/// A meta-event as contracts speak of it.
pub enum MetaEventView {
    SequenceNumber,
    OtherText(TextView),
    Copyright(TextView),
    TrackName(TextView),
    InstrumentName(TextView),
    Lyric(TextView),
    Marker(TextView),
    CuePoint(TextView),
    ProgramName(TextView),
    DeviceName(TextView),
    MidiChannelPrefix(Channel),
    EndOfTrack,
    SetTempo(MicrosecondsPerQuarter),
    SmpteOffset(SmpteOffsetValue),
    TimeSignature(TimeSignatureValue),
    KeySignature(KeySignatureValue),
    Sequencer,
    Port(PortValue),
}

impl View for MetaEvent {
    type V = MetaEventView;

    open spec fn view(&self) -> MetaEventView {
        match self {
            MetaEvent::SequenceNumber => MetaEventView::SequenceNumber,
            MetaEvent::OtherText(s) => MetaEventView::OtherText(s@),
            MetaEvent::Copyright(s) => MetaEventView::Copyright(s@),
            MetaEvent::TrackName(s) => MetaEventView::TrackName(s@),
            MetaEvent::InstrumentName(s) => MetaEventView::InstrumentName(s@),
            MetaEvent::Lyric(s) => MetaEventView::Lyric(s@),
            MetaEvent::Marker(s) => MetaEventView::Marker(s@),
            MetaEvent::CuePoint(s) => MetaEventView::CuePoint(s@),
            MetaEvent::ProgramName(s) => MetaEventView::ProgramName(s@),
            MetaEvent::DeviceName(s) => MetaEventView::DeviceName(s@),
            MetaEvent::MidiChannelPrefix(c) => MetaEventView::MidiChannelPrefix(*c),
            MetaEvent::EndOfTrack => MetaEventView::EndOfTrack,
            MetaEvent::SetTempo(t) => MetaEventView::SetTempo(*t),
            MetaEvent::SmpteOffset(v) => MetaEventView::SmpteOffset(*v),
            MetaEvent::TimeSignature(v) => MetaEventView::TimeSignature(*v),
            MetaEvent::KeySignature(v) => MetaEventView::KeySignature(*v),
            MetaEvent::Sequencer => MetaEventView::Sequencer,
            MetaEvent::Port(p) => MetaEventView::Port(*p),
        }
    }
}

/// The five bytes of an SMPTE offset, held as they are.
#[derive(Clone, Copy, Debug, Default, PartialEq, Eq, PartialOrd, Ord, Hash, Structural)]
pub struct SmpteOffsetValue {
    pub hr: u8,
    pub mn: u8,
    pub se: u8,
    pub fr: u8,
    pub ff: u8,
}

/// A time signature.
#[derive(Clone, Copy, Debug, PartialEq, Eq, PartialOrd, Ord, Hash, Structural)]
pub struct TimeSignatureValue {
    /// The upper part of a time signature: in 6/8, the numerator is 6.
    pub numerator: u8,
    /// The lower part of a time signature: in 6/8, the denominator is
    /// `DurationName::Eighth`.
    pub denominator: DurationName,
    /// The number of MIDI clocks in a metronome click. This says on which
    /// beats of the bar a metronome clicks; it has nothing to do with the
    /// tempo.
    pub click: Clocks,
    /// The number of notated 32nd notes in what MIDI takes for a quarter
    /// note, which is 24 MIDI clocks.
    pub tpq: u8,
}

/// Major or minor.
#[derive(Clone, Copy, Debug, PartialEq, Eq, PartialOrd, Ord, Hash, Structural)]
pub enum KeyMode {
    Major,
    Minor,
}

/// A key signature.
#[derive(Clone, Copy, Debug, PartialEq, Eq, PartialOrd, Ord, Hash, Structural)]
pub struct KeySignatureValue {
    pub accidentals: KeyAccidentals,
    pub mode: KeyMode,
}

/// The signed number that a byte holds in two's complement.
pub open spec fn signed(byte: u8) -> i8 {
    if byte >= 128 {
        (byte - 256) as i8
    } else {
        byte as i8
    }
}

/// The byte that holds a signed number in two's complement.
pub open spec fn unsigned(value: int) -> u8 {
    if value < 0 {
        (value + 256) as u8
    } else {
        value as u8
    }
}

/// The text event of the type byte `text_type`, which is `01` to `09`.
pub open spec fn text_event(text_type: u8, text: TextView) -> Option<MetaEventView> {
    match text_type {
        0x01 => Some(MetaEventView::OtherText(text)),
        0x02 => Some(MetaEventView::Copyright(text)),
        0x03 => Some(MetaEventView::TrackName(text)),
        0x04 => Some(MetaEventView::InstrumentName(text)),
        0x05 => Some(MetaEventView::Lyric(text)),
        0x06 => Some(MetaEventView::Marker(text)),
        0x07 => Some(MetaEventView::CuePoint(text)),
        0x08 => Some(MetaEventView::ProgramName(text)),
        0x09 => Some(MetaEventView::DeviceName(text)),
        _ => None,
    }
}

/// A text event on the wire, where the length of the text fits in 32 bits.
pub open spec fn text_wire(text_type: u8, text: TextView) -> Result<Seq<u8>, ErrorKind> {
    if text.bytes.len() > u32::MAX {
        Err(ErrorKind::StringTooLong)
    } else {
        Ok(seq![0xffu8, text_type] + encoding(text.bytes.len() as u32) + text.bytes)
    }
}

/// The mode of a key signature on the wire.
pub open spec fn mode_byte(mode: KeyMode) -> u8 {
    match mode {
        KeyMode::Major => 0,
        KeyMode::Minor => 1,
    }
}

impl MetaEventView {
    /// The event on the wire. Events that cannot be written have no bytes.
    pub open spec fn wire(self) -> Result<Seq<u8>, ErrorKind> {
        match self {
            MetaEventView::SequenceNumber => Err(
                ErrorKind::NotImplemented(Feature::SequenceNumber),
            ),
            MetaEventView::OtherText(s) => text_wire(0x01, s),
            MetaEventView::Copyright(s) => text_wire(0x02, s),
            MetaEventView::TrackName(s) => text_wire(0x03, s),
            MetaEventView::InstrumentName(s) => text_wire(0x04, s),
            MetaEventView::Lyric(s) => text_wire(0x05, s),
            MetaEventView::Marker(s) => text_wire(0x06, s),
            MetaEventView::CuePoint(s) => text_wire(0x07, s),
            MetaEventView::ProgramName(s) => text_wire(0x08, s),
            MetaEventView::DeviceName(s) => text_wire(0x09, s),
            MetaEventView::MidiChannelPrefix(channel) => Ok(
                seq![0xffu8, 0x20u8, 1u8, channel.value() as u8],
            ),
            MetaEventView::EndOfTrack => Ok(seq![0xffu8, 0x2fu8, 0u8]),
            MetaEventView::SetTempo(value) => Ok(
                seq![0xffu8, 0x51u8, 3u8] + be24_bytes(value.value() as u32),
            ),
            MetaEventView::SmpteOffset(v) => Ok(
                seq![0xffu8, 0x54u8, 5u8, v.hr, v.mn, v.se, v.fr, v.ff],
            ),
            MetaEventView::TimeSignature(v) => Ok(
                seq![
                    0xffu8,
                    0x58u8,
                    4u8,
                    v.numerator,
                    v.denominator.code(),
                    v.click.count(),
                    v.tpq,
                ],
            ),
            MetaEventView::KeySignature(v) => Ok(
                seq![0xffu8, 0x59u8, 2u8, unsigned(v.accidentals.value()), mode_byte(v.mode)],
            ),
            MetaEventView::Sequencer => Err(ErrorKind::NotImplemented(Feature::SequencerSpecific)),
            MetaEventView::Port(value) => Ok(seq![0xffu8, 0x21u8, 1u8, value.value() as u8]),
        }
    }

    /// The writer after the event, or why the event cannot be written.
    pub open spec fn written_to(self, w: Written) -> Result<Written, ErrorKind> {
        match self.wire() {
            Ok(bytes) => Ok(w.put(bytes)),
            Err(e) => Err(e),
        }
    }
}

/// Reading the length byte `length` and then one byte of data.
pub open spec fn spec_parse_one_byte(c: Cursor, length: u8) -> Parsed<u8> {
    let len = c.read_expect(length);
    match len.result {
        Err(e) => Parsed { cursor: len.cursor, result: Err(e) },
        Ok(_) => len.cursor.read_or_die(),
    }
}

/// Reading the end of an end-of-track event: the length, which is zero.
pub open spec fn spec_parse_end_of_track(c: Cursor) -> Parsed<MetaEventView> {
    let len = c.read_expect(0);
    match len.result {
        Err(e) => Parsed { cursor: len.cursor, result: Err(e) },
        Ok(_) => Parsed { cursor: len.cursor, result: Ok(MetaEventView::EndOfTrack) },
    }
}

/// Reading a text event after its type byte, which is the current byte:
/// the length, then as many bytes of text.
pub open spec fn spec_parse_text(c: Cursor) -> Parsed<MetaEventView> {
    match c.current() {
        None => Parsed { cursor: c, result: Err(ErrorKind::Other) },
        Some(text_type) => {
            let length = c.read_vlq_u32();
            match length.result {
                Err(e) => Parsed { cursor: length.cursor, result: Err(e) },
                Ok(n) => {
                    let bytes = length.cursor.take(n as nat);
                    match bytes.result {
                        Err(e) => Parsed { cursor: bytes.cursor, result: Err(e) },
                        Ok(b) => match text_event(text_type, text_of(b)) {
                            Some(event) => Parsed { cursor: bytes.cursor, result: Ok(event) },
                            None => Parsed {
                                cursor: bytes.cursor,
                                result: Err(ErrorKind::InvalidFile(Defect::UnknownMetaType)),
                            },
                        },
                    }
                },
            }
        },
    }
}

/// Reading a tempo: the length, which is three, and a 24-bit number.
pub open spec fn spec_parse_tempo(c: Cursor) -> Parsed<MicrosecondsPerQuarter> {
    let len = c.read_expect(3);
    match len.result {
        Err(e) => Parsed { cursor: len.cursor, result: Err(e) },
        Ok(_) => {
            let bytes = len.cursor.take(3);
            match bytes.result {
                Err(e) => Parsed { cursor: bytes.cursor, result: Err(e) },
                Ok(b) => Parsed {
                    cursor: bytes.cursor,
                    result: Ok(MicrosecondsPerQuarter::spec_new(be24(b))),
                },
            }
        },
    }
}

/// Reading an SMPTE offset: the length, which is five, and five bytes.
pub open spec fn spec_parse_smpte_offset(c: Cursor) -> Parsed<SmpteOffsetValue> {
    let len = c.read_expect(5);
    match len.result {
        Err(e) => Parsed { cursor: len.cursor, result: Err(e) },
        Ok(_) => {
            let bytes = len.cursor.take(5);
            match bytes.result {
                Err(e) => Parsed { cursor: bytes.cursor, result: Err(e) },
                Ok(b) => Parsed {
                    cursor: bytes.cursor,
                    result: Ok(
                        SmpteOffsetValue { hr: b[0], mn: b[1], se: b[2], fr: b[3], ff: b[4] },
                    ),
                },
            }
        },
    }
}

/// Reading a time signature: the length, which is four; the numerator; the
/// denominator, which must name a duration; the clocks per click; the
/// 32nd notes per quarter.
pub open spec fn spec_parse_time_signature(c: Cursor) -> Parsed<TimeSignatureValue> {
    let len = c.read_expect(4);
    match len.result {
        Err(e) => Parsed { cursor: len.cursor, result: Err(e) },
        Ok(_) => {
            let head = len.cursor.take(2);
            match head.result {
                Err(e) => Parsed { cursor: head.cursor, result: Err(e) },
                Ok(h) => match DurationName::of_code(h[1]) {
                    None => Parsed {
                        cursor: head.cursor,
                        result: Err(ErrorKind::InvalidFile(Defect::UnknownDuration)),
                    },
                    Some(denominator) => {
                        let tail = head.cursor.take(2);
                        match tail.result {
                            Err(e) => Parsed { cursor: tail.cursor, result: Err(e) },
                            Ok(t) => Parsed {
                                cursor: tail.cursor,
                                result: Ok(
                                    TimeSignatureValue {
                                        numerator: h[0],
                                        denominator,
                                        click: Clocks::of_count(t[0]),
                                        tpq: t[1],
                                    },
                                ),
                            },
                        }
                    },
                },
            }
        },
    }
}

/// The mode that a mode byte stands for: `1` is minor, all else is major.
pub open spec fn mode_of(byte: u8) -> KeyMode {
    if byte == 1 {
        KeyMode::Minor
    } else {
        KeyMode::Major
    }
}

/// Reading a key signature: the length, which is two; the accidentals, a
/// signed byte; the mode.
pub open spec fn spec_parse_key_signature(c: Cursor) -> Parsed<KeySignatureValue> {
    let len = c.read_expect(2);
    match len.result {
        Err(e) => Parsed { cursor: len.cursor, result: Err(e) },
        Ok(_) => {
            let bytes = len.cursor.take(2);
            match bytes.result {
                Err(e) => Parsed { cursor: bytes.cursor, result: Err(e) },
                Ok(b) => Parsed {
                    cursor: bytes.cursor,
                    result: Ok(
                        KeySignatureValue {
                            accidentals: KeyAccidentals::spec_new(signed(b[0])),
                            mode: mode_of(b[1]),
                        },
                    ),
                },
            }
        },
    }
}

/// Reading the data of the meta-event with the type byte `meta_type`.
pub open spec fn spec_parse_meta_body(c: Cursor, meta_type: u8) -> Parsed<MetaEventView> {
    if meta_type == 0x00 {
        Parsed { cursor: c, result: Err(ErrorKind::NotImplemented(Feature::SequenceNumber)) }
    } else if 0x01 <= meta_type <= 0x09 {
        spec_parse_text(c)
    } else if meta_type == 0x20 {
        let data = spec_parse_one_byte(c, 1);
        match data.result {
            Err(e) => Parsed { cursor: data.cursor, result: Err(e) },
            Ok(b) => Parsed {
                cursor: data.cursor,
                result: Ok(MetaEventView::MidiChannelPrefix(Channel::spec_new(b))),
            },
        }
    } else if meta_type == 0x21 {
        let data = spec_parse_one_byte(c, 1);
        match data.result {
            Err(e) => Parsed { cursor: data.cursor, result: Err(e) },
            Ok(b) => Parsed {
                cursor: data.cursor,
                result: Ok(MetaEventView::Port(PortValue::spec_new(b))),
            },
        }
    } else if meta_type == 0x2f {
        spec_parse_end_of_track(c)
    } else if meta_type == 0x51 {
        let tempo = spec_parse_tempo(c);
        match tempo.result {
            Err(e) => Parsed { cursor: tempo.cursor, result: Err(e) },
            Ok(t) => Parsed { cursor: tempo.cursor, result: Ok(MetaEventView::SetTempo(t)) },
        }
    } else if meta_type == 0x54 {
        let offset = spec_parse_smpte_offset(c);
        match offset.result {
            Err(e) => Parsed { cursor: offset.cursor, result: Err(e) },
            Ok(v) => Parsed { cursor: offset.cursor, result: Ok(MetaEventView::SmpteOffset(v)) },
        }
    } else if meta_type == 0x58 {
        let signature = spec_parse_time_signature(c);
        match signature.result {
            Err(e) => Parsed { cursor: signature.cursor, result: Err(e) },
            Ok(v) => Parsed {
                cursor: signature.cursor,
                result: Ok(MetaEventView::TimeSignature(v)),
            },
        }
    } else if meta_type == 0x59 {
        let signature = spec_parse_key_signature(c);
        match signature.result {
            Err(e) => Parsed { cursor: signature.cursor, result: Err(e) },
            Ok(v) => Parsed {
                cursor: signature.cursor,
                result: Ok(MetaEventView::KeySignature(v)),
            },
        }
    } else if meta_type == 0x7f {
        Parsed { cursor: c, result: Err(ErrorKind::NotImplemented(Feature::SequencerSpecific)) }
    } else {
        Parsed { cursor: c, result: Err(ErrorKind::InvalidFile(Defect::UnknownMetaType)) }
    }
}

/// Reading one meta-event: `FF`, the type byte, and the data that the type
/// calls for.
#[verifier::opaque]
pub open spec fn spec_parse_meta(c: Cursor) -> Parsed<MetaEventView> {
    let mark = c.read_expect(0xff);
    match mark.result {
        Err(e) => Parsed { cursor: mark.cursor, result: Err(e) },
        Ok(_) => {
            let meta_type = mark.cursor.read_or_die();
            match meta_type.result {
                Err(e) => Parsed { cursor: meta_type.cursor, result: Err(e) },
                Ok(t) => spec_parse_meta_body(meta_type.cursor, t),
            }
        },
    }
}

/// Reading a meta-event is reading alone, and a meta-event is read only
/// where no read has run into the end of the source.
pub proof fn lemma_parse_meta_follows(c: Cursor)
    ensures
        spec_parse_meta(c).cursor.follows(c),
        spec_parse_meta(c).result is Ok ==> spec_parse_meta(c).cursor.exhausted == c.exhausted,
{
    reveal(spec_parse_meta);
    let mark = c.read_expect(0xff);
    if mark.result is Ok {
        let meta_type = mark.cursor.read_or_die();
        if let Ok(t) = meta_type.result {
            let body = meta_type.cursor;
            if 0x01 <= t <= 0x09 {
                body.lemma_read_vlq_follows();
                let length = body.read_vlq_u32();
                if let Ok(n) = length.result {
                    length.cursor.lemma_take_follows(n as nat);
                }
            }
            let after_len = body.read_or_die().cursor;
            after_len.lemma_take_follows(2);
            after_len.lemma_take_follows(3);
            after_len.lemma_take_follows(5);
            after_len.take(2).cursor.lemma_take_follows(2);
        }
    }
}

impl MetaEvent {
    /// Reads one meta-event.
    pub fn parse(iter: &mut ByteIter) -> (r: Result<Self, Error>)
        ensures
            final(iter)@ == spec_parse_meta(old(iter)@).cursor,
            agrees_view(r, spec_parse_meta(old(iter)@).result),
    {
        proof {
            reveal(spec_parse_meta);
        }
        match iter.read_expect(0xff) {
            Ok(_) => {},
            Err(e) => {
                return Err(e);
            },
        }
        let meta_type_byte = match iter.read_or_die() {
            Ok(byte) => byte,
            Err(e) => {
                return Err(e);
            },
        };
        if meta_type_byte == META_SEQUENCE_NUM {
            Err(Error::new(ErrorKind::NotImplemented(Feature::SequenceNumber)))
        } else if META_TEXT <= meta_type_byte && meta_type_byte <= META_DEVICE_NAME {
            MetaEvent::parse_text(iter)
        } else if meta_type_byte == META_CHAN_PREFIX {
            match read_one_byte(iter, LEN_META_CHAN_PREFIX) {
                Ok(byte) => Ok(MetaEvent::MidiChannelPrefix(Channel::new(byte))),
                Err(e) => Err(e),
            }
        } else if meta_type_byte == META_PORT {
            match read_one_byte(iter, LEN_META_PORT) {
                Ok(byte) => Ok(MetaEvent::Port(PortValue::new(byte))),
                Err(e) => Err(e),
            }
        } else if meta_type_byte == META_END_OF_TRACK {
            MetaEvent::parse_end_of_track(iter)
        } else if meta_type_byte == META_SET_TEMPO {
            match MicrosecondsPerQuarter::parse(iter) {
                Ok(tempo) => Ok(MetaEvent::SetTempo(tempo)),
                Err(e) => Err(e),
            }
        } else if meta_type_byte == META_SMTPE_OFFSET {
            match SmpteOffsetValue::parse(iter) {
                Ok(value) => Ok(MetaEvent::SmpteOffset(value)),
                Err(e) => Err(e),
            }
        } else if meta_type_byte == META_TIME_SIG {
            match TimeSignatureValue::parse(iter) {
                Ok(value) => Ok(MetaEvent::TimeSignature(value)),
                Err(e) => Err(e),
            }
        } else if meta_type_byte == META_KEY_SIG {
            match KeySignatureValue::parse(iter) {
                Ok(value) => Ok(MetaEvent::KeySignature(value)),
                Err(e) => Err(e),
            }
        } else if meta_type_byte == META_SEQ_SPECIFIC {
            Err(Error::new(ErrorKind::NotImplemented(Feature::SequencerSpecific)))
        } else {
            Err(Error::new(ErrorKind::InvalidFile(Defect::UnknownMetaType)))
        }
    }

    /// Writes the event. Where it cannot be written, nothing is.
    pub fn write(&self, w: &mut Scribe) -> (r: Result<(), Error>)
        ensures
            written(r, old(w)@, final(w)@, self@.written_to(old(w)@)),
    {
        match self {
            MetaEvent::SequenceNumber => Err(
                Error::new(ErrorKind::NotImplemented(Feature::SequenceNumber)),
            ),
            MetaEvent::OtherText(s) => write_text(w, META_TEXT, s),
            MetaEvent::Copyright(s) => write_text(w, META_COPYRIGHT, s),
            MetaEvent::TrackName(s) => write_text(w, META_TRACK_NAME, s),
            MetaEvent::InstrumentName(s) => write_text(w, META_INSTR_NAME, s),
            MetaEvent::Lyric(s) => write_text(w, META_LYRIC, s),
            MetaEvent::Marker(s) => write_text(w, META_MARKER, s),
            MetaEvent::CuePoint(s) => write_text(w, META_CUE_POINT, s),
            MetaEvent::ProgramName(s) => write_text(w, META_PROG_NAME, s),
            MetaEvent::DeviceName(s) => write_text(w, META_DEVICE_NAME, s),
            MetaEvent::MidiChannelPrefix(channel) => {
                w.write_all(&[0xff, META_CHAN_PREFIX, LEN_META_CHAN_PREFIX, channel.get()]);
                Ok(())
            },
            MetaEvent::EndOfTrack => {
                w.write_all(&[0xff, META_END_OF_TRACK, LEN_META_END_OF_TRACK]);
                Ok(())
            },
            MetaEvent::SetTempo(value) => {
                w.write_all(&[0xff, META_SET_TEMPO, LEN_META_SET_TEMPO]);
                // a 24-bit big-endian number: the low three bytes of the value
                w.write_u24(value.get());
                assert(final(w)@.bytes =~= old(w)@.bytes + (seq![0xffu8, 0x51u8, 3u8]
                    + be24_bytes(value.value() as u32)));
                Ok(())
            },
            MetaEvent::SmpteOffset(value) => {
                value.write(w);
                Ok(())
            },
            MetaEvent::TimeSignature(value) => {
                value.write(w);
                Ok(())
            },
            MetaEvent::KeySignature(value) => {
                value.write(w);
                Ok(())
            },
            MetaEvent::Sequencer => Err(
                Error::new(ErrorKind::NotImplemented(Feature::SequencerSpecific)),
            ),
            MetaEvent::Port(value) => {
                w.write_all(&[0xff, META_PORT, LEN_META_PORT, value.get()]);
                Ok(())
            },
        }
    }

    /// Reads the end of an end-of-track event.
    pub fn parse_end_of_track(iter: &mut ByteIter) -> (r: Result<Self, Error>)
        ensures
            final(iter)@ == spec_parse_end_of_track(old(iter)@).cursor,
            agrees_view(r, spec_parse_end_of_track(old(iter)@).result),
    {
        // after 0x2f we should see 0x00
        match iter.read_expect(LEN_META_END_OF_TRACK) {
            Ok(_) => Ok(MetaEvent::EndOfTrack),
            Err(e) => Err(e),
        }
    }

    /// Reads a text event after its type byte, which is the current byte.
    pub fn parse_text(iter: &mut ByteIter) -> (r: Result<Self, Error>)
        ensures
            final(iter)@ == spec_parse_text(old(iter)@).cursor,
            agrees_view(r, spec_parse_text(old(iter)@).result),
    {
        let text_type = match iter.current() {
            Some(byte) => byte,
            None => {
                return Err(Error::new(ErrorKind::Other));
            },
        };
        let length = match iter.read_vlq_u32() {
            Ok(length) => length,
            Err(e) => {
                return Err(e);
            },
        };
        let bytes = match iter.read_n(length as usize) {
            Ok(bytes) => bytes,
            Err(e) => {
                return Err(e);
            },
        };
        // the format does not say which encoding a text has
        let s = Text::from_bytes(bytes);
        match text_type {
            0x01 => Ok(MetaEvent::OtherText(s)),
            0x02 => Ok(MetaEvent::Copyright(s)),
            0x03 => Ok(MetaEvent::TrackName(s)),
            0x04 => Ok(MetaEvent::InstrumentName(s)),
            0x05 => Ok(MetaEvent::Lyric(s)),
            0x06 => Ok(MetaEvent::Marker(s)),
            0x07 => Ok(MetaEvent::CuePoint(s)),
            0x08 => Ok(MetaEvent::ProgramName(s)),
            0x09 => Ok(MetaEvent::DeviceName(s)),
            _ => Err(Error::new(ErrorKind::InvalidFile(Defect::UnknownMetaType))),
        }
    }
}

impl Default for MetaEvent {
    fn default() -> (r: Self)
        ensures
            r@ == MetaEventView::EndOfTrack,
    {
        MetaEvent::EndOfTrack
    }
}

/// Reads the length byte, which must be `length`, and one byte of data.
fn read_one_byte(iter: &mut ByteIter, length: u8) -> (r: Result<u8, Error>)
    ensures
        final(iter)@ == spec_parse_one_byte(old(iter)@, length).cursor,
        agrees(r, spec_parse_one_byte(old(iter)@, length).result),
{
    match iter.read_expect(length) {
        Ok(_) => iter.read_or_die(),
        Err(e) => Err(e),
    }
}

/// Writes a text event: `FF`, the type byte, the length of the text and the
/// text. Where the length does not fit in 32 bits, nothing is written.
pub fn write_text(w: &mut Scribe, text_type: u8, text: &Text) -> (r: Result<(), Error>)
    ensures
        written(
            r,
            old(w)@,
            final(w)@,
            match text_wire(text_type, text@) {
                Ok(bytes) => Ok(old(w)@.put(bytes)),
                Err(e) => Err(e),
            },
        ),
{
    let bytes = text.as_bytes();
    if bytes.len() > u32::MAX as usize {
        return Err(Error::new(ErrorKind::StringTooLong));
    }
    let size = encode_u32(bytes.len() as u32);
    w.write_all(&[0xff, text_type]);
    w.write_all(size.as_slice());
    w.write_all(bytes);
    assert(final(w)@.bytes =~= old(w)@.bytes + (seq![0xffu8, text_type] + encoding(
        text@.bytes.len() as u32,
    ) + text@.bytes));
    Ok(())
}

impl MicrosecondsPerQuarter {
    /// Reads a tempo.
    pub fn parse(iter: &mut ByteIter) -> (r: Result<Self, Error>)
        ensures
            final(iter)@ == spec_parse_tempo(old(iter)@).cursor,
            agrees(r, spec_parse_tempo(old(iter)@).result),
    {
        match iter.read_expect(LEN_META_SET_TEMPO) {
            Ok(_) => {},
            Err(e) => {
                return Err(e);
            },
        }
        let bytes = match iter.read_n(3) {
            Ok(bytes) => bytes,
            Err(e) => {
                return Err(e);
            },
        };
        // a big-endian 24-bit number
        let parsed_number: u32 = ((bytes[0] as u32) * 256 + (bytes[1] as u32)) * 256 + (
        bytes[2] as u32);
        Ok(MicrosecondsPerQuarter::new(parsed_number))
    }
}

impl SmpteOffsetValue {
    /// Reads an SMPTE offset.
    pub fn parse(iter: &mut ByteIter) -> (r: Result<Self, Error>)
        ensures
            final(iter)@ == spec_parse_smpte_offset(old(iter)@).cursor,
            agrees(r, spec_parse_smpte_offset(old(iter)@).result),
    {
        // after 0x54 we should see 0x05
        match iter.read_expect(LEN_META_SMTPE_OFFSET) {
            Ok(_) => {},
            Err(e) => {
                return Err(e);
            },
        }
        let bytes = match iter.read_n(5) {
            Ok(bytes) => bytes,
            Err(e) => {
                return Err(e);
            },
        };
        Ok(Self { hr: bytes[0], mn: bytes[1], se: bytes[2], fr: bytes[3], ff: bytes[4] })
    }

    /// Writes the SMPTE offset event.
    pub fn write(&self, w: &mut Scribe)
        ensures
            final(w)@ == old(w)@.put(MetaEventView::SmpteOffset(*self).wire()->Ok_0),
    {
        w.write_all(
            &[
                0xff,
                META_SMTPE_OFFSET,
                LEN_META_SMTPE_OFFSET,
                self.hr,
                self.mn,
                self.se,
                self.fr,
                self.ff,
            ],
        );
    }
}

impl TimeSignatureValue {
    /// The time signature that `new` makes.
    pub open spec fn spec_new(numerator: u8, denominator: DurationName, click: Clocks) -> Result<
        TimeSignatureValue,
        ErrorKind,
    > {
        if numerator > 0 {
            Ok(TimeSignatureValue { numerator, denominator, click, tpq: 0 })
        } else {
            Err(ErrorKind::Other)
        }
    }

    /// A time signature. The numerator must not be zero.
    pub fn new(numerator: u8, denominator: DurationName, click: Clocks) -> (r: Result<Self, Error>)
        ensures
            agrees(r, TimeSignatureValue::spec_new(numerator, denominator, click)),
    {
        if numerator == 0 {
            return Err(Error::new(ErrorKind::Other));
        }
        Ok(Self { numerator, denominator, click, tpq: 0 })
    }

    /// The numerator.
    pub fn numerator(&self) -> (r: u8)
        ensures
            r == self.numerator,
    {
        self.numerator
    }

    /// The denominator.
    pub fn denominator(&self) -> (r: DurationName)
        ensures
            r == self.denominator,
    {
        self.denominator
    }

    /// The clocks per metronome click.
    pub fn click(&self) -> (r: Clocks)
        ensures
            r == self.click,
    {
        self.click
    }

    /// Reads a time signature.
    pub fn parse(iter: &mut ByteIter) -> (r: Result<Self, Error>)
        ensures
            final(iter)@ == spec_parse_time_signature(old(iter)@).cursor,
            agrees(r, spec_parse_time_signature(old(iter)@).result),
    {
        match iter.read_expect(LEN_META_TIME_SIG) {
            Ok(_) => {},
            Err(e) => {
                return Err(e);
            },
        }
        let head = match iter.read2() {
            Ok(bytes) => bytes,
            Err(e) => {
                return Err(e);
            },
        };
        let denominator = match DurationName::from_u8(head[1]) {
            Ok(name) => name,
            Err(e) => {
                return Err(e);
            },
        };
        let tail = match iter.read2() {
            Ok(bytes) => bytes,
            Err(e) => {
                return Err(e);
            },
        };
        Ok(Self { numerator: head[0], denominator, click: Clocks::from_u8(tail[0]), tpq: tail[1] })
    }

    /// Writes the time signature event.
    pub fn write(&self, w: &mut Scribe)
        ensures
            final(w)@ == old(w)@.put(MetaEventView::TimeSignature(*self).wire()->Ok_0),
    {
        w.write_all(
            &[
                0xff,
                META_TIME_SIG,
                LEN_META_TIME_SIG,
                self.numerator,
                self.denominator.to_u8(),
                self.click.to_u8(),
                self.tpq,
            ],
        );
    }
}

impl Default for TimeSignatureValue {
    fn default() -> (r: Self)
        ensures
            r == (TimeSignatureValue {
                numerator: 0,
                denominator: DurationName::Quarter,
                click: Clocks::Quarter,
                tpq: 0,
            }),
    {
        TimeSignatureValue {
            numerator: 0,
            denominator: DurationName::Quarter,
            click: Clocks::Quarter,
            tpq: 0,
        }
    }
}

impl Default for KeyMode {
    fn default() -> (r: Self)
        ensures
            r == KeyMode::Major,
    {
        KeyMode::Major
    }
}

impl KeySignatureValue {
    /// Reads a key signature.
    pub fn parse(iter: &mut ByteIter) -> (r: Result<Self, Error>)
        ensures
            final(iter)@ == spec_parse_key_signature(old(iter)@).cursor,
            agrees(r, spec_parse_key_signature(old(iter)@).result),
    {
        match iter.read_expect(LEN_META_KEY_SIG) {
            Ok(_) => {},
            Err(e) => {
                return Err(e);
            },
        }
        let bytes = match iter.read2() {
            Ok(bytes) => bytes,
            Err(e) => {
                return Err(e);
            },
        };
        let raw_accidentals_byte = bytes[0];
        let accidentals: i8 = if raw_accidentals_byte >= 128 {
            (raw_accidentals_byte as i16 - 256) as i8
        } else {
            raw_accidentals_byte as i8
        };
        Ok(
            Self {
                accidentals: KeyAccidentals::new(accidentals),
                mode: if bytes[1] == 1 {
                    KeyMode::Minor
                } else {
                    KeyMode::Major
                },
            },
        )
    }

    /// Writes the key signature event.
    pub fn write(&self, w: &mut Scribe)
        ensures
            final(w)@ == old(w)@.put(MetaEventView::KeySignature(*self).wire()->Ok_0),
    {
        let accidentals = self.accidentals.get();
        let accidentals_byte: u8 = if accidentals < 0 {
            (accidentals as i16 + 256) as u8
        } else {
            accidentals as u8
        };
        let mode: u8 = match self.mode {
            KeyMode::Major => 0,
            KeyMode::Minor => 1,
        };
        w.write_all(&[0xff, META_KEY_SIG, LEN_META_KEY_SIG, accidentals_byte, mode]);
    }
}

impl Default for KeySignatureValue {
    fn default() -> (r: Self)
        ensures
            r == (KeySignatureValue {
                accidentals: KeyAccidentals::spec_new(0),
                mode: KeyMode::Major,
            }),
    {
        KeySignatureValue { accidentals: KeyAccidentals::new(0), mode: KeyMode::Major }
    }
}

} // verus!
