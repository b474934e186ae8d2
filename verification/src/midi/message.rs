//! MIDI messages: the channel voice and channel mode messages, and the
//! system messages, with the way they are read from and written to bytes.

use crate::byte_iter::{ByteIter, Cursor, Parsed};
use crate::error::{agrees, Defect, Error, ErrorKind, Feature};
use crate::midi::control::Control;
use crate::midi::numbers::{
    Channel, ControlValue, MonoModeChannels, NoteNumber, PitchBendValue, Program, Velocity,
};
use crate::midi::status_type::StatusType;
use crate::scribe::{written, Scribe, Written};
use vstd::prelude::*;

verus! {

/// What `NoteOn`, `NoteOff` and `PolyPressure` messages carry.
#[derive(Clone, Copy, Debug, PartialEq, Eq, PartialOrd, Ord, Hash, Structural)]
pub struct NoteMessage {
    pub channel: Channel,
    pub note_number: NoteNumber,
    pub velocity: Velocity,
}

/// A change of instrument (sound, patch) on a channel.
#[derive(Clone, Copy, Debug, PartialEq, Eq, PartialOrd, Ord, Hash, Structural)]
pub struct ProgramChangeValue {
    pub channel: Channel,
    pub program: Program,
}

/// Channel pressure. Reading and writing it is not implemented.
#[derive(Clone, Copy, Debug, Default, PartialEq, Eq, PartialOrd, Ord, Hash, Structural)]
pub struct ChannelPressureMessage {}

/// A pitch bend on a channel. Reading and writing it is not implemented.
#[derive(Clone, Copy, Debug, PartialEq, Eq, PartialOrd, Ord, Hash, Structural)]
pub struct PitchBendMessage {
    pub channel: Channel,
    pub pitch_bend: PitchBendValue,
}

/// The channel mode messages.
#[derive(Clone, Copy, Debug, PartialEq, Eq, PartialOrd, Ord, Hash, Structural)]
pub enum ModeMessage {
    AllSoundsOff(Channel),
    ResetAllControllers(Channel),
    LocalControl(LocalControlValue),
    AllNotesOff(Channel),
    OmniModeOff(Channel),
    OmniModeOn(Channel),
    MonoModeOn(MonoModeOnValue),
    PolyModeOn,
}

/// A switch. On the wire, on is `127` and off is `0`.
#[derive(Clone, Copy, Debug, PartialEq, Eq, PartialOrd, Ord, Hash, Structural)]
pub enum OnOff {
    On,
    Off,
}

/// Local control, on or off, for a channel.
#[derive(Clone, Copy, Debug, PartialEq, Eq, PartialOrd, Ord, Hash, Structural)]
pub struct LocalControlValue {
    pub channel: Channel,
    pub on_off: OnOff,
}

/// Mono mode for a channel, with the number of channels to use.
#[derive(Clone, Copy, Debug, PartialEq, Eq, PartialOrd, Ord, Hash, Structural)]
pub struct MonoModeOnValue {
    pub channel: Channel,
    pub mono_mode_channels: MonoModeChannels,
}

/// The system common messages.
#[derive(Clone, Copy, Debug, PartialEq, Eq, PartialOrd, Ord, Hash, Structural)]
pub enum SystemCommonMessage {
    MidiTimeCodeQuarterFrame(MidiTimeCodeQuarterFrameMessage),
    SongPositionPointer(SongPositionPointerMessage),
    SongSelect(SongSelectMessage),
    TuneRequest,
    EndOfSysexFlag,
}

/// A MIDI time code quarter frame. Reading and writing it is not
/// implemented.
#[derive(Clone, Copy, Debug, Default, PartialEq, Eq, PartialOrd, Ord, Hash, Structural)]
pub struct MidiTimeCodeQuarterFrameMessage {}

/// A song position pointer. Reading and writing it is not implemented.
#[derive(Clone, Copy, Debug, Default, PartialEq, Eq, PartialOrd, Ord, Hash, Structural)]
pub struct SongPositionPointerMessage {}

/// A song select. Reading and writing it is not implemented.
#[derive(Clone, Copy, Debug, Default, PartialEq, Eq, PartialOrd, Ord, Hash, Structural)]
pub struct SongSelectMessage {}

/// The system real-time messages, the status bytes `0xF8` to `0xFF`.
#[derive(Clone, Copy, Debug, PartialEq, Eq, PartialOrd, Ord, Hash, Structural)]
pub enum SystemRealtimeMessage {
    TimingClock,
    Undefined1,
    Start,
    Continue,
    Stop,
    Undefined2,
    ActiveSensing,
    SystemReset,
}

/// The system messages.
#[derive(Clone, Copy, Debug, PartialEq, Eq, PartialOrd, Ord, Hash, Structural)]
pub enum SystemMessage {
    Common(SystemCommonMessage),
    Realtime(SystemRealtimeMessage),
}

/// A control change: a controller of a channel gets a value.
#[derive(Clone, Copy, Debug, PartialEq, Eq, PartialOrd, Ord, Hash, Structural)]
pub struct ControlChangeValue {
    pub channel: Channel,
    pub control: Control,
    pub value: ControlValue,
}

/// A MIDI message.
#[derive(Clone, Copy, Debug, PartialEq, Eq, PartialOrd, Ord, Hash, Structural)]
pub enum Message {
    NoteOff(NoteMessage),
    NoteOn(NoteMessage),
    PolyPressure(NoteMessage),
    Control(ControlChangeValue),
    ProgramChange(ProgramChangeValue),
    ChannelPressure(ChannelPressureMessage),
    PitchBend(PitchBendMessage),
    AllSoundsOff(Channel),
    ResetAllControllers(Channel),
    LocalControlOff(Channel),
    LocalControlOn(Channel),
    AllNotesOff(Channel),
    OmniModeOff(Channel),
    OmniModeOn(Channel),
    MonoModeOn(MonoModeOnValue),
    PolyModeOn(Channel),
    MidiTimeCodeQuarterFrame(MidiTimeCodeQuarterFrameMessage),
    SongPositionPointer(SongPositionPointerMessage),
    SongSelect(SongSelectMessage),
    TuneRequest,
    EndOfSysexFlag,
    TimingClock,
    Undefined1,
    Start,
    Continue,
    Stop,
    Undefined2,
    ActiveSensing,
    SystemReset,
}

pub const CONTROL_ALL_SOUNDS_OFF: u8 = 120;

pub const CONTROL_RESET_ALL_CONTROLLERS: u8 = 121;

pub const CONTROL_LOCAL_CONTROL: u8 = 122;

pub const CONTROL_ALL_NOTES_OFF: u8 = 123;

pub const CONTROL_OMNI_MODE_OFF: u8 = 124;

pub const CONTROL_OMNI_MODE_ON: u8 = 125;

pub const CONTROL_MONO_MODE_ON: u8 = 126;

pub const CONTROL_POLY_MODE_ON: u8 = 127;

/// The status byte of a channel message: the kind of message in the upper
/// four bits, the channel in the lower four.
pub open spec fn status_byte(status: StatusType, channel: Channel) -> u8 {
    (status.code() as int * 16 + channel.value()) as u8
}

/// The message that a data byte of a note message brings for a channel.
pub open spec fn note_of(channel: Channel, note: u8, velocity: u8) -> NoteMessage {
    NoteMessage {
        channel,
        note_number: NoteNumber::spec_new(note),
        velocity: Velocity::spec_new(velocity),
    }
}

/// The system real-time message that a status byte from `0xF8` on stands
/// for.
pub open spec fn realtime_of(byte: u8) -> Message {
    match byte {
        0xf8 => Message::TimingClock,
        0xf9 => Message::Undefined1,
        0xfa => Message::Start,
        0xfb => Message::Continue,
        0xfc => Message::Stop,
        0xfd => Message::Undefined2,
        0xfe => Message::ActiveSensing,
        _ => Message::SystemReset,
    }
}

/// The channel mode message for a controller number from `120` to `127`
/// and the data byte that follows it.
pub open spec fn channel_mode_of(channel: Channel, first: u8, second: u8) -> Message {
    match first {
        120 => Message::AllSoundsOff(channel),
        121 => Message::ResetAllControllers(channel),
        122 => if second == 0 {
            Message::LocalControlOff(channel)
        } else {
            Message::LocalControlOn(channel)
        },
        123 => Message::AllNotesOff(channel),
        124 => Message::OmniModeOff(channel),
        125 => Message::OmniModeOn(channel),
        126 => Message::MonoModeOn(
            MonoModeOnValue { channel, mono_mode_channels: MonoModeChannels::spec_new(second) },
        ),
        _ => Message::PolyModeOn(channel),
    }
}

/// Reading the two data bytes of a note message.
pub open spec fn spec_parse_note(c: Cursor, channel: Channel) -> Parsed<NoteMessage> {
    let note = c.read_or_die();
    match note.result {
        Err(e) => Parsed { cursor: note.cursor, result: Err(e) },
        Ok(n) => {
            let velocity = note.cursor.read_or_die();
            match velocity.result {
                Err(e) => Parsed { cursor: velocity.cursor, result: Err(e) },
                Ok(v) => Parsed { cursor: velocity.cursor, result: Ok(note_of(channel, n, v)) },
            }
        },
    }
}

/// Reading the value of a control change, after the controller number
/// `first`.
pub open spec fn spec_parse_control(c: Cursor, channel: Channel, first: u8) -> Parsed<Message> {
    match Control::of_code(first) {
        None => Parsed { cursor: c, result: Err(ErrorKind::InvalidFile(Defect::UnknownControl)) },
        Some(control) => {
            let value = c.read_or_die();
            match value.result {
                Err(e) => Parsed { cursor: value.cursor, result: Err(e) },
                Ok(v) => Parsed {
                    cursor: value.cursor,
                    result: Ok(
                        Message::Control(
                            ControlChangeValue {
                                channel,
                                control,
                                value: ControlValue::spec_new(v),
                            },
                        ),
                    ),
                },
            }
        },
    }
}

/// Reading the data byte of a channel mode message, after the controller
/// number `first`. The byte is read whichever message it is.
pub open spec fn spec_parse_chanmod(c: Cursor, channel: Channel, first: u8) -> Parsed<Message> {
    let second = c.read_or_die();
    match second.result {
        Err(e) => Parsed { cursor: second.cursor, result: Err(e) },
        Ok(s) => if 120 <= first <= 127 {
            Parsed { cursor: second.cursor, result: Ok(channel_mode_of(channel, first, s)) }
        } else {
            Parsed {
                cursor: second.cursor,
                result: Err(ErrorKind::InvalidFile(Defect::UnknownControl)),
            }
        },
    }
}

/// Reading what follows a status byte of the kind "control change or
/// channel mode": the first data byte tells the two apart.
pub open spec fn spec_parse_0xb(c: Cursor, channel: Channel) -> Parsed<Message> {
    let first = c.read_or_die();
    match first.result {
        Err(e) => Parsed { cursor: first.cursor, result: Err(e) },
        Ok(f) => if f <= 119 {
            spec_parse_control(first.cursor, channel, f)
        } else if f <= 127 {
            spec_parse_chanmod(first.cursor, channel, f)
        } else {
            Parsed {
                cursor: first.cursor,
                result: Err(ErrorKind::InvalidFile(Defect::UnknownControl)),
            }
        },
    }
}

/// The kind of message and the channel that a status byte names.
pub open spec fn split_status(status_byte: u8) -> Result<(StatusType, Channel), ErrorKind> {
    match StatusType::of_code(status_byte / 16) {
        None => Err(ErrorKind::InvalidFile(Defect::UnknownStatus)),
        Some(status) => Ok((status, Channel::spec_new(status_byte % 16))),
    }
}

/// Reading the data bytes of the message that the status byte `byte`
/// begins.
pub open spec fn spec_parse_after_status(c: Cursor, byte: u8) -> Parsed<Message> {
    if byte == 0xf0 {
        Parsed { cursor: c, result: Err(ErrorKind::NotImplemented(Feature::Sysex)) }
    } else {
        match split_status(byte) {
            Err(e) => Parsed { cursor: c, result: Err(e) },
            Ok((status, channel)) => match status {
                StatusType::NoteOff => {
                    let note = spec_parse_note(c, channel);
                    match note.result {
                        Err(e) => Parsed { cursor: note.cursor, result: Err(e) },
                        Ok(n) => Parsed { cursor: note.cursor, result: Ok(Message::NoteOff(n)) },
                    }
                },
                StatusType::NoteOn => {
                    let note = spec_parse_note(c, channel);
                    match note.result {
                        Err(e) => Parsed { cursor: note.cursor, result: Err(e) },
                        Ok(n) => Parsed { cursor: note.cursor, result: Ok(Message::NoteOn(n)) },
                    }
                },
                StatusType::PolyPressure => {
                    let note = spec_parse_note(c, channel);
                    match note.result {
                        Err(e) => Parsed { cursor: note.cursor, result: Err(e) },
                        Ok(n) => Parsed {
                            cursor: note.cursor,
                            result: Ok(Message::PolyPressure(n)),
                        },
                    }
                },
                StatusType::ControlOrSelectChannelMode => spec_parse_0xb(c, channel),
                StatusType::Program => {
                    let program = c.read_or_die();
                    match program.result {
                        Err(e) => Parsed { cursor: program.cursor, result: Err(e) },
                        Ok(p) => Parsed {
                            cursor: program.cursor,
                            result: Ok(
                                Message::ProgramChange(
                                    ProgramChangeValue { channel, program: Program::spec_new(p) },
                                ),
                            ),
                        },
                    }
                },
                StatusType::ChannelPressure => Parsed {
                    cursor: c,
                    result: Err(ErrorKind::NotImplemented(Feature::ChannelPressure)),
                },
                StatusType::PitchBend => Parsed {
                    cursor: c,
                    result: Err(ErrorKind::NotImplemented(Feature::PitchBend)),
                },
                StatusType::System => Parsed {
                    cursor: c,
                    result: Err(ErrorKind::NotImplemented(Feature::SystemMessage)),
                },
            },
        }
    }
}

/// Reading one message. The next byte decides: a system real-time byte is
/// the whole message; a data byte continues the status byte read last
/// (running status) and is not read here; any other byte is read as the
/// new status byte.
#[verifier::opaque]
pub open spec fn spec_parse_message(c: Cursor) -> Parsed<Message> {
    match c.peek_or_die() {
        Err(e) => Parsed { cursor: c, result: Err(e) },
        Ok(peeked) => if peeked >= 0xf8 {
            let status = c.read_or_die();
            match status.result {
                Err(e) => Parsed { cursor: status.cursor, result: Err(e) },
                Ok(b) => Parsed {
                    cursor: Cursor { latest_status: Some(b), ..status.cursor },
                    result: Ok(realtime_of(b)),
                },
            }
        } else if peeked <= 0x7f {
            let noted = Cursor { running_status: true, ..c };
            match c.latest_status {
                None => Parsed {
                    cursor: noted,
                    result: Err(ErrorKind::InvalidFile(Defect::NoRunningStatus)),
                },
                Some(b) => spec_parse_after_status(noted, b),
            }
        } else {
            let status = c.read_or_die();
            match status.result {
                Err(e) => Parsed { cursor: status.cursor, result: Err(e) },
                Ok(b) => spec_parse_after_status(
                    Cursor { latest_status: Some(b), ..status.cursor },
                    b,
                ),
            }
        },
    }
}

/// Reading a message is reading alone, and a message is read only where
/// no read has run into the end of the source.
pub proof fn lemma_parse_message_follows(c: Cursor)
    ensures
        spec_parse_message(c).cursor.follows(c),
        spec_parse_message(c).result is Ok ==> spec_parse_message(c).cursor.exhausted
            == c.exhausted,
{
    reveal(spec_parse_message);
}

/// A channel mode message on the wire: the status byte of a control
/// change, the controller number, and one data byte.
pub open spec fn channel_mode_wire(channel: Channel, controller: u8, value: u8) -> (u8, Seq<u8>) {
    (status_byte(StatusType::ControlOrSelectChannelMode, channel), seq![controller, value])
}

/// A note message on the wire.
pub open spec fn note_wire(status: StatusType, note: NoteMessage) -> (u8, Seq<u8>) {
    (
        status_byte(status, note.channel),
        seq![note.note_number.value() as u8, note.velocity.value() as u8],
    )
}

impl NoteMessage {
    /// The channel.
    pub fn channel(&self) -> (r: &Channel)
        ensures
            *r == self.channel,
    {
        &self.channel
    }

    /// The note number.
    pub fn note_number(&self) -> (r: &NoteNumber)
        ensures
            *r == self.note_number,
    {
        &self.note_number
    }

    /// The velocity.
    pub fn velocity(&self) -> (r: &Velocity)
        ensures
            *r == self.velocity,
    {
        &self.velocity
    }

    /// Reads the two data bytes of a note message.
    pub fn parse(iter: &mut ByteIter, channel: Channel) -> (r: Result<Self, Error>)
        ensures
            final(iter)@ == spec_parse_note(old(iter)@, channel).cursor,
            agrees(r, spec_parse_note(old(iter)@, channel).result),
    {
        let note = match iter.read_or_die() {
            Ok(byte) => byte,
            Err(e) => {
                return Err(e);
            },
        };
        let velocity = match iter.read_or_die() {
            Ok(byte) => byte,
            Err(e) => {
                return Err(e);
            },
        };
        Ok(
            NoteMessage {
                channel,
                note_number: NoteNumber::new(note),
                velocity: Velocity::new(velocity),
            },
        )
    }

    /// Writes the message under the status `st`.
    pub fn write(&self, w: &mut Scribe, st: StatusType)
        ensures
            final(w)@ == old(w)@.put_status(note_wire(st, *self).0).put(note_wire(st, *self).1),
    {
        write_status_byte(w, st, self.channel);
        w.write_u8(self.note_number.get());
        w.write_u8(self.velocity.get());
        assert(final(w)@.bytes =~= old(w)@.put_status(note_wire(st, *self).0).put(
            note_wire(st, *self).1,
        ).bytes);
    }
}

impl ProgramChangeValue {
    /// The channel.
    pub fn channel(&self) -> (r: &Channel)
        ensures
            *r == self.channel,
    {
        &self.channel
    }

    /// The program.
    pub fn program(&self) -> (r: &Program)
        ensures
            *r == self.program,
    {
        &self.program
    }

    /// Writes the program change.
    pub fn write(&self, w: &mut Scribe)
        ensures
            final(w)@ == old(w)@.put_status(status_byte(StatusType::Program, self.channel)).put(
                seq![self.program.value() as u8],
            ),
    {
        write_status_byte(w, StatusType::Program, self.channel);
        w.write_u8(self.program.get());
    }
}

impl PitchBendMessage {
    /// The channel.
    pub fn channel(&self) -> (r: &Channel)
        ensures
            *r == self.channel,
    {
        &self.channel
    }

    /// The pitch bend value.
    pub fn pitch_bend(&self) -> (r: &PitchBendValue)
        ensures
            *r == self.pitch_bend,
    {
        &self.pitch_bend
    }
}

impl ControlChangeValue {
    /// The channel.
    pub fn channel(&self) -> (r: Channel)
        ensures
            r == self.channel,
    {
        self.channel
    }

    /// The controller.
    pub fn control(&self) -> (r: Control)
        ensures
            r == self.control,
    {
        self.control
    }

    /// The value.
    pub fn value(&self) -> (r: ControlValue)
        ensures
            r == self.value,
    {
        self.value
    }

    /// Writes the control change.
    pub fn write(&self, w: &mut Scribe)
        ensures
            final(w)@ == old(w)@.put_status(
                status_byte(StatusType::ControlOrSelectChannelMode, self.channel),
            ).put(seq![self.control.code(), self.value.value() as u8]),
    {
        write_status_byte(w, StatusType::ControlOrSelectChannelMode, self.channel);
        w.write_u8(self.control.to_u8());
        w.write_u8(self.value.get());
        assert(final(w)@.bytes =~= old(w)@.put_status(
            status_byte(StatusType::ControlOrSelectChannelMode, self.channel),
        ).put(seq![self.control.code(), self.value.value() as u8]).bytes);
    }
}

impl Message {
    /// The message on the wire: its status byte, which running status may
    /// leave out, and its data bytes. Messages that cannot be written have
    /// none.
    pub open spec fn wire(self) -> Result<(u8, Seq<u8>), ErrorKind> {
        match self {
            Message::NoteOff(value) => Ok(note_wire(StatusType::NoteOff, value)),
            Message::NoteOn(value) => Ok(note_wire(StatusType::NoteOn, value)),
            Message::PolyPressure(value) => Ok(note_wire(StatusType::PolyPressure, value)),
            Message::Control(value) => Ok(
                (
                    status_byte(StatusType::ControlOrSelectChannelMode, value.channel),
                    seq![value.control.code(), value.value.value() as u8],
                ),
            ),
            Message::ProgramChange(value) => Ok(
                (
                    status_byte(StatusType::Program, value.channel),
                    seq![value.program.value() as u8],
                ),
            ),
            Message::ChannelPressure(_) => Err(
                ErrorKind::NotImplemented(Feature::ChannelPressure),
            ),
            Message::PitchBend(_) => Err(ErrorKind::NotImplemented(Feature::PitchBend)),
            Message::AllSoundsOff(channel) => Ok(channel_mode_wire(channel, 120, 0)),
            Message::ResetAllControllers(channel) => Ok(channel_mode_wire(channel, 121, 0)),
            Message::LocalControlOff(channel) => Ok(channel_mode_wire(channel, 122, 0)),
            Message::LocalControlOn(channel) => Ok(channel_mode_wire(channel, 122, 127)),
            Message::AllNotesOff(channel) => Ok(channel_mode_wire(channel, 123, 0)),
            Message::OmniModeOff(channel) => Ok(channel_mode_wire(channel, 124, 0)),
            Message::OmniModeOn(channel) => Ok(channel_mode_wire(channel, 125, 0)),
            Message::MonoModeOn(m) => Ok(
                channel_mode_wire(m.channel, 126, m.mono_mode_channels.value() as u8),
            ),
            Message::PolyModeOn(channel) => Ok(channel_mode_wire(channel, 127, 0)),
            _ => Err(ErrorKind::NotImplemented(Feature::SystemMessage)),
        }
    }

    /// The writer after the message, or why the message cannot be written.
    pub open spec fn written_to(self, w: Written) -> Result<Written, ErrorKind> {
        match self.wire() {
            Ok((status, data)) => Ok(w.put_status(status).put(data)),
            Err(e) => Err(e),
        }
    }

    /// Reads one message.
    pub fn parse(iter: &mut ByteIter) -> (r: Result<Self, Error>)
        ensures
            final(iter)@ == spec_parse_message(old(iter)@).cursor,
            agrees(r, spec_parse_message(old(iter)@).result),
    {
        proof {
            reveal(spec_parse_message);
        }
        let peeked = match iter.peek_or_die() {
            Ok(byte) => byte,
            Err(e) => {
                return Err(e);
            },
        };
        let byte = if peeked >= 0xf8 {
            let byte = match iter.read_or_die() {
                Ok(byte) => byte,
                Err(e) => {
                    return Err(e);
                },
            };
            iter.set_latest_message_byte(Some(byte));
            return Ok(
                match byte {
                    0xf8 => Message::TimingClock,
                    0xf9 => Message::Undefined1,
                    0xfa => Message::Start,
                    0xfb => Message::Continue,
                    0xfc => Message::Stop,
                    0xfd => Message::Undefined2,
                    0xfe => Message::ActiveSensing,
                    _ => Message::SystemReset,
                },
            );
        } else if peeked <= 0x7f {
            // not a status byte: this is a running status message
            iter.set_running_status_detected();
            match iter.latest_message_byte() {
                Some(running_status) => running_status,
                None => {
                    return Err(Error::new(ErrorKind::InvalidFile(Defect::NoRunningStatus)));
                },
            }
        } else {
            let byte = match iter.read_or_die() {
                Ok(byte) => byte,
                Err(e) => {
                    return Err(e);
                },
            };
            iter.set_latest_message_byte(Some(byte));
            byte
        };
        if byte == 0xf0 {
            return Err(Error::new(ErrorKind::NotImplemented(Feature::Sysex)));
        }
        let (status_type, channel) = match split_byte(byte) {
            Ok(parts) => parts,
            Err(e) => {
                return Err(e);
            },
        };
        match status_type {
            StatusType::NoteOff => match NoteMessage::parse(iter, channel) {
                Ok(note) => Ok(Message::NoteOff(note)),
                Err(e) => Err(e),
            },
            StatusType::NoteOn => match NoteMessage::parse(iter, channel) {
                Ok(note) => Ok(Message::NoteOn(note)),
                Err(e) => Err(e),
            },
            StatusType::PolyPressure => match NoteMessage::parse(iter, channel) {
                Ok(note) => Ok(Message::PolyPressure(note)),
                Err(e) => Err(e),
            },
            StatusType::ControlOrSelectChannelMode => parse_0xb(iter, channel),
            StatusType::Program => {
                let program = match iter.read_or_die() {
                    Ok(byte) => Program::new(byte),
                    Err(e) => {
                        return Err(e);
                    },
                };
                Ok(Message::ProgramChange(ProgramChangeValue { channel, program }))
            },
            StatusType::ChannelPressure => Err(
                Error::new(ErrorKind::NotImplemented(Feature::ChannelPressure)),
            ),
            StatusType::PitchBend => Err(Error::new(ErrorKind::NotImplemented(Feature::PitchBend))),
            StatusType::System => Err(
                Error::new(ErrorKind::NotImplemented(Feature::SystemMessage)),
            ),
        }
    }

    /// Writes the message. Where it cannot be written, nothing is.
    pub fn write(&self, w: &mut Scribe) -> (r: Result<(), Error>)
        ensures
            written(r, old(w)@, final(w)@, self.written_to(old(w)@)),
    {
        match self {
            Message::NoteOff(value) => {
                value.write(w, StatusType::NoteOff);
                Ok(())
            },
            Message::NoteOn(value) => {
                value.write(w, StatusType::NoteOn);
                Ok(())
            },
            Message::PolyPressure(value) => {
                value.write(w, StatusType::PolyPressure);
                Ok(())
            },
            Message::Control(value) => {
                value.write(w);
                Ok(())
            },
            Message::ProgramChange(value) => {
                value.write(w);
                Ok(())
            },
            Message::ChannelPressure(_) => Err(
                Error::new(ErrorKind::NotImplemented(Feature::ChannelPressure)),
            ),
            Message::PitchBend(_) => Err(Error::new(ErrorKind::NotImplemented(Feature::PitchBend))),
            Message::AllSoundsOff(channel) => {
                write_chanmod(w, *channel, CONTROL_ALL_SOUNDS_OFF, 0);
                Ok(())
            },
            Message::ResetAllControllers(channel) => {
                write_chanmod(w, *channel, CONTROL_RESET_ALL_CONTROLLERS, 0);
                Ok(())
            },
            Message::LocalControlOff(channel) => {
                write_chanmod(w, *channel, CONTROL_LOCAL_CONTROL, 0);
                Ok(())
            },
            Message::LocalControlOn(channel) => {
                write_chanmod(w, *channel, CONTROL_LOCAL_CONTROL, 127);
                Ok(())
            },
            Message::AllNotesOff(channel) => {
                write_chanmod(w, *channel, CONTROL_ALL_NOTES_OFF, 0);
                Ok(())
            },
            Message::OmniModeOff(channel) => {
                write_chanmod(w, *channel, CONTROL_OMNI_MODE_OFF, 0);
                Ok(())
            },
            Message::OmniModeOn(channel) => {
                write_chanmod(w, *channel, CONTROL_OMNI_MODE_ON, 0);
                Ok(())
            },
            Message::MonoModeOn(m) => {
                write_chanmod(w, m.channel, CONTROL_MONO_MODE_ON, m.mono_mode_channels.get());
                Ok(())
            },
            Message::PolyModeOn(channel) => {
                write_chanmod(w, *channel, CONTROL_POLY_MODE_ON, 0);
                Ok(())
            },
            _ => Err(Error::new(ErrorKind::NotImplemented(Feature::SystemMessage))),
        }
    }
}

impl Default for NoteMessage {
    fn default() -> (r: Self)
        ensures
            r == (NoteMessage {
                channel: Channel::spec_new(0),
                note_number: NoteNumber::spec_new(60),
                velocity: Velocity::spec_new(72),
            }),
    {
        NoteMessage {
            channel: Channel::new(0),
            note_number: NoteNumber::new(60),
            velocity: Velocity::new(72),
        }
    }
}

impl Default for ProgramChangeValue {
    fn default() -> (r: Self)
        ensures
            r == (ProgramChangeValue {
                channel: Channel::spec_new(0),
                program: Program::spec_new(0),
            }),
    {
        ProgramChangeValue { channel: Channel::new(0), program: Program::new(0) }
    }
}

impl Default for PitchBendMessage {
    fn default() -> (r: Self)
        ensures
            r == (PitchBendMessage {
                channel: Channel::spec_new(0),
                pitch_bend: PitchBendValue::spec_new(8192),
            }),
    {
        PitchBendMessage { channel: Channel::new(0), pitch_bend: PitchBendValue::new(8192) }
    }
}

impl Default for OnOff {
    fn default() -> (r: Self)
        ensures
            r == OnOff::Off,
    {
        OnOff::Off
    }
}

impl Default for LocalControlValue {
    fn default() -> (r: Self)
        ensures
            r == (LocalControlValue { channel: Channel::spec_new(0), on_off: OnOff::Off }),
    {
        LocalControlValue { channel: Channel::new(0), on_off: OnOff::Off }
    }
}

impl Default for MonoModeOnValue {
    fn default() -> (r: Self)
        ensures
            r == (MonoModeOnValue {
                channel: Channel::spec_new(0),
                mono_mode_channels: MonoModeChannels::spec_new(0),
            }),
    {
        MonoModeOnValue {
            channel: Channel::new(0),
            mono_mode_channels: MonoModeChannels::new(0),
        }
    }
}

impl Default for ModeMessage {
    fn default() -> (r: Self)
        ensures
            r == ModeMessage::AllSoundsOff(Channel::spec_new(0)),
    {
        ModeMessage::AllSoundsOff(Channel::new(0))
    }
}

impl Default for SystemRealtimeMessage {
    fn default() -> (r: Self)
        ensures
            r == SystemRealtimeMessage::TimingClock,
    {
        SystemRealtimeMessage::TimingClock
    }
}

impl Default for SystemCommonMessage {
    fn default() -> (r: Self)
        ensures
            r == SystemCommonMessage::MidiTimeCodeQuarterFrame(
                MidiTimeCodeQuarterFrameMessage {  },
            ),
    {
        SystemCommonMessage::MidiTimeCodeQuarterFrame(MidiTimeCodeQuarterFrameMessage {  })
    }
}

impl Default for SystemMessage {
    fn default() -> (r: Self)
        ensures
            r == SystemMessage::Common(
                SystemCommonMessage::MidiTimeCodeQuarterFrame(MidiTimeCodeQuarterFrameMessage {  }),
            ),
    {
        SystemMessage::Common(
            SystemCommonMessage::MidiTimeCodeQuarterFrame(MidiTimeCodeQuarterFrameMessage {  }),
        )
    }
}

impl Default for ControlChangeValue {
    fn default() -> (r: Self)
        ensures
            r == (ControlChangeValue {
                channel: Channel::spec_new(0),
                control: Control::BankSelect,
                value: ControlValue::spec_new(0),
            }),
    {
        ControlChangeValue {
            channel: Channel::new(0),
            control: Control::BankSelect,
            value: ControlValue::new(0),
        }
    }
}

impl Default for Message {
    fn default() -> (r: Self)
        ensures
            r == Message::AllSoundsOff(Channel::spec_new(0)),
    {
        Message::AllSoundsOff(Channel::new(0))
    }
}

/// The kind of message and the channel that a status byte names.
pub fn split_byte(status_byte: u8) -> (r: Result<(StatusType, Channel), Error>)
    ensures
        agrees(r, split_status(status_byte)),
{
    let status_type = match StatusType::from_u8(status_byte / 16) {
        Ok(status) => status,
        Err(e) => {
            return Err(e);
        },
    };
    let channel = Channel::new(status_byte % 16);
    Ok((status_type, channel))
}

/// The status byte of a channel message of kind `status` for `channel`.
pub fn merge_byte(status: StatusType, channel: Channel) -> (r: u8)
    ensures
        r == status_byte(status, channel),
{
    status.to_u8() * 16 + channel.get()
}

/// Writes the status byte of a channel message, unless running status
/// makes it redundant.
pub fn write_status_byte(w: &mut Scribe, status: StatusType, channel: Channel)
    ensures
        final(w)@ == old(w)@.put_status(status_byte(status, channel)),
{
    let data = merge_byte(status, channel);
    w.write_status_byte(data);
}

/// Reads what follows a status byte of the kind "control change or channel
/// mode".
pub fn parse_0xb(iter: &mut ByteIter, channel: Channel) -> (r: Result<Message, Error>)
    ensures
        final(iter)@ == spec_parse_0xb(old(iter)@, channel).cursor,
        agrees(r, spec_parse_0xb(old(iter)@, channel).result),
{
    let first_data_byte = match iter.read_or_die() {
        Ok(byte) => byte,
        Err(e) => {
            return Err(e);
        },
    };
    if first_data_byte <= 119 {
        parse_control(iter, channel, first_data_byte)
    } else if first_data_byte <= 127 {
        parse_chanmod(iter, channel, first_data_byte)
    } else {
        Err(Error::new(ErrorKind::InvalidFile(Defect::UnknownControl)))
    }
}

/// Reads the data byte of a channel mode message.
pub fn parse_chanmod(it: &mut ByteIter, chan: Channel, first_byte: u8) -> (r: Result<
    Message,
    Error,
>)
    ensures
        final(it)@ == spec_parse_chanmod(old(it)@, chan, first_byte).cursor,
        agrees(r, spec_parse_chanmod(old(it)@, chan, first_byte).result),
{
    let second_byte = match it.read_or_die() {
        Ok(byte) => byte,
        Err(e) => {
            return Err(e);
        },
    };
    match first_byte {
        120 => Ok(Message::AllSoundsOff(chan)),
        121 => Ok(Message::ResetAllControllers(chan)),
        122 => {
            if second_byte == 0 {
                Ok(Message::LocalControlOff(chan))
            } else {
                Ok(Message::LocalControlOn(chan))
            }
        },
        123 => Ok(Message::AllNotesOff(chan)),
        124 => Ok(Message::OmniModeOff(chan)),
        125 => Ok(Message::OmniModeOn(chan)),
        126 => Ok(
            Message::MonoModeOn(
                MonoModeOnValue {
                    channel: chan,
                    mono_mode_channels: MonoModeChannels::new(second_byte),
                },
            ),
        ),
        127 => Ok(Message::PolyModeOn(chan)),
        _ => Err(Error::new(ErrorKind::InvalidFile(Defect::UnknownControl))),
    }
}

/// Writes a channel mode message.
pub fn write_chanmod(w: &mut Scribe, channel: Channel, controller: u8, value: u8)
    ensures
        final(w)@ == old(w)@.put_status(channel_mode_wire(channel, controller, value).0).put(
            channel_mode_wire(channel, controller, value).1,
        ),
{
    write_status_byte(w, StatusType::ControlOrSelectChannelMode, channel);
    w.write_u8(controller);
    w.write_u8(value);
    assert(final(w)@.bytes =~= old(w)@.put_status(
        channel_mode_wire(channel, controller, value).0,
    ).put(channel_mode_wire(channel, controller, value).1).bytes);
}

/// Reads the value of a control change.
pub fn parse_control(it: &mut ByteIter, chan: Channel, first_data_byte: u8) -> (r: Result<
    Message,
    Error,
>)
    ensures
        final(it)@ == spec_parse_control(old(it)@, chan, first_data_byte).cursor,
        agrees(r, spec_parse_control(old(it)@, chan, first_data_byte).result),
{
    let control = match Control::try_from_u8(first_data_byte) {
        Ok(control) => control,
        Err(e) => {
            return Err(e);
        },
    };
    let value = match it.read_or_die() {
        Ok(byte) => ControlValue::new(byte),
        Err(e) => {
            return Err(e);
        },
    };
    Ok(Message::Control(ControlChangeValue { channel: chan, control, value }))
}

} // verus!
