use midi_file::byte_iter::ByteIter;
use midi_file::midi::message::{merge_byte, split_byte};
use midi_file::midi::{
    Channel, Control, ControlChangeValue, ControlValue, Message, MonoModeChannels,
    MonoModeOnValue, NoteMessage, NoteNumber, PitchBendMessage, PitchBendValue, Program,
    ProgramChangeValue, StatusType, Velocity,
};
use midi_file::scribe::{Scribe, ScribeSettings};
use midi_file::{Defect, ErrorKind, Feature};

fn note(channel: u8, note: u8, velocity: u8) -> NoteMessage {
    NoteMessage {
        channel: Channel::new(channel),
        note_number: NoteNumber::new(note),
        velocity: Velocity::new(velocity),
    }
}

fn written(message: &Message, running_status: bool) -> Vec<u8> {
    let mut w = Scribe::new(Vec::new(), ScribeSettings { running_status });
    message.write(&mut w).unwrap();
    w.into_inner()
}

fn parsed(bytes: &[u8]) -> Message {
    let mut iter = ByteIter::new(bytes);
    let message = Message::parse(&mut iter).unwrap();
    assert_eq!(Some(bytes.len() as u64 - 1), iter.position());
    message
}

#[test]
fn status_bytes() {
    assert_eq!(0x93, merge_byte(StatusType::NoteOn, Channel::new(3)));
    assert_eq!(0x8f, merge_byte(StatusType::NoteOff, Channel::new(15)));
    let (status, channel) = split_byte(0xc5).unwrap();
    assert_eq!(StatusType::Program, status);
    assert_eq!(5, channel.get());
    let e = split_byte(0x45).err().unwrap();
    assert_eq!(ErrorKind::InvalidFile(Defect::UnknownStatus), e.kind());
}

#[test]
fn note_messages_read_and_written() {
    let on = Message::NoteOn(note(0, 0x48, 0x40));
    assert_eq!(vec![0x90, 0x48, 0x40], written(&on, false));
    assert_eq!(on, parsed(&[0x90, 0x48, 0x40]));
    let off = Message::NoteOff(note(2, 0x30, 0x00));
    assert_eq!(vec![0x82, 0x30, 0x00], written(&off, false));
    assert_eq!(off, parsed(&[0x82, 0x30, 0x00]));
    let pressure = Message::PolyPressure(note(15, 0x7f, 0x01));
    assert_eq!(vec![0xaf, 0x7f, 0x01], written(&pressure, false));
    assert_eq!(pressure, parsed(&[0xaf, 0x7f, 0x01]));
}

#[test]
fn data_bytes_above_127_are_clamped() {
    assert_eq!(Message::NoteOn(note(0, 127, 127)), parsed(&[0x90, 0x80, 0xff]));
}

#[test]
fn program_change_read_and_written() {
    let message = Message::ProgramChange(ProgramChangeValue {
        channel: Channel::new(0),
        program: Program::new(0x37),
    });
    assert_eq!(vec![0xc0, 0x37], written(&message, false));
    assert_eq!(message, parsed(&[0xc0, 0x37]));
    if let Message::ProgramChange(value) = message {
        assert_eq!(0, value.channel().get());
        assert_eq!(0x37, value.program().get());
    }
}

#[test]
fn control_change_read_and_written() {
    let bytes = [0xb0, 0x07, 0x53];
    let message = parsed(&bytes);
    match message {
        Message::Control(value) => {
            assert_eq!(0, value.channel().get());
            assert_eq!(Control::ChannelVolume, value.control());
            assert_eq!(83, value.value().get());
        }
        _ => panic!("wrong variant, got {:?}", message),
    }
    assert_eq!(bytes.to_vec(), written(&message, false));
    let last = Message::Control(ControlChangeValue {
        channel: Channel::new(1),
        control: Control::Undefined119,
        value: ControlValue::new(1),
    });
    assert_eq!(vec![0xb1, 119, 1], written(&last, false));
    assert_eq!(last, parsed(&[0xb1, 119, 1]));
}

#[test]
fn channel_mode_messages_read_and_written() {
    let ch = Channel::new(4);
    let cases: Vec<(Message, [u8; 3])> = vec![
        (Message::AllSoundsOff(ch), [0xb4, 120, 0]),
        (Message::ResetAllControllers(ch), [0xb4, 121, 0]),
        (Message::LocalControlOff(ch), [0xb4, 122, 0]),
        (Message::LocalControlOn(ch), [0xb4, 122, 127]),
        (Message::AllNotesOff(ch), [0xb4, 123, 0]),
        (Message::OmniModeOff(ch), [0xb4, 124, 0]),
        (Message::OmniModeOn(ch), [0xb4, 125, 0]),
        (
            Message::MonoModeOn(MonoModeOnValue {
                channel: ch,
                mono_mode_channels: MonoModeChannels::new(6),
            }),
            [0xb4, 126, 6],
        ),
        (Message::PolyModeOn(ch), [0xb4, 127, 0]),
    ];
    for (message, bytes) in cases {
        assert_eq!(bytes.to_vec(), written(&message, false));
        assert_eq!(message, parsed(&bytes));
    }
    // any value but zero turns local control on
    assert_eq!(Message::LocalControlOn(ch), parsed(&[0xb4, 122, 5]));
    // the second byte is read whichever message it is
    assert_eq!(Message::AllNotesOff(ch), parsed(&[0xb4, 123, 9]));
}

#[test]
fn system_realtime_bytes_are_whole_messages() {
    let cases = [
        (0xf8u8, Message::TimingClock),
        (0xf9, Message::Undefined1),
        (0xfa, Message::Start),
        (0xfb, Message::Continue),
        (0xfc, Message::Stop),
        (0xfd, Message::Undefined2),
        (0xfe, Message::ActiveSensing),
        (0xff, Message::SystemReset),
    ];
    for (byte, message) in cases {
        let bytes = [byte, 0x00];
        let mut iter = ByteIter::new(&bytes);
        assert_eq!(message, Message::parse(&mut iter).unwrap());
        assert_eq!(Some(0), iter.position());
        assert_eq!(Some(byte), iter.latest_message_byte());
    }
}

#[test]
fn messages_that_are_not_implemented() {
    for (bytes, feature) in [
        ([0xd0u8, 0x01, 0x02], Feature::ChannelPressure),
        ([0xe0, 0x01, 0x02], Feature::PitchBend),
        ([0xf0, 0x01, 0x02], Feature::Sysex),
        ([0xf1, 0x01, 0x02], Feature::SystemMessage),
        ([0xf7, 0x01, 0x02], Feature::SystemMessage),
    ] {
        let mut iter = ByteIter::new(&bytes);
        let e = Message::parse(&mut iter).err().unwrap();
        assert_eq!(ErrorKind::NotImplemented(feature), e.kind());
    }
    let cannot_be_written = [
        (
            Message::PitchBend(PitchBendMessage {
                channel: Channel::new(0),
                pitch_bend: PitchBendValue::new(8192),
            }),
            Feature::PitchBend,
        ),
        (Message::TimingClock, Feature::SystemMessage),
        (Message::TuneRequest, Feature::SystemMessage),
        (Message::SystemReset, Feature::SystemMessage),
    ];
    for (message, feature) in cannot_be_written {
        let mut w = Scribe::new(vec![1, 2, 3], ScribeSettings { running_status: true });
        let e = message.write(&mut w).err().unwrap();
        assert_eq!(ErrorKind::NotImplemented(feature), e.kind());
        assert_eq!(vec![1, 2, 3], w.into_inner());
    }
}

#[test]
fn running_status_when_reading() {
    let bytes = [0x90u8, 0x48, 0x40, 0x4a, 0x41, 0x80, 0x48, 0x00, 0x4a, 0x00];
    let mut iter = ByteIter::new(&bytes);
    assert!(!iter.is_running_status_detected());
    assert_eq!(Message::NoteOn(note(0, 0x48, 0x40)), Message::parse(&mut iter).unwrap());
    assert!(!iter.is_running_status_detected());
    assert_eq!(Message::NoteOn(note(0, 0x4a, 0x41)), Message::parse(&mut iter).unwrap());
    assert!(iter.is_running_status_detected());
    assert_eq!(Message::NoteOff(note(0, 0x48, 0x00)), Message::parse(&mut iter).unwrap());
    assert_eq!(Message::NoteOff(note(0, 0x4a, 0x00)), Message::parse(&mut iter).unwrap());
    assert_eq!(Some(0x80), iter.latest_message_byte());
}

#[test]
fn running_status_without_a_status_byte_is_an_error() {
    let bytes = [0x48u8, 0x40];
    let mut iter = ByteIter::new(&bytes);
    let e = Message::parse(&mut iter).err().unwrap();
    assert_eq!(ErrorKind::InvalidFile(Defect::NoRunningStatus), e.kind());
    assert!(iter.is_running_status_detected());
}

#[test]
fn running_status_when_writing() {
    let first = Message::NoteOn(note(0, 0x48, 0x40));
    let second = Message::NoteOn(note(0, 0x4a, 0x40));
    let third = Message::NoteOn(note(1, 0x4a, 0x40));
    let mut w = Scribe::new(Vec::new(), ScribeSettings { running_status: true });
    first.write(&mut w).unwrap();
    second.write(&mut w).unwrap();
    third.write(&mut w).unwrap();
    assert_eq!(Some(0x91), w.running_status());
    assert_eq!(
        vec![0x90, 0x48, 0x40, 0x4a, 0x40, 0x91, 0x4a, 0x40],
        w.into_inner()
    );
    let mut w = Scribe::new(Vec::new(), ScribeSettings { running_status: false });
    first.write(&mut w).unwrap();
    second.write(&mut w).unwrap();
    assert_eq!(None, w.running_status());
    assert_eq!(vec![0x90, 0x48, 0x40, 0x90, 0x4a, 0x40], w.into_inner());
}

#[test]
fn truncated_messages() {
    let bytes = [0x90u8, 0x48];
    let mut iter = ByteIter::new(&bytes);
    let e = Message::parse(&mut iter).err().unwrap();
    assert_eq!(ErrorKind::EndOfInput { position: 2 }, e.kind());
    let mut iter = ByteIter::new(&[]);
    let e = Message::parse(&mut iter).err().unwrap();
    assert_eq!(ErrorKind::EndOfInput { position: 0 }, e.kind());
}

#[test]
fn control_numbers() {
    for n in 0..=119u8 {
        assert_eq!(n, Control::try_from_u8(n).unwrap().to_u8());
    }
    for n in 120..=255u8 {
        let e = Control::try_from_u8(n).err().unwrap();
        assert_eq!(ErrorKind::InvalidFile(Defect::UnknownControl), e.kind());
    }
    assert_eq!(Control::BankSelect, Control::try_from_u8(0).unwrap());
    assert_eq!(Control::Undefined14, Control::try_from_u8(14).unwrap());
    assert_eq!(Control::DamperPedalSustain, Control::try_from_u8(64).unwrap());
    assert_eq!(Control::default(), Control::BankSelect);
}

#[test]
fn status_types() {
    for n in 8..=15u8 {
        assert_eq!(n, StatusType::from_u8(n).unwrap().to_u8());
    }
    for n in 0..8u8 {
        let e = StatusType::from_u8(n).err().unwrap();
        assert_eq!(ErrorKind::InvalidFile(Defect::UnknownStatus), e.kind());
    }
    assert_eq!(StatusType::NoteOff, StatusType::from_u8(8).unwrap());
    assert_eq!(StatusType::NoteOn, StatusType::from_u8(9).unwrap());
}
