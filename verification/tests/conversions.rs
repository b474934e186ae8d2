use midi_file::file::{
    Division, Event, Format, MetaEvent, QuarterNoteDivision, SysexEvent, SysexEventType,
    TrackEvent,
};
use midi_file::midi::{
    Channel, Control, ControlChangeValue, DurationName, GeneralMidi, LocalControlValue, Message,
    ModeMessage, MonoModeOnValue, NoteMessage, OnOff, PitchBendMessage, ProgramChangeValue,
    StatusType, SystemCommonMessage, SystemMessage, SystemRealtimeMessage,
};
use midi_file::vlq::{Vlq, VlqError};
use midi_file::{Defect, ErrorKind, Feature, Text};
use std::convert::TryFrom;

#[test]
fn quantities_from_and_to_numbers() {
    assert_eq!(vec![0x81, 0x00], Vlq::new(0x80).to_bytes());
    assert_eq!(Vlq::new(7), Vlq::from(7u8));
    assert_eq!(Vlq::new(700), Vlq::from(700u16));
    assert_eq!(Vlq::new(70_000), Vlq::from(70_000u32));
    assert_eq!(Ok(Vlq::new(u32::MAX)), Vlq::try_from_u64(0xffff_ffff));
    assert_eq!(Err(VlqError::Overflow), Vlq::try_from_u64(0x1_0000_0000));
    assert_eq!(70_000u32, Vlq::new(70_000).to_u32());
    assert_eq!(70_000u64, Vlq::new(70_000).to_u64());
    assert_eq!(Ok(65535), Vlq::new(65535).try_to_u16());
    assert_eq!(Err(VlqError::Overflow), Vlq::new(65536).try_to_u16());
    assert_eq!(Ok(255), Vlq::new(255).try_to_u8());
    assert_eq!(Err(VlqError::Overflow), Vlq::new(256).try_to_u8());
    assert_eq!(Vlq::new(0), Vlq::default());
}

#[test]
fn numbers_become_names_where_they_stand_for_one() {
    assert_eq!(StatusType::PitchBend, StatusType::try_from(0xe).unwrap());
    assert_eq!(
        ErrorKind::InvalidFile(Defect::UnknownStatus),
        StatusType::try_from(0x7).err().unwrap().kind()
    );
    assert_eq!(DurationName::D32, DurationName::try_from(5).unwrap());
    assert_eq!(
        ErrorKind::InvalidFile(Defect::UnknownDuration),
        DurationName::try_from(200).err().unwrap().kind()
    );
    assert_eq!(Control::Pan, Control::try_from(10).unwrap());
    assert_eq!(
        ErrorKind::InvalidFile(Defect::UnknownControl),
        Control::try_from(120).err().unwrap().kind()
    );
    assert_eq!(Format::Sequential, Format::try_from(2).unwrap());
    assert_eq!(
        ErrorKind::InvalidFile(Defect::UnknownFormat),
        Format::try_from(9).err().unwrap().kind()
    );
    assert_eq!(
        Division::QuarterNote(QuarterNoteDivision::new(480)),
        Division::try_from(480).unwrap()
    );
    assert_eq!(
        ErrorKind::NotImplemented(Feature::SmpteDivision),
        Division::try_from(0xe250).err().unwrap().kind()
    );
    assert_eq!(55u8, u8::from(GeneralMidi::SynthVoice));
    assert_eq!(1u8, u8::from(GeneralMidi::default()));
}

#[test]
fn texts_become_strings() {
    assert_eq!("Alto", String::from(Text::new("Alto")));
    assert_eq!("\u{fffd}", String::from(Text::Other(vec![0x80])));
}

#[test]
fn defaults_of_messages_and_events() {
    let note = NoteMessage::default();
    assert_eq!(0, note.channel().get());
    assert_eq!(60, note.note_number().get());
    assert_eq!(72, note.velocity().get());
    assert_eq!(0, ProgramChangeValue::default().program().get());
    assert_eq!(8192, PitchBendMessage::default().pitch_bend().get());
    assert_eq!(OnOff::Off, OnOff::default());
    assert_eq!(OnOff::Off, LocalControlValue::default().on_off);
    assert_eq!(0, MonoModeOnValue::default().mono_mode_channels.get());
    assert_eq!(ModeMessage::AllSoundsOff(Channel::new(0)), ModeMessage::default());
    assert_eq!(SystemRealtimeMessage::TimingClock, SystemRealtimeMessage::default());
    assert_eq!(
        SystemMessage::Common(SystemCommonMessage::default()),
        SystemMessage::default()
    );
    assert_eq!(Control::BankSelect, ControlChangeValue::default().control());
    assert_eq!(Message::AllSoundsOff(Channel::new(0)), Message::default());
    assert_eq!(Event::Midi(Message::default()), Event::default());
    assert_eq!(TrackEvent::new(0, Event::default()), TrackEvent::default());
    assert_eq!(MetaEvent::EndOfTrack, MetaEvent::default());
    assert_eq!(SysexEventType::F0, SysexEventType::default());
    assert_eq!(SysexEvent::default(), SysexEvent::default().clone());
}
