use midi_file::byte_iter::ByteIter;
use midi_file::file::{
    KeyAccidentals, KeyMode, KeySignatureValue, MetaEvent, MicrosecondsPerQuarter,
    SmpteOffsetValue, TimeSignatureValue,
};
use midi_file::midi::{Channel, Clocks, DurationName, PortValue};
use midi_file::scribe::{Scribe, ScribeSettings};
use midi_file::{Defect, ErrorKind, Feature, Text};

fn written(event: &MetaEvent) -> Vec<u8> {
    let mut w = Scribe::new(Vec::new(), ScribeSettings { running_status: false });
    event.write(&mut w).unwrap();
    w.into_inner()
}

fn parsed(bytes: &[u8]) -> MetaEvent {
    let mut iter = ByteIter::new(bytes);
    let event = MetaEvent::parse(&mut iter).unwrap();
    assert_eq!(Some(bytes.len() as u64 - 1), iter.position());
    event
}

fn failure(bytes: &[u8]) -> ErrorKind {
    let mut iter = ByteIter::new(bytes);
    MetaEvent::parse(&mut iter).err().unwrap().kind()
}

#[test]
fn text_events_read_and_written() {
    let cases: Vec<(u8, MetaEvent)> = vec![
        (0x01, MetaEvent::OtherText(Text::new("Alto"))),
        (0x02, MetaEvent::Copyright(Text::new("Alto"))),
        (0x03, MetaEvent::TrackName(Text::new("Alto"))),
        (0x04, MetaEvent::InstrumentName(Text::new("Alto"))),
        (0x05, MetaEvent::Lyric(Text::new("Alto"))),
        (0x06, MetaEvent::Marker(Text::new("Alto"))),
        (0x07, MetaEvent::CuePoint(Text::new("Alto"))),
        (0x08, MetaEvent::ProgramName(Text::new("Alto"))),
        (0x09, MetaEvent::DeviceName(Text::new("Alto"))),
    ];
    for (text_type, event) in cases {
        let bytes = vec![0xff, text_type, 0x04, 0x41, 0x6c, 0x74, 0x6f];
        assert_eq!(bytes, written(&event));
        assert_eq!(event, parsed(&bytes));
    }
}

#[test]
fn empty_and_long_texts() {
    let empty = MetaEvent::Lyric(Text::new(""));
    assert_eq!(vec![0xff, 0x05, 0x00], written(&empty));
    assert_eq!(empty, parsed(&[0xff, 0x05, 0x00]));
    let long = "x".repeat(200);
    let event = MetaEvent::OtherText(Text::new(long.as_str()));
    let bytes = written(&event);
    assert_eq!(&[0xff, 0x01, 0x81, 0x48], &bytes[..4]);
    assert_eq!(204, bytes.len());
    assert_eq!(event, parsed(&bytes));
}

#[test]
fn text_that_is_not_utf8_keeps_its_bytes() {
    let bytes = [0xffu8, 0x03, 0x03, 0x41, 0xe9, 0x42];
    let event = parsed(&bytes);
    match &event {
        MetaEvent::TrackName(text) => {
            assert_eq!(&Text::Other(vec![0x41, 0xe9, 0x42]), text);
            assert_eq!(&[0x41, 0xe9, 0x42], text.as_bytes());
            assert_eq!("A\u{fffd}B", text.as_str());
        }
        _ => panic!("wrong variant, got {:?}", event),
    }
    assert_eq!(bytes.to_vec(), written(&event));
}

#[test]
fn text_conversions() {
    assert_eq!(Text::Utf8(String::from("Row")), Text::new("Row"));
    assert_eq!(Text::Utf8(String::from("Row")), Text::from("Row"));
    assert_eq!(Text::Utf8(String::from("Row")), Text::from(String::from("Row")));
    assert_eq!(Text::Utf8(String::from("Row")), Text::from(vec![0x52, 0x6f, 0x77]));
    assert_eq!(Text::Other(vec![0xff]), Text::from(vec![0xff]));
    assert_eq!(Text::Other(vec![0xff]), Text::from_bytes(vec![0xff]));
    assert_eq!("Row", Text::new("Row").as_str());
    assert_eq!(&[0x52, 0x6f, 0x77], Text::new("Row").as_bytes());
    assert_eq!(Text::Utf8(String::new()), Text::default());
    assert_eq!("é".as_bytes(), Text::new("é").as_bytes());
}

#[test]
fn fixed_events_read_and_written() {
    let prefix = MetaEvent::MidiChannelPrefix(Channel::new(9));
    assert_eq!(vec![0xff, 0x20, 0x01, 0x09], written(&prefix));
    assert_eq!(prefix, parsed(&[0xff, 0x20, 0x01, 0x09]));
    assert_eq!(
        MetaEvent::MidiChannelPrefix(Channel::new(15)),
        parsed(&[0xff, 0x20, 0x01, 0x40])
    );

    let port = MetaEvent::Port(PortValue::new(3));
    assert_eq!(vec![0xff, 0x21, 0x01, 0x03], written(&port));
    assert_eq!(port, parsed(&[0xff, 0x21, 0x01, 0x03]));

    assert_eq!(vec![0xff, 0x2f, 0x00], written(&MetaEvent::EndOfTrack));
    assert_eq!(MetaEvent::EndOfTrack, parsed(&[0xff, 0x2f, 0x00]));
    assert_eq!(MetaEvent::EndOfTrack, MetaEvent::default());

    let offset = MetaEvent::SmpteOffset(SmpteOffsetValue { hr: 1, mn: 2, se: 3, fr: 4, ff: 5 });
    assert_eq!(vec![0xff, 0x54, 0x05, 1, 2, 3, 4, 5], written(&offset));
    assert_eq!(offset, parsed(&[0xff, 0x54, 0x05, 1, 2, 3, 4, 5]));
}

#[test]
fn tempo_read_and_written() {
    let tempo = MetaEvent::SetTempo(MicrosecondsPerQuarter::new(517241));
    assert_eq!(vec![0xff, 0x51, 0x03, 0x07, 0xe4, 0x79], written(&tempo));
    assert_eq!(tempo, parsed(&[0xff, 0x51, 0x03, 0x07, 0xe4, 0x79]));
    let sample = MetaEvent::SetTempo(MicrosecondsPerQuarter::new(674576));
    assert_eq!(sample, parsed(&[0xff, 0x51, 0x03, 0x0a, 0x4b, 0x10]));
    // zero is clamped to one
    assert_eq!(
        MetaEvent::SetTempo(MicrosecondsPerQuarter::new(1)),
        parsed(&[0xff, 0x51, 0x03, 0x00, 0x00, 0x00])
    );
    let fastest = MetaEvent::SetTempo(MicrosecondsPerQuarter::new(16_777_215));
    assert_eq!(vec![0xff, 0x51, 0x03, 0xff, 0xff, 0xff], written(&fastest));
    assert_eq!(fastest, parsed(&[0xff, 0x51, 0x03, 0xff, 0xff, 0xff]));
}

#[test]
fn time_signature_read_and_written() {
    let bytes = [0xffu8, 0x58, 0x04, 0x06, 0x03, 0x24, 0x08];
    let event = parsed(&bytes);
    match &event {
        MetaEvent::TimeSignature(value) => {
            assert_eq!(6, value.numerator());
            assert_eq!(DurationName::Eighth, value.denominator());
            assert_eq!(Clocks::Other(0x24), value.click());
            assert_eq!(8, value.tpq);
        }
        _ => panic!("wrong variant, got {:?}", event),
    }
    assert_eq!(bytes.to_vec(), written(&event));

    let made = TimeSignatureValue::new(6, DurationName::Eighth, Clocks::DottedQuarter).unwrap();
    assert_eq!(
        vec![0xff, 0x58, 0x04, 0x06, 0x03, 0x20, 0x00],
        written(&MetaEvent::TimeSignature(made))
    );
    let e = TimeSignatureValue::new(0, DurationName::Eighth, Clocks::Quarter)
        .err()
        .unwrap();
    assert_eq!(ErrorKind::Other, e.kind());

    let common = parsed(&[0xff, 0x58, 0x04, 0x04, 0x02, 0x18, 0x08]);
    match common {
        MetaEvent::TimeSignature(value) => {
            assert_eq!(4, value.numerator());
            assert_eq!(DurationName::Quarter, value.denominator());
            assert_eq!(Clocks::Quarter, value.click());
        }
        _ => panic!("wrong variant, got {:?}", common),
    }
    assert_eq!(
        ErrorKind::InvalidFile(Defect::UnknownDuration),
        failure(&[0xff, 0x58, 0x04, 0x04, 0x0b, 0x18, 0x08])
    );
}

#[test]
fn key_signature_read_and_written() {
    let flats = MetaEvent::KeySignature(KeySignatureValue {
        accidentals: KeyAccidentals::new(-3),
        mode: KeyMode::Minor,
    });
    assert_eq!(vec![0xff, 0x59, 0x02, 0xfd, 0x01], written(&flats));
    assert_eq!(flats, parsed(&[0xff, 0x59, 0x02, 0xfd, 0x01]));
    let sharps = MetaEvent::KeySignature(KeySignatureValue {
        accidentals: KeyAccidentals::new(7),
        mode: KeyMode::Major,
    });
    assert_eq!(vec![0xff, 0x59, 0x02, 0x07, 0x00], written(&sharps));
    assert_eq!(sharps, parsed(&[0xff, 0x59, 0x02, 0x07, 0x00]));
    // a mode byte other than one is major
    assert_eq!(sharps, parsed(&[0xff, 0x59, 0x02, 0x07, 0x02]));
    // accidentals are clamped
    assert_eq!(
        MetaEvent::KeySignature(KeySignatureValue {
            accidentals: KeyAccidentals::new(-7),
            mode: KeyMode::Major,
        }),
        parsed(&[0xff, 0x59, 0x02, 0x80, 0x00])
    );
}

#[test]
fn meta_events_that_are_refused() {
    assert_eq!(
        ErrorKind::NotImplemented(Feature::SequenceNumber),
        failure(&[0xff, 0x00, 0x02, 0x00, 0x01])
    );
    assert_eq!(
        ErrorKind::NotImplemented(Feature::SequencerSpecific),
        failure(&[0xff, 0x7f, 0x01, 0x00])
    );
    assert_eq!(
        ErrorKind::InvalidFile(Defect::UnknownMetaType),
        failure(&[0xff, 0x0a, 0x00])
    );
    assert_eq!(
        ErrorKind::UnexpectedByte { expected: 0xff, found: 0x90, position: 0 },
        failure(&[0x90, 0x2f, 0x00])
    );
    assert_eq!(
        ErrorKind::UnexpectedByte { expected: 0x00, found: 0x01, position: 2 },
        failure(&[0xff, 0x2f, 0x01])
    );
    assert_eq!(
        ErrorKind::UnexpectedByte { expected: 0x03, found: 0x04, position: 2 },
        failure(&[0xff, 0x51, 0x04, 0x00, 0x00, 0x00, 0x00])
    );
    assert_eq!(
        ErrorKind::EndOfInput { position: 5 },
        failure(&[0xff, 0x05, 0x04, 0x41, 0x42])
    );
    for event in [MetaEvent::SequenceNumber, MetaEvent::Sequencer] {
        let mut w = Scribe::new(vec![7], ScribeSettings { running_status: false });
        assert!(event.write(&mut w).is_err());
        assert_eq!(vec![7], w.into_inner());
    }
}

#[test]
fn clocks_and_durations() {
    for (count, clocks) in [
        (142u8, Clocks::DottedWhole),
        (96, Clocks::Whole),
        (72, Clocks::DottedHalf),
        (48, Clocks::Half),
        (32, Clocks::DottedQuarter),
        (24, Clocks::Quarter),
        (18, Clocks::DottedEighth),
        (12, Clocks::Eighth),
        (9, Clocks::DottedSixteenth),
        (6, Clocks::Sixteenth),
        (7, Clocks::Other(7)),
    ] {
        assert_eq!(clocks, Clocks::new(count));
        assert_eq!(clocks, Clocks::from_u8(count));
        assert_eq!(count, clocks.to_u8());
    }
    let mut clocks = Clocks::Other(24);
    clocks.resolve();
    assert!(matches!(clocks, Clocks::Quarter));
    assert_eq!(Clocks::Quarter, Clocks::default());
    for n in 0..=10u8 {
        assert_eq!(n, DurationName::from_u8(n).unwrap().to_u8());
    }
    assert_eq!(DurationName::D1024, DurationName::from_u8(10).unwrap());
    assert_eq!(DurationName::Quarter, DurationName::default());
    let e = DurationName::from_u8(11).err().unwrap();
    assert_eq!(ErrorKind::InvalidFile(Defect::UnknownDuration), e.kind());
}
