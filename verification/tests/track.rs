use midi_file::byte_iter::ByteIter;
use midi_file::file::{
    ensure_end_of_track, Event, MetaEvent, MicrosecondsPerQuarter, QuartersPerMinute, Track,
    TrackEvent,
};
use midi_file::midi::{
    Channel, Clocks, DurationName, GeneralMidi, Message, NoteMessage, NoteNumber, PitchBendValue,
    Program, ProgramChangeValue, Velocity,
};
use midi_file::scribe::{Scribe, ScribeSettings};
use midi_file::{Defect, ErrorKind, Feature, Text};

fn end() -> Event {
    Event::Meta(MetaEvent::EndOfTrack)
}

fn note_on(note: u8) -> Event {
    Event::Midi(Message::NoteOn(NoteMessage {
        channel: Channel::new(0),
        note_number: NoteNumber::new(note),
        velocity: Velocity::new(64),
    }))
}

fn chunk(track: &Track, running_status: bool) -> Vec<u8> {
    let mut w = Scribe::new(Vec::new(), ScribeSettings { running_status });
    track.write(&mut w).unwrap();
    w.into_inner()
}

#[test]
fn track_events_read_and_written() {
    let event = TrackEvent::new(1536, note_on(0x48));
    assert_eq!(1536, event.delta_time());
    assert_eq!(&note_on(0x48), event.event());
    assert!(!event.is_end());
    assert!(TrackEvent::new(5, end()).is_end());
    let mut w = Scribe::new(Vec::new(), ScribeSettings { running_status: false });
    event.write(&mut w).unwrap();
    let bytes = w.into_inner();
    assert_eq!(vec![0x8c, 0x00, 0x90, 0x48, 0x40], bytes);
    let mut iter = ByteIter::new(&bytes);
    assert_eq!(event, TrackEvent::parse(&mut iter).unwrap());
}

#[test]
fn an_event_that_cannot_be_written_leaves_nothing_behind() {
    let event = TrackEvent::new(1536, Event::Midi(Message::TimingClock));
    let mut w = Scribe::new(vec![0xaa], ScribeSettings { running_status: true });
    let e = event.write(&mut w).err().unwrap();
    assert_eq!(ErrorKind::NotImplemented(Feature::SystemMessage), e.kind());
    assert_eq!(vec![0xaa], w.into_inner());
}

#[test]
fn sysex_events_are_not_implemented() {
    for first in [0xf0u8, 0xf7] {
        let bytes = [0x00, first, 0x01, 0xf7];
        let mut iter = ByteIter::new(&bytes);
        let e = TrackEvent::parse(&mut iter).err().unwrap();
        assert_eq!(ErrorKind::NotImplemented(Feature::Sysex), e.kind());
    }
}

#[test]
fn push_insert_replace() {
    let mut track = Track::default();
    assert!(track.is_empty());
    track.push_event(0, note_on(1)).unwrap();
    track.push_event(10, note_on(3)).unwrap();
    track.insert_event(1, 5, note_on(2)).unwrap();
    track.insert_event(3, 7, note_on(4)).unwrap();
    assert_eq!(4, track.events_len());
    track.replace_event(0, 9, note_on(0)).unwrap();
    let events = track.events();
    assert_eq!(TrackEvent::new(9, note_on(0)), events[0]);
    assert_eq!(TrackEvent::new(5, note_on(2)), events[1]);
    assert_eq!(TrackEvent::new(10, note_on(3)), events[2]);
    assert_eq!(TrackEvent::new(7, note_on(4)), events[3]);
    assert!(!track.is_empty());
}

#[test]
fn set_name_adds_or_replaces() {
    let mut track = Track::default();
    track.set_name("one").unwrap();
    assert_eq!(1, track.events_len());
    track.push_event(0, note_on(1)).unwrap();
    track.set_name("two").unwrap();
    assert_eq!(2, track.events_len());
    assert_eq!(
        TrackEvent::new(0, Event::Meta(MetaEvent::TrackName(Text::new("two")))),
        track.events()[0]
    );
    // a name behind an event with a delta time is not found
    let mut late = Track::default();
    late.push_event(3, note_on(1)).unwrap();
    late.push_event(0, Event::Meta(MetaEvent::TrackName(Text::new("late")))).unwrap();
    late.set_name("early").unwrap();
    assert_eq!(3, late.events_len());
    assert_eq!(
        TrackEvent::new(0, Event::Meta(MetaEvent::TrackName(Text::new("early")))),
        late.events()[0]
    );
    // a name behind other events at time zero is replaced where it stands
    let mut second = Track::default();
    second.push_event(0, note_on(1)).unwrap();
    second.push_event(0, Event::Meta(MetaEvent::TrackName(Text::new("old")))).unwrap();
    second.set_name("new").unwrap();
    assert_eq!(2, second.events_len());
    assert_eq!(
        TrackEvent::new(0, Event::Meta(MetaEvent::TrackName(Text::new("new")))),
        second.events()[1]
    );
}

#[test]
fn set_instrument_name_and_general_midi() {
    let mut track = Track::default();
    track.set_name("Singer").unwrap();
    track.set_instrument_name("Alto").unwrap();
    track.set_general_midi(Channel::new(0), GeneralMidi::SynthVoice).unwrap();
    track.set_instrument_name("Tenor").unwrap();
    track.set_general_midi(Channel::new(1), GeneralMidi::AcousticGrandPiano).unwrap();
    let events = track.events();
    assert_eq!(3, events.len());
    assert_eq!(
        TrackEvent::new(
            0,
            Event::Midi(Message::ProgramChange(ProgramChangeValue {
                channel: Channel::new(1),
                program: Program::new(1),
            }))
        ),
        events[0]
    );
    assert_eq!(
        TrackEvent::new(0, Event::Meta(MetaEvent::InstrumentName(Text::new("Tenor")))),
        events[1]
    );
    assert_eq!(
        TrackEvent::new(0, Event::Meta(MetaEvent::TrackName(Text::new("Singer")))),
        events[2]
    );
    assert_eq!(55, GeneralMidi::SynthVoice.to_u8());
    assert_eq!(128, GeneralMidi::Gunshot.to_u8());
}

#[test]
fn push_tempo_counts_microseconds() {
    for (quarters, microseconds) in [
        (116u8, 517241u32),
        (120, 500_000),
        (92, 652173),
        (1, 16_777_215),
        (255, 235294),
    ] {
        let mut track = Track::default();
        track.push_tempo(4, QuartersPerMinute::new(quarters)).unwrap();
        assert_eq!(
            TrackEvent::new(
                4,
                Event::Meta(MetaEvent::SetTempo(MicrosecondsPerQuarter::new(microseconds)))
            ),
            track.events()[0]
        );
    }
}

#[test]
fn the_other_builders() {
    let mut track = Track::default();
    track.push_time_signature(0, 6, DurationName::Eighth, Clocks::DottedQuarter).unwrap();
    let e = track
        .push_time_signature(0, 0, DurationName::Eighth, Clocks::DottedQuarter)
        .err()
        .unwrap();
    assert_eq!(ErrorKind::Other, e.kind());
    track.push_lyric(1, "Row").unwrap();
    track
        .push_note_on(2, Channel::new(0), NoteNumber::new(72), Velocity::new(64))
        .unwrap();
    track
        .push_note_off(3, Channel::new(0), NoteNumber::new(72), Velocity::default())
        .unwrap();
    track.push_pitch_bend(4, Channel::new(0), PitchBendValue::new(8292)).unwrap();
    assert_eq!(5, track.events_len());
    let events = track.events();
    assert_eq!(
        TrackEvent::new(1, Event::Meta(MetaEvent::Lyric(Text::new("Row")))),
        events[1]
    );
    assert_eq!(2, events[2].delta_time());
    assert_eq!(3, events[3].delta_time());
    match events[4].event() {
        Event::Midi(Message::PitchBend(p)) => {
            assert_eq!(8292, p.pitch_bend().get());
            assert_eq!(0, p.channel().get());
        }
        other => panic!("wrong event type {:?}", other),
    }
}

#[test]
fn ensure_end_of_track_adds_the_marker_once() {
    let empty = ensure_end_of_track(Track::default());
    assert_eq!(1, empty.events_len());
    assert!(empty.events()[0].is_end());

    let mut track = Track::default();
    track.push_event(0, note_on(1)).unwrap();
    let once = ensure_end_of_track(track);
    assert_eq!(2, once.events_len());
    assert_eq!(TrackEvent::new(0, end()), once.events()[1]);
    let twice = ensure_end_of_track(once.clone());
    assert_eq!(once, twice);

    let mut closed = Track::default();
    closed.push_event(9, end()).unwrap();
    let same = ensure_end_of_track(closed.clone());
    assert_eq!(closed, same);
}

#[test]
fn track_chunk_read_and_written() {
    let mut track = Track::default();
    track.push_event(0, note_on(0x48)).unwrap();
    track.push_event(0x80, note_on(0x4a)).unwrap();
    track.push_event(0, end()).unwrap();
    let plain = vec![
        0x4d, 0x54, 0x72, 0x6b, 0x00, 0x00, 0x00, 0x0d, //
        0x00, 0x90, 0x48, 0x40, //
        0x81, 0x00, 0x90, 0x4a, 0x40, //
        0x00, 0xff, 0x2f, 0x00,
    ];
    assert_eq!(plain, chunk(&track, false));
    let compressed = vec![
        0x4d, 0x54, 0x72, 0x6b, 0x00, 0x00, 0x00, 0x0c, //
        0x00, 0x90, 0x48, 0x40, //
        0x81, 0x00, 0x4a, 0x40, //
        0x00, 0xff, 0x2f, 0x00,
    ];
    assert_eq!(compressed, chunk(&track, true));

    let mut iter = ByteIter::new(&plain);
    assert_eq!(track, Track::parse(&mut iter).unwrap());
    assert!(!iter.is_running_status_detected());
    let mut iter = ByteIter::new(&compressed);
    assert_eq!(track, Track::parse(&mut iter).unwrap());
    assert!(iter.is_running_status_detected());
}

#[test]
fn a_track_that_cannot_be_written_leaves_nothing_behind() {
    let mut track = Track::default();
    track.push_event(0, note_on(0x48)).unwrap();
    track.push_event(0, Event::Meta(MetaEvent::Sequencer)).unwrap();
    track.push_event(0, end()).unwrap();
    let mut w = Scribe::new(vec![1], ScribeSettings { running_status: false });
    let e = track.write(&mut w).err().unwrap();
    assert_eq!(ErrorKind::NotImplemented(Feature::SequencerSpecific), e.kind());
    assert_eq!(vec![1], w.into_inner());
}

fn track_failure(bytes: &[u8]) -> ErrorKind {
    let mut iter = ByteIter::new(bytes);
    Track::parse(&mut iter).err().unwrap().kind()
}

#[test]
fn declared_length_is_held_against_the_events() {
    // the length says one byte more than the events have
    assert_eq!(
        ErrorKind::InvalidFile(Defect::EarlyEndOfTrack),
        track_failure(&[
            0x4d, 0x54, 0x72, 0x6b, 0x00, 0x00, 0x00, 0x05, 0x00, 0xff, 0x2f, 0x00, 0x00
        ])
    );
    // the length ends before the end of the track
    assert_eq!(
        ErrorKind::InvalidFile(Defect::TrackTruncated),
        track_failure(&[
            0x4d, 0x54, 0x72, 0x6b, 0x00, 0x00, 0x00, 0x04, //
            0x00, 0x90, 0x48, 0x40, //
            0x00, 0xff, 0x2f, 0x00,
        ])
    );
    // the length ends within an event
    assert_eq!(
        ErrorKind::EndOfInput { position: 10 },
        track_failure(&[
            0x4d, 0x54, 0x72, 0x6b, 0x00, 0x00, 0x00, 0x03, //
            0x00, 0x90, 0x48, 0x40, //
            0x00, 0xff, 0x2f, 0x00,
        ])
    );
    // no events at all
    assert_eq!(
        ErrorKind::InvalidFile(Defect::TrackTruncated),
        track_failure(&[0x4d, 0x54, 0x72, 0x6b, 0x00, 0x00, 0x00, 0x00])
    );
    // the bytes end before the length is used up
    assert_eq!(
        ErrorKind::EndOfInput { position: 12 },
        track_failure(&[
            0x4d, 0x54, 0x72, 0x6b, 0x00, 0x00, 0x00, 0x08, 0x00, 0x90, 0x48, 0x40
        ])
    );
    // a wrong tag
    assert_eq!(
        ErrorKind::TagMismatch { position: 3 },
        track_failure(&[0x4d, 0x54, 0x68, 0x64, 0x00, 0x00, 0x00, 0x04, 0x00, 0xff, 0x2f, 0x00])
    );
}
