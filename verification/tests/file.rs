use midi_file::file::{
    Division, Event, Format, Header, MetaEvent, QuarterNoteDivision, QuartersPerMinute,
    SmpteRate, Track,
};
use midi_file::midi::{
    Channel, Clocks, DurationName, GeneralMidi, Message, NoteNumber, Velocity,
};
use midi_file::scribe::{Scribe, ScribeSettings};
use midi_file::{Defect, ErrorKind, Feature, MidiFile, Settings};

// durations
const QUARTER: u32 = 1024;
const EIGHTH: u32 = QUARTER / 2;
const DOTTED_QUARTER: u32 = QUARTER + EIGHTH;

const EXPECTED: [u8; 144] = [
    // header: MThd, len 6 bytes, format 1, ntracks 1, divisions 1024
    0x4D, 0x54, 0x68, 0x64, 0x00, 0x00, 0x00, 0x06, 0x00, 0x01, 0x00, 0x01, 0x04, 0x00,
    // track: MTrk, len 122 bytes
    0x4D, 0x54, 0x72, 0x6B, 0x00, 0x00, 0x00, 0x7A, //
    // DeltaTime: 0, ProgramChange/Channel: 0, Value: 0x37
    0x00, 0xC0, 0x37, //
    // DeltaTime: 0, InstrumentName, len 4 bytes, "Alto"
    0x00, 0xFF, 0x04, 0x04, 0x41, 0x6C, 0x74, 0x6F, //
    // DeltaTime: 0, TrackName, len 6 bytes, "Singer"
    0x00, 0xFF, 0x03, 0x06, 0x53, 0x69, 0x6E, 0x67, 0x65, 0x72, //
    // DeltaTime: 0, TimeSignature
    0x00, 0xFF, 0x58, 0x04, 0x06, 0x03, 0x20, 0x00, //
    // DeltaTime: 0, SetTempo
    0x00, 0xFF, 0x51, 0x03, 0x07, 0xE4, 0x79, //
    // DeltaTime: 0, Lyric: "Row"
    0x00, 0xFF, 0x05, 0x03, 0x52, 0x6F, 0x77, //
    // NoteOn
    0x00, 0x90, 0x48, 0x40, //
    // NoteOff
    0x8C, 0x00, 0x80, 0x48, 0x48, //
    // Lyric: "row"
    0x00, 0xFF, 0x05, 0x03, 0x72, 0x6F, 0x77, //
    // NoteOn
    0x00, 0x90, 0x48, 0x40, //
    // NoteOff
    0x8C, 0x00, 0x80, 0x48, 0x40, //
    // Lyric:  "row"
    0x00, 0xFF, 0x05, 0x03, 0x72, 0x6F, 0x77, //
    // NoteOn
    0x00, 0x90, 0x48, 0x40, //
    // NoteOff
    0x88, 0x00, 0x80, 0x48, 0x40, //
    // Lyric: "your"
    0x00, 0xFF, 0x05, 0x04, 0x79, 0x6F, 0x75, 0x72, //
    // NoteOn
    0x00, 0x90, 0x4A, 0x40, //
    // NoteOff
    0x84, 0x00, 0x80, 0x4A, 0x40, //
    // Lyric: "boat"
    0x00, 0xFF, 0x05, 0x04, 0x62, 0x6F, 0x61, 0x74, //
    // NoteOn
    0x00, 0x90, 0x4C, 0x40, //
    // NoteOff
    0x8C, 0x00, 0x80, 0x4C, 0x40, //
    // EndOfTrack marker
    0x00, 0xFF, 0x2F, 0x00,
];

fn song() -> Track {
    let c4 = NoteNumber::new(72);
    let d4 = NoteNumber::new(74);
    let e4 = NoteNumber::new(76);
    let v = Velocity::new(64);
    let ch = Channel::new(0);
    let mut track = Track::default();
    track.set_name("Singer").unwrap();
    track.set_instrument_name("Alto").unwrap();
    track.set_general_midi(ch, GeneralMidi::SynthVoice).unwrap();
    track
        .push_time_signature(0, 6, DurationName::Eighth, Clocks::DottedQuarter)
        .unwrap();
    track.push_tempo(0, QuartersPerMinute::new(116)).unwrap();
    track.push_lyric(0, "Row").unwrap();
    track.push_note_on(0, ch, c4, v).unwrap();
    track
        .push_note_off(DOTTED_QUARTER, ch, c4, Velocity::default())
        .unwrap();
    track.push_lyric(0, "row").unwrap();
    track.push_note_on(0, ch, c4, v).unwrap();
    track.push_note_off(DOTTED_QUARTER, ch, c4, v).unwrap();
    track.push_lyric(0, "row").unwrap();
    track.push_note_on(0, ch, c4, v).unwrap();
    track.push_note_off(QUARTER, ch, c4, v).unwrap();
    track.push_lyric(0, "your").unwrap();
    track.push_note_on(0, ch, d4, v).unwrap();
    track.push_note_off(EIGHTH, ch, d4, v).unwrap();
    track.push_lyric(0, "boat").unwrap();
    track.push_note_on(0, ch, e4, v).unwrap();
    track.push_note_off(DOTTED_QUARTER, ch, e4, v).unwrap();
    track
}

#[test]
fn row_your_boat() {
    let mut mfile = MidiFile::new_with_settings(
        Settings::new()
            .format(Format::Multi)
            .divisions(Division::default()),
    );
    mfile.push_track(song()).unwrap();
    let mut bytes = Vec::new();
    mfile.write(&mut bytes).unwrap();
    assert_eq!(bytes.len(), EXPECTED.len());
    for (ix, &byte) in bytes.iter().enumerate() {
        let ex = EXPECTED[ix];
        assert_eq!(
            ex, byte,
            "mismatch at byte index {}, expected {:#04X}, got {:#04X}",
            ix, ex, byte
        );
    }
}

#[test]
fn what_was_written_reads_back_and_writes_the_same() {
    let mut written = MidiFile::new();
    written.push_track(song()).unwrap();
    let read = MidiFile::read(&EXPECTED).unwrap();
    assert_eq!(written, read);
    assert!(!read.running_status());
    assert_eq!(Format::Multi, *read.header().format());
    assert_eq!(
        Division::QuarterNote(QuarterNoteDivision::new(1024)),
        *read.header().division()
    );
    assert_eq!(1, read.tracks_len());
    assert_eq!(21, read.track(0).unwrap().events_len());
    assert!(read.track(1).is_none());
    let mut again = Vec::new();
    read.write(&mut again).unwrap();
    assert_eq!(EXPECTED.to_vec(), again);
}

#[test]
fn running_status_round_trip() {
    let mut plain = MidiFile::new();
    plain.push_track(song()).unwrap();
    let mut compressing = MidiFile::new_with_settings(Settings::new().running_status(true));
    compressing.push_track(song()).unwrap();
    compressing.push_track(song()).unwrap();
    plain.push_track(song()).unwrap();

    let mut long = Vec::new();
    plain.write(&mut long).unwrap();
    let mut short = Vec::new();
    compressing.write(&mut short).unwrap();
    assert!(short.len() <= long.len());

    let from_long = MidiFile::read(&long).unwrap();
    let from_short = MidiFile::read(&short).unwrap();
    assert!(!from_long.running_status());
    assert_eq!(from_long.tracks(), from_short.tracks());
    assert_eq!(plain, from_long);

    // the song alternates note on and note off, so nothing can be left out
    assert_eq!(long, short);
    assert!(!from_short.running_status());

    // a track with repeated status bytes
    let mut repeats = Track::default();
    for note in [60u8, 62, 64, 65] {
        repeats
            .push_note_on(0, Channel::new(0), NoteNumber::new(note), Velocity::new(64))
            .unwrap();
    }
    let mut plain = MidiFile::new();
    plain.push_track(repeats.clone()).unwrap();
    let mut compressing = MidiFile::new_with_settings(Settings::new().running_status(true));
    compressing.push_track(repeats).unwrap();
    let mut long = Vec::new();
    plain.write(&mut long).unwrap();
    let mut short = Vec::new();
    compressing.write(&mut short).unwrap();
    assert_eq!(long.len(), short.len() + 3);
    let from_long = MidiFile::read(&long).unwrap();
    let from_short = MidiFile::read(&short).unwrap();
    assert_eq!(from_long.tracks(), from_short.tracks());
    assert!(from_short.running_status());
    assert_eq!(compressing, from_short);
    let mut again = Vec::new();
    from_short.write(&mut again).unwrap();
    assert_eq!(short, again);
}

#[test]
fn settings_and_defaults() {
    let settings = Settings::new()
        .running_status(true)
        .format(Format::Single)
        .divisions(Division::QuarterNote(QuarterNoteDivision::new(244)));
    let m = MidiFile::new_with_settings(settings);
    assert!(m.running_status());
    assert_eq!(Format::Single, *m.header().format());
    assert_eq!(
        Division::QuarterNote(QuarterNoteDivision::new(244)),
        *m.header().division()
    );
    assert_eq!(0, m.tracks_len());
    assert_eq!(MidiFile::new(), MidiFile::default());
    assert_eq!(MidiFile::new(), MidiFile::new_with_settings(Settings::default()));
    assert_eq!(Format::Multi, Format::default());
    let header = Header::new(Format::Sequential, Division::default());
    assert_eq!(Format::Sequential, *header.format());
    assert_eq!(Header::new(Format::Multi, Division::default()), Header::default());
    let mut bytes = Vec::new();
    MidiFile::new().write(&mut bytes).unwrap();
    assert_eq!(
        vec![0x4d, 0x54, 0x68, 0x64, 0, 0, 0, 6, 0, 1, 0, 0, 0x04, 0x00],
        bytes
    );
}

#[test]
fn write_appends() {
    let mut bytes = vec![0xaa, 0xbb];
    let mut file = MidiFile::new();
    file.push_track(Track::default()).unwrap();
    file.write(&mut bytes).unwrap();
    assert_eq!(
        vec![
            0xaa, 0xbb, 0x4d, 0x54, 0x68, 0x64, 0, 0, 0, 6, 0, 1, 0, 1, 0x04, 0x00, //
            0x4d, 0x54, 0x72, 0x6b, 0, 0, 0, 4, 0x00, 0xff, 0x2f, 0x00,
        ],
        bytes
    );
}

#[test]
fn push_track_closes_the_track_once() {
    let mut file = MidiFile::new();
    let mut track = Track::default();
    track
        .push_note_on(0, Channel::new(0), NoteNumber::new(60), Velocity::new(64))
        .unwrap();
    file.push_track(track).unwrap();
    let pushed = file.track(0).unwrap().clone();
    assert_eq!(2, pushed.events_len());
    assert!(pushed.events()[1].is_end());
    file.push_track(pushed.clone()).unwrap();
    assert_eq!(pushed, *file.track(1).unwrap());
    file.insert_track(0, Track::default()).unwrap();
    assert_eq!(1, file.track(0).unwrap().events_len());
    assert!(file.track(0).unwrap().events()[0].is_end());
    assert_eq!(3, file.tracks_len());
    file.insert_track(1, pushed.clone()).unwrap();
    assert_eq!(pushed, *file.track(1).unwrap());
    for track in file.tracks() {
        let events = track.events();
        assert!(events[events.len() - 1].is_end());
        assert!(!events[..events.len() - 1].iter().any(|e| e.is_end()));
    }
}

#[test]
fn insert_and_remove_want_a_track_at_the_index() {
    let mut file = MidiFile::new();
    let e = file.insert_track(0, Track::default()).err().unwrap();
    assert_eq!(ErrorKind::Other, e.kind());
    let e = file.remove_track(0).err().unwrap();
    assert_eq!(ErrorKind::Other, e.kind());
    file.push_track(Track::default()).unwrap();
    file.push_track(song()).unwrap();
    let e = file.insert_track(2, Track::default()).err().unwrap();
    assert_eq!(ErrorKind::Other, e.kind());
    let removed = file.remove_track(0).unwrap();
    assert_eq!(1, removed.events_len());
    assert_eq!(1, file.tracks_len());
    assert_eq!(21, file.track(0).unwrap().events_len());
}

#[test]
fn a_single_track_file_takes_one_track() {
    let mut file = MidiFile::new_with_settings(Settings::new().format(Format::Single));
    file.push_track(Track::default()).unwrap();
    let e = file.push_track(Track::default()).err().unwrap();
    assert_eq!(ErrorKind::InvalidFile(Defect::TooManyTracksForFormat), e.kind());
    assert_eq!(1, file.tracks_len());
    let e = file.insert_track(0, Track::default()).err().unwrap();
    assert_eq!(ErrorKind::InvalidFile(Defect::TooManyTracksForFormat), e.kind());
    let mut bytes = Vec::new();
    file.write(&mut bytes).unwrap();
    assert_eq!(file, MidiFile::read(&bytes).unwrap());
    // a file of format 0 that counts two tracks
    bytes[11] = 2;
    let e = MidiFile::read(&bytes).err().unwrap();
    assert_eq!(ErrorKind::InvalidFile(Defect::TooManyTracksForFormat), e.kind());
}

fn failure(bytes: &[u8]) -> ErrorKind {
    MidiFile::read(bytes).err().unwrap().kind()
}

#[test]
fn malformed_files_are_refused() {
    // nothing at all, and a tag cut short
    assert_eq!(ErrorKind::EndOfInput { position: 0 }, failure(&[]));
    assert_eq!(ErrorKind::EndOfInput { position: 3 }, failure(&EXPECTED[..3]));
    // a wrong header tag
    let mut bytes = EXPECTED.to_vec();
    bytes[3] = 0x65;
    assert_eq!(ErrorKind::TagMismatch { position: 3 }, failure(&bytes));
    // a wrong track tag
    let mut bytes = EXPECTED.to_vec();
    bytes[14] = 0x4e;
    assert_eq!(ErrorKind::TagMismatch { position: 17 }, failure(&bytes));
    // a header length other than six
    let mut bytes = EXPECTED.to_vec();
    bytes[7] = 7;
    assert_eq!(ErrorKind::InvalidFile(Defect::HeaderLength), failure(&bytes));
    // an unknown format
    let mut bytes = EXPECTED.to_vec();
    bytes[9] = 3;
    assert_eq!(ErrorKind::InvalidFile(Defect::UnknownFormat), failure(&bytes));
    // a time-code-based division
    let mut bytes = EXPECTED.to_vec();
    bytes[12] = 0xe2;
    assert_eq!(ErrorKind::NotImplemented(Feature::SmpteDivision), failure(&bytes));
    // a track length that ends before the end of the track
    let mut bytes = EXPECTED.to_vec();
    bytes[21] = 0x76;
    assert_eq!(ErrorKind::InvalidFile(Defect::TrackTruncated), failure(&bytes));
    // a track length that goes on behind the end of the track
    let mut bytes = EXPECTED.to_vec();
    bytes[21] = 0x7b;
    bytes.push(0);
    assert_eq!(ErrorKind::InvalidFile(Defect::EarlyEndOfTrack), failure(&bytes));
    // more tracks counted than there are
    let mut bytes = EXPECTED.to_vec();
    bytes[11] = 2;
    assert_eq!(ErrorKind::EndOfInput { position: 144 }, failure(&bytes));
    // the file cut short within the track
    assert_eq!(ErrorKind::EndOfInput { position: 100 }, failure(&EXPECTED[..100]));
}

#[test]
fn bytes_behind_the_last_track_are_left_alone() {
    let mut bytes = EXPECTED.to_vec();
    bytes.extend_from_slice(&[1, 2, 3]);
    assert_eq!(MidiFile::read(&EXPECTED).unwrap(), MidiFile::read(&bytes).unwrap());
}

#[test]
fn files_that_cannot_be_written() {
    let smpte = MidiFile::new_with_settings(
        Settings::new().divisions(Division::Smpte(SmpteRate::default())),
    );
    let mut bytes = vec![1];
    let e = smpte.write(&mut bytes).err().unwrap();
    assert_eq!(ErrorKind::NotImplemented(Feature::SmpteDivision), e.kind());
    assert_eq!(vec![1], bytes);

    let mut file = MidiFile::new();
    let mut track = Track::default();
    track.push_event(0, Event::Midi(Message::Start)).unwrap();
    file.push_track(song()).unwrap();
    file.push_track(track).unwrap();
    let e = file.write(&mut bytes).err().unwrap();
    assert_eq!(ErrorKind::NotImplemented(Feature::SystemMessage), e.kind());
    assert_eq!(vec![1], bytes);
}

#[test]
fn header_and_division_words() {
    assert_eq!(Format::Single, Format::from_u16(0).unwrap());
    assert_eq!(Format::Multi, Format::from_u16(1).unwrap());
    assert_eq!(Format::Sequential, Format::from_u16(2).unwrap());
    assert_eq!(2, Format::Sequential.to_u16());
    let e = Format::from_u16(3).err().unwrap();
    assert_eq!(ErrorKind::InvalidFile(Defect::UnknownFormat), e.kind());
    assert_eq!(
        Division::QuarterNote(QuarterNoteDivision::new(96)),
        Division::from_u16(96).unwrap()
    );
    assert_eq!(
        Division::QuarterNote(QuarterNoteDivision::new(16383)),
        Division::from_u16(0x7fff).unwrap()
    );
    assert_eq!(
        Division::QuarterNote(QuarterNoteDivision::new(1)),
        Division::from_u16(0).unwrap()
    );
    let e = Division::from_u16(0x8000).err().unwrap();
    assert_eq!(ErrorKind::NotImplemented(Feature::SmpteDivision), e.kind());
    let mut w = Scribe::new(Vec::new(), ScribeSettings { running_status: false });
    Header::new(Format::Sequential, Division::from_u16(96).unwrap())
        .write(&mut w, 0x0102)
        .unwrap();
    assert_eq!(
        vec![0x4d, 0x54, 0x68, 0x64, 0, 0, 0, 6, 0, 2, 0x01, 0x02, 0, 96],
        w.into_inner()
    );
}

#[test]
fn an_end_of_track_in_the_middle_does_not_read_back() {
    let mut track = Track::default();
    track.push_event(0, Event::Meta(MetaEvent::EndOfTrack)).unwrap();
    track
        .push_note_on(0, Channel::new(0), NoteNumber::new(60), Velocity::new(64))
        .unwrap();
    let mut file = MidiFile::new();
    file.push_track(track).unwrap();
    let mut bytes = Vec::new();
    file.write(&mut bytes).unwrap();
    assert_eq!(ErrorKind::InvalidFile(Defect::EarlyEndOfTrack), failure(&bytes));
}
