//! A codec for Standard MIDI Files: parsing a byte buffer into a structured
//! representation of header, tracks and timed events, and serializing that
//! representation back into bytes.

pub mod byte_iter;
pub mod error;
pub mod file;
pub mod midi;
pub mod round_trip;
pub mod scribe;
pub mod text;
pub mod vlq;

use crate::byte_iter::{ByteIter, Cursor, Parsed};
use crate::error::{agrees, agrees_view};
use crate::file::header::header_tag;
use crate::file::track::{
    ends_with_end_of_track, ensure_end_of_track, spec_parse_track, track_wire, with_end_of_track,
};
use crate::file::track_event::TrackEventView;
use crate::file::{Division, Format, Header, Track};
use crate::scribe::{Scribe, ScribeSettings};
use vstd::prelude::*;

pub use error::{Defect, Error, ErrorKind, Feature};
pub use text::Text;

verus! {

/// Settings for a new [`MidiFile`], as a builder:
/// `Settings::new().running_status(true).format(Format::Single)`.
#[derive(Clone, Copy, Debug, PartialEq, Eq, PartialOrd, Ord, Hash, Structural)]
pub struct Settings {
    /// The type of MIDI file. The default is `1`, that is `Multi`.
    format: Format,
    /// The default is 1024 ticks per quarter note.
    division: Division,
    /// Whether redundant status bytes are left out.
    running_status: bool,
}

impl Settings {
    /// The format that is set.
    pub closed spec fn chosen_format(self) -> Format {
        self.format
    }

    /// The division that is set.
    pub closed spec fn chosen_division(self) -> Division {
        self.division
    }

    /// Whether running status is set.
    pub closed spec fn chosen_running_status(self) -> bool {
        self.running_status
    }

    /// The default settings.
    pub fn new() -> (r: Self)
        ensures
            r.chosen_format() == Format::Multi,
            r.chosen_division() == Division::QuarterNote(
                crate::file::QuarterNoteDivision::spec_new(1024),
            ),
            !r.chosen_running_status(),
    {
        Self { format: Format::default(), division: Division::default(), running_status: false }
    }

    /// Sets whether the file leaves out redundant status bytes when it is
    /// written.
    pub fn running_status(self, value: bool) -> (r: Self)
        ensures
            r.chosen_running_status() == value,
            r.chosen_format() == self.chosen_format(),
            r.chosen_division() == self.chosen_division(),
    {
        Self { format: self.format, division: self.division, running_status: value }
    }

    /// Sets the format, which is one of three: see [`Format`].
    pub fn format(self, value: Format) -> (r: Self)
        ensures
            r.chosen_format() == value,
            r.chosen_division() == self.chosen_division(),
            r.chosen_running_status() == self.chosen_running_status(),
    {
        Self { format: value, division: self.division, running_status: self.running_status }
    }

    /// Sets the division: see [`Division`].
    pub fn divisions(self, value: Division) -> (r: Self)
        ensures
            r.chosen_division() == value,
            r.chosen_format() == self.chosen_format(),
            r.chosen_running_status() == self.chosen_running_status(),
    {
        Self { format: self.format, division: value, running_status: self.running_status }
    }
}

impl Default for Settings {
    fn default() -> (r: Self)
        ensures
            r.chosen_format() == Format::Multi,
            r.chosen_division() == Division::QuarterNote(
                crate::file::QuarterNoteDivision::spec_new(1024),
            ),
            !r.chosen_running_status(),
    {
        Self::new()
    }
}

/// A MIDI file: a header that tells the type of the file, and tracks with
/// MIDI data.
#[derive(Clone, Debug, PartialEq, Eq, PartialOrd, Ord, Hash)]
pub struct MidiFile {
    header: Header,
    tracks: Vec<Track>,
    running_status: bool,
}

/// A MIDI file as contracts speak of it.
pub struct MidiFileView {
    pub header: Header,
    /// The events of each track.
    pub tracks: Seq<Seq<TrackEventView>>,
    /// Whether redundant status bytes are left out when the file is
    /// written. In a file that was read, whether any were missing.
    pub running_status: bool,
}

/// The tracks as contracts speak of them.
pub open spec fn track_views(tracks: Seq<Track>) -> Seq<Seq<TrackEventView>> {
    tracks.map_values(|t: Track| t@)
}

impl View for MidiFile {
    type V = MidiFileView;

    closed spec fn view(&self) -> MidiFileView {
        MidiFileView {
            header: self.header,
            tracks: track_views(self.tracks@),
            running_status: self.running_status,
        }
    }
}

/// The track chunks of `tracks`, one after the other; the first track that
/// makes no chunk ends it.
pub open spec fn tracks_wire(tracks: Seq<Seq<TrackEventView>>, running_status: bool) -> Result<
    Seq<u8>,
    ErrorKind,
>
    decreases tracks.len(),
{
    if tracks.len() == 0 {
        Ok(Seq::empty())
    } else {
        match tracks_wire(tracks.drop_last(), running_status) {
            Err(e) => Err(e),
            Ok(before) => match track_wire(tracks.last(), running_status) {
                Err(e) => Err(e),
                Ok(chunk) => Ok(before + chunk),
            },
        }
    }
}

impl MidiFileView {
    /// What holds of every file: the number of tracks fits in 16 bits; a
    /// file of the single-track format has at most one track; every track
    /// ends with the end-of-track event.
    pub open spec fn wf(self) -> bool {
        &&& self.tracks.len() <= 65535
        &&& self.header.format == Format::Single ==> self.tracks.len() <= 1
        &&& forall|i: int|
            0 <= i < self.tracks.len() ==> ends_with_end_of_track(#[trigger] self.tracks[i])
    }

    /// The bytes of the file: the header chunk and the track chunks. A
    /// file with more tracks than 16 bits can count has none, nor has one
    /// with a part that cannot be written.
    pub open spec fn wire(self) -> Result<Seq<u8>, ErrorKind> {
        if self.tracks.len() > 65535 {
            Err(ErrorKind::TooManyTracks)
        } else {
            match self.header.wire(self.tracks.len() as u16) {
                Err(e) => Err(e),
                Ok(header) => match tracks_wire(self.tracks, self.running_status) {
                    Err(e) => Err(e),
                    Ok(tracks) => Ok(header + tracks),
                },
            }
        }
    }
}

/// Reading `remaining` more track chunks after `so_far`.
pub open spec fn spec_parse_tracks(
    c: Cursor,
    so_far: Seq<Seq<TrackEventView>>,
    remaining: nat,
) -> Parsed<Seq<Seq<TrackEventView>>>
    decreases remaining,
{
    if remaining == 0 {
        Parsed { cursor: c, result: Ok(so_far) }
    } else {
        let track = spec_parse_track(c);
        match track.result {
            Err(e) => Parsed { cursor: track.cursor, result: Err(e) },
            Ok(events) => spec_parse_tracks(
                track.cursor,
                so_far.push(events),
                (remaining - 1) as nat,
            ),
        }
    }
}

/// The header that the three words of a header chunk stand for, with the
/// number of tracks. The format must be known, the division must count in
/// quarter notes, and the single-track format allows one track.
pub open spec fn header_of(format_word: u16, num_tracks: u16, division_word: u16) -> Result<
    Header,
    ErrorKind,
> {
    match Format::of_code(format_word) {
        None => Err(ErrorKind::InvalidFile(Defect::UnknownFormat)),
        Some(format) => match Division::of_word(division_word) {
            Err(e) => Err(e),
            Ok(division) => if format == Format::Single && num_tracks > 1 {
                Err(ErrorKind::InvalidFile(Defect::TooManyTracksForFormat))
            } else {
                Ok(Header { format, division })
            },
        },
    }
}

/// Reading the header chunk: the tag `MThd`, the length, which is 6, and
/// the three words for format, number of tracks and division.
pub open spec fn spec_parse_header(c: Cursor) -> Parsed<(Header, u16)> {
    let tag = c.expect_tag(header_tag());
    match tag.result {
        Err(e) => Parsed { cursor: tag.cursor, result: Err(e) },
        Ok(_) => {
            let length = tag.cursor.read_u32();
            match length.result {
                Err(e) => Parsed { cursor: length.cursor, result: Err(e) },
                Ok(chunk_length) => if chunk_length != 6 {
                    Parsed {
                        cursor: length.cursor,
                        result: Err(ErrorKind::InvalidFile(Defect::HeaderLength)),
                    }
                } else {
                    let format = length.cursor.read_u16();
                    match format.result {
                        Err(e) => Parsed { cursor: format.cursor, result: Err(e) },
                        Ok(format_word) => {
                            let count = format.cursor.read_u16();
                            match count.result {
                                Err(e) => Parsed { cursor: count.cursor, result: Err(e) },
                                Ok(num_tracks) => {
                                    let division = count.cursor.read_u16();
                                    match division.result {
                                        Err(e) => Parsed {
                                            cursor: division.cursor,
                                            result: Err(e),
                                        },
                                        Ok(division_word) => Parsed {
                                            cursor: division.cursor,
                                            result: match header_of(
                                                format_word,
                                                num_tracks,
                                                division_word,
                                            ) {
                                                Err(e) => Err(e),
                                                Ok(header) => Ok((header, num_tracks)),
                                            },
                                        },
                                    }
                                },
                            }
                        },
                    }
                },
            }
        },
    }
}

/// Reading a file from where the reader stands: the header chunk, then as
/// many track chunks as the header counts. Whether running status was met
/// on the way becomes the file's setting for writing.
pub open spec fn spec_parse_file_at(c: Cursor) -> Parsed<MidiFileView> {
    let header = spec_parse_header(c);
    match header.result {
        Err(e) => Parsed { cursor: header.cursor, result: Err(e) },
        Ok((h, num_tracks)) => {
            let tracks = spec_parse_tracks(header.cursor, Seq::empty(), num_tracks as nat);
            match tracks.result {
                Err(e) => Parsed { cursor: tracks.cursor, result: Err(e) },
                Ok(t) => Parsed {
                    cursor: tracks.cursor,
                    result: Ok(
                        MidiFileView {
                            header: h,
                            tracks: t,
                            running_status: tracks.cursor.running_status,
                        },
                    ),
                },
            }
        },
    }
}

/// The file that `data` hold, or why they hold none.
pub open spec fn spec_parse_file(data: Seq<u8>) -> Result<MidiFileView, ErrorKind> {
    spec_parse_file_at(Cursor::start(data)).result
}

/// A file is read only where its first four bytes are the tag `MThd`:
/// bytes that are cut short within the tag, or begin otherwise, are
/// refused.
pub proof fn lemma_file_without_header_tag_is_refused(data: Seq<u8>)
    requires
        data.len() < 4 || data.subrange(0, 4) != header_tag(),
    ensures
        spec_parse_file(data) is Err,
{
    Cursor::start(data).lemma_take_gives_the_source(4);
}

/// Tracks are read only where each of them fills the length that its chunk
/// declares, so that each ends with the end-of-track event.
pub proof fn lemma_tracks_read_are_closed(
    c: Cursor,
    so_far: Seq<Seq<TrackEventView>>,
    remaining: nat,
)
    requires
        c.wf(),
        forall|i: int| 0 <= i < so_far.len() ==> ends_with_end_of_track(#[trigger] so_far[i]),
    ensures
        spec_parse_tracks(c, so_far, remaining).result matches Ok(tracks) ==> (tracks.len()
            == so_far.len() + remaining && forall|i: int|
            0 <= i < tracks.len() ==> ends_with_end_of_track(#[trigger] tracks[i])),
    decreases remaining,
{
    if remaining > 0 {
        crate::file::track::lemma_track_fills_its_length(c);
        let track = spec_parse_track(c);
        if let Ok(events) = track.result {
            lemma_tracks_read_are_closed(track.cursor, so_far.push(events), (remaining - 1) as nat);
        }
    }
}

/// Whatever bytes are read as a file, the file is whole: the number of its
/// tracks is the number that its header counts, a file of the
/// single-track format has at most one track, and every track ends with
/// the end-of-track event.
pub proof fn lemma_a_file_that_is_read_is_well_formed(data: Seq<u8>)
    ensures
        spec_parse_file(data) matches Ok(file) ==> file.wf(),
{
    let c = Cursor::start(data);
    let header = spec_parse_header(c);
    if header.result is Ok {
        c.lemma_take_follows(4);
        let tag = c.take(4).cursor;
        tag.lemma_take_follows(4);
        let length = tag.take(4).cursor;
        length.lemma_take_follows(2);
        let format = length.take(2).cursor;
        format.lemma_take_follows(2);
        let count = format.take(2).cursor;
        count.lemma_take_follows(2);
        lemma_tracks_read_are_closed(header.cursor, Seq::empty(), header.result->Ok_0.1 as nat);
    }
}

/// What `push_track` does: the file with one more track, closed by an
/// end-of-track event; or why the file can take no more.
pub open spec fn pushed(file: MidiFileView, track: Seq<TrackEventView>) -> Result<
    MidiFileView,
    ErrorKind,
> {
    if file.tracks.len() >= 65535 {
        Err(ErrorKind::TooManyTracks)
    } else if file.header.format == Format::Single && file.tracks.len() >= 1 {
        Err(ErrorKind::InvalidFile(Defect::TooManyTracksForFormat))
    } else {
        Ok(MidiFileView { tracks: file.tracks.push(with_end_of_track(track)), ..file })
    }
}

/// What `insert_track` does: the file with one more track before the
/// track at `index`, closed by an end-of-track event; or why the file can
/// take no more, or that there is no track at `index`.
pub open spec fn inserted(file: MidiFileView, index: u32, track: Seq<TrackEventView>) -> Result<
    MidiFileView,
    ErrorKind,
> {
    if file.tracks.len() >= 65535 {
        Err(ErrorKind::TooManyTracks)
    } else if file.header.format == Format::Single && file.tracks.len() >= 1 {
        Err(ErrorKind::InvalidFile(Defect::TooManyTracksForFormat))
    } else if index >= file.tracks.len() {
        Err(ErrorKind::Other)
    } else {
        Ok(
            MidiFileView {
                tracks: file.tracks.insert(index as int, with_end_of_track(track)),
                ..file
            },
        )
    }
}

/// What `remove_track` does: the file without the track at `index`, and
/// that track; or that there is no track at `index`.
pub open spec fn removed(file: MidiFileView, index: u32) -> Result<
    (MidiFileView, Seq<TrackEventView>),
    ErrorKind,
> {
    if index >= file.tracks.len() {
        Err(ErrorKind::Other)
    } else {
        Ok(
            (
                MidiFileView { tracks: file.tracks.remove(index as int), ..file },
                file.tracks[index as int],
            ),
        )
    }
}

/// Adding a track keeps a file whole, and the track that was added ends
/// with the end-of-track event; adding a track that ends so adds the
/// track as it is.
pub proof fn lemma_pushed(file: MidiFileView, track: Seq<TrackEventView>)
    requires
        file.wf(),
    ensures
        pushed(file, track) matches Ok(more) ==> (more.wf() && ends_with_end_of_track(
            more.tracks.last(),
        ) && (ends_with_end_of_track(track) ==> more.tracks.last() == track)),
        pushed(file, with_end_of_track(track)) == pushed(file, track),
{
}

/// Inserting a track keeps a file whole, and the track that was inserted
/// ends with the end-of-track event; inserting a track that ends so
/// inserts the track as it is.
pub proof fn lemma_inserted(file: MidiFileView, index: u32, track: Seq<TrackEventView>)
    requires
        file.wf(),
    ensures
        inserted(file, index, track) matches Ok(more) ==> (more.wf() && ends_with_end_of_track(
            more.tracks[index as int],
        ) && (ends_with_end_of_track(track) ==> more.tracks[index as int] == track)),
        inserted(file, index, with_end_of_track(track)) == inserted(file, index, track),
{
}

impl MidiFile {
    /// A new file with the default settings.
    pub fn new() -> (r: Self)
        ensures
            r@.header.format == Format::Multi,
            r@.header.division == Division::QuarterNote(
                crate::file::QuarterNoteDivision::spec_new(1024),
            ),
            r@.tracks == Seq::<Seq<TrackEventView>>::empty(),
            !r@.running_status,
            r@.wf(),
    {
        Self::new_with_settings(Settings::new())
    }

    /// The header.
    pub fn header(&self) -> (r: &Header)
        ensures
            *r == self@.header,
    {
        &self.header
    }

    /// Whether redundant status bytes are left out when the file is
    /// written.
    pub fn running_status(&self) -> (r: bool)
        ensures
            r == self@.running_status,
    {
        self.running_status
    }

    /// A new file with the given settings.
    pub fn new_with_settings(settings: Settings) -> (r: Self)
        ensures
            r@.header.format == settings.chosen_format(),
            r@.header.division == settings.chosen_division(),
            r@.tracks == Seq::<Seq<TrackEventView>>::empty(),
            r@.running_status == settings.chosen_running_status(),
            r@.wf(),
    {
        let tracks: Vec<Track> = Vec::new();
        assert(track_views(tracks@) =~= Seq::<Seq<TrackEventView>>::empty());
        Self {
            header: Header::new(settings.format, settings.division),
            tracks,
            running_status: settings.running_status,
        }
    }

    /// Reads a file from bytes.
    pub fn read(bytes: &[u8]) -> (r: Result<Self, Error>)
        ensures
            agrees_view(r, spec_parse_file(bytes@)),
            r matches Ok(file) ==> file@.wf(),
    {
        let mut iter = ByteIter::new(bytes);
        Self::read_inner(&mut iter)
    }

    /// Writes the file to the end of `w`. Where the file cannot be written,
    /// `w` stays as it is.
    pub fn write(&self, w: &mut Vec<u8>) -> (r: Result<(), Error>)
        ensures
            match self@.wire() {
                Ok(bytes) => r is Ok && final(w)@ == old(w)@ + bytes,
                Err(k) => agrees(r, Err(k)) && final(w)@ == old(w)@,
            },
    {
        if self.tracks.len() > 65535 {
            return Err(Error::new(ErrorKind::TooManyTracks));
        }
        let ntracks = self.tracks.len() as u16;
        let mut scribe = Scribe::new(
            Vec::new(),
            ScribeSettings { running_status: self.running_status },
        );
        match self.header.write(&mut scribe, ntracks) {
            Ok(_) => {},
            Err(e) => {
                return Err(e);
            },
        }
        let ghost header = self.header.wire(ntracks)->Ok_0;
        let ghost tracks = self@.tracks;
        let mut i: usize = 0;
        while i < self.tracks.len()
            invariant
                i <= self.tracks@.len(),
                tracks == track_views(self.tracks@),
                *w == *old(w),
                scribe@.running_status == self.running_status,
                self@.wire() == (match tracks_wire(tracks, self.running_status) {
                    Err(e) => Err(e),
                    Ok(chunks) => Ok(header + chunks),
                }),
                tracks_wire(tracks.subrange(0, i as int), self.running_status) matches Ok(chunks)
                    && scribe@.bytes == header + chunks,
            decreases self.tracks.len() - i,
        {
            proof {
                let next = tracks.subrange(0, i + 1);
                assert(next.drop_last() =~= tracks.subrange(0, i as int));
                assert(next.last() == self.tracks@[i as int]@);
                lemma_tracks_wire_fails_on(tracks, i + 1, self.running_status);
            }
            let ghost before = scribe@.bytes;
            match self.tracks[i].write(&mut scribe) {
                Ok(_) => {},
                Err(e) => {
                    return Err(e);
                },
            }
            proof {
                let chunk = track_wire(self.tracks@[i as int]@, self.running_status)->Ok_0;
                let chunks = tracks_wire(tracks.subrange(0, i as int), self.running_status)->Ok_0;
                assert(before + chunk =~= header + (chunks + chunk));
            }
            i = i + 1;
        }
        proof {
            assert(tracks.subrange(0, i as int) =~= tracks);
        }
        let mut bytes = scribe.into_inner();
        w.append(&mut bytes);
        Ok(())
    }

    /// The number of tracks; the largest 32-bit number where there are
    /// more.
    pub fn tracks_len(&self) -> (r: u32)
        ensures
            r == (if self@.tracks.len() <= u32::MAX {
                self@.tracks.len() as int
            } else {
                u32::MAX as int
            }),
    {
        if self.tracks.len() > u32::MAX as usize {
            u32::MAX
        } else {
            self.tracks.len() as u32
        }
    }

    /// The tracks of the file, in order.
    pub fn tracks(&self) -> (r: &[Track])
        ensures
            track_views(r@) == self@.tracks,
    {
        self.tracks.as_slice()
    }

    /// The track at `index`, if there is one.
    pub fn track(&self, index: u32) -> (r: Option<&Track>)
        ensures
            match r {
                Some(track) => index < self@.tracks.len() && track@ == self@.tracks[index as int],
                None => index >= self@.tracks.len(),
            },
    {
        let i = index as usize;
        if i < self.tracks.len() {
            assert(self@.tracks[index as int] == self.tracks@[index as int]@);
            Some(&self.tracks[i])
        } else {
            None
        }
    }

    /// Adds a track at the end. The track is closed by an end-of-track
    /// event if it is not yet. A file of the single-track format takes one
    /// track, and no file takes more tracks than 16 bits can count.
    pub fn push_track(&mut self, track: Track) -> (r: Result<(), Error>)
        ensures
            match pushed(old(self)@, track@) {
                Ok(file) => r is Ok && final(self)@ == file,
                Err(k) => agrees(r, Err(k)) && final(self)@ == old(self)@,
            },
            old(self)@.wf() ==> final(self)@.wf(),
    {
        if self.tracks.len() >= 65535 {
            return Err(Error::new(ErrorKind::TooManyTracks));
        }
        if let Format::Single = self.header.format {
            if self.tracks.len() >= 1 {
                return Err(Error::new(ErrorKind::InvalidFile(Defect::TooManyTracksForFormat)));
            }
        }
        let closed = ensure_end_of_track(track);
        let ghost before = track_views(self.tracks@);
        self.tracks.push(closed);
        assert(track_views(self.tracks@) =~= before.push(with_end_of_track(track@)));
        Ok(())
    }

    /// Adds a track before the track at `index`, which must exist. The
    /// track is closed by an end-of-track event if it is not yet.
    pub fn insert_track(&mut self, index: u32, track: Track) -> (r: Result<(), Error>)
        ensures
            match inserted(old(self)@, index, track@) {
                Ok(file) => r is Ok && final(self)@ == file,
                Err(k) => agrees(r, Err(k)) && final(self)@ == old(self)@,
            },
            old(self)@.wf() ==> final(self)@.wf(),
    {
        if self.tracks.len() >= 65535 {
            return Err(Error::new(ErrorKind::TooManyTracks));
        }
        if let Format::Single = self.header.format {
            if self.tracks.len() >= 1 {
                return Err(Error::new(ErrorKind::InvalidFile(Defect::TooManyTracksForFormat)));
            }
        }
        if index as usize >= self.tracks.len() {
            return Err(Error::new(ErrorKind::Other));
        }
        let closed = ensure_end_of_track(track);
        let ghost before = track_views(self.tracks@);
        self.tracks.insert(index as usize, closed);
        assert(track_views(self.tracks@) =~= before.insert(
            index as int,
            with_end_of_track(track@),
        ));
        Ok(())
    }

    /// Takes the track at `index` out of the file.
    pub fn remove_track(&mut self, index: u32) -> (r: Result<Track, Error>)
        ensures
            match removed(old(self)@, index) {
                Ok((file, taken)) => r matches Ok(track) && track@ == taken && final(self)@ == file,
                Err(k) => r matches Err(e) && agrees(Err::<(), Error>(e), Err(k)) && final(self)@
                    == old(self)@,
            },
            old(self)@.wf() ==> final(self)@.wf(),
    {
        if index as usize >= self.tracks.len() {
            return Err(Error::new(ErrorKind::Other));
        }
        let ghost before = track_views(self.tracks@);
        assert(before[index as int] == self.tracks@[index as int]@);
        let track = self.tracks.remove(index as usize);
        assert(track_views(self.tracks@) =~= before.remove(index as int));
        Ok(track)
    }

    /// Reads a file from where the reader stands.
    pub fn read_inner(iter: &mut ByteIter) -> (r: Result<Self, Error>)
        ensures
            final(iter)@ == spec_parse_file_at(old(iter)@).cursor,
            agrees_view(r, spec_parse_file_at(old(iter)@).result),
            r matches Ok(file) ==> file@.wf(),
    {
        match iter.expect_tag(&[0x4d, 0x54, 0x68, 0x64]) {
            Ok(_) => {},
            Err(e) => {
                return Err(e);
            },
        }
        let chunk_length = match iter.read_u32() {
            Ok(length) => length,
            Err(e) => {
                return Err(e);
            },
        };
        // header chunk length is always 6
        if chunk_length != 6 {
            return Err(Error::new(ErrorKind::InvalidFile(Defect::HeaderLength)));
        }
        let format_word = match iter.read_u16() {
            Ok(word) => word,
            Err(e) => {
                return Err(e);
            },
        };
        let num_tracks = match iter.read_u16() {
            Ok(word) => word,
            Err(e) => {
                return Err(e);
            },
        };
        let division_data = match iter.read_u16() {
            Ok(word) => word,
            Err(e) => {
                return Err(e);
            },
        };
        let format = match Format::from_u16(format_word) {
            Ok(format) => format,
            Err(e) => {
                return Err(e);
            },
        };
        let division = match Division::from_u16(division_data) {
            Ok(division) => division,
            Err(e) => {
                return Err(e);
            },
        };
        if let Format::Single = format {
            if num_tracks > 1 {
                return Err(Error::new(ErrorKind::InvalidFile(Defect::TooManyTracksForFormat)));
            }
        }
        let header = Header::new(format, division);
        let ghost whole = spec_parse_file_at(old(iter)@);
        let ghost target = spec_parse_tracks(iter@, Seq::empty(), num_tracks as nat);
        let mut tracks: Vec<Track> = Vec::new();
        assert(track_views(tracks@) =~= Seq::<Seq<TrackEventView>>::empty());
        let mut i: u16 = 0;
        while i < num_tracks
            invariant
                i <= num_tracks,
                tracks@.len() == i,
                whole == spec_parse_file_at(old(iter)@),
                target.result is Err ==> whole.cursor == target.cursor && whole.result == Err::<
                    MidiFileView,
                    ErrorKind,
                >(target.result->Err_0),
                target == spec_parse_tracks(iter@, track_views(tracks@), (num_tracks - i) as nat),
                forall|j: int|
                    0 <= j < tracks@.len() ==> ends_with_end_of_track(
                        #[trigger] track_views(tracks@)[j],
                    ),
            decreases num_tracks - i,
        {
            let track = match Track::parse(iter) {
                Ok(track) => track,
                Err(e) => {
                    return Err(e);
                },
            };
            let ghost track_view = track@;
            let ghost tracks_before = track_views(tracks@);
            tracks.push(track);
            assert(track_views(tracks@) =~= tracks_before.push(track_view));
            i = i + 1;
        }
        Ok(Self { running_status: iter.is_running_status_detected(), header, tracks })
    }
}

/// Where the first `n` tracks make no chunks, all of them make none, for
/// the same reason.
pub proof fn lemma_tracks_wire_fails_on(
    tracks: Seq<Seq<TrackEventView>>,
    n: int,
    running_status: bool,
)
    requires
        0 <= n <= tracks.len(),
    ensures
        tracks_wire(tracks.subrange(0, n), running_status) matches Err(e) ==> tracks_wire(
            tracks,
            running_status,
        ) == Err::<Seq<u8>, ErrorKind>(e),
    decreases tracks.len() - n,
{
    if n == tracks.len() {
        assert(tracks.subrange(0, n) =~= tracks);
    } else {
        let next = tracks.subrange(0, n + 1);
        assert(next.drop_last() =~= tracks.subrange(0, n));
        lemma_tracks_wire_fails_on(tracks, n + 1, running_status);
    }
}

impl Default for MidiFile {
    fn default() -> (r: Self)
        ensures
            r@.header.format == Format::Multi,
            r@.tracks == Seq::<Seq<TrackEventView>>::empty(),
            !r@.running_status,
            r@.wf(),
    {
        Self::new()
    }
}

} // verus!
