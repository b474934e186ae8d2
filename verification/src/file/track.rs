//! Track chunks, where the song data of a file is stored.
//!
//! A track chunk is a stream of events, each preceded by its delta time:
//! `<Track Chunk> = <chunk type><length><MTrk event>+`. The chunk type is
//! `MTrk`, the length counts the bytes of the events, and the last event
//! of every track is the end-of-track meta-event.

use crate::byte_iter::{be32_bytes, ByteIter, Cursor, Parsed};
use crate::error::{agrees, Defect, Error, ErrorKind};
use crate::file::meta_event::{MetaEvent, MetaEventView, TimeSignatureValue};
use crate::file::numbers::{MicrosecondsPerQuarter, QuartersPerMinute};
use crate::file::track_event::{
    lemma_parse_track_event_follows, spec_parse_track_event, Event, EventView, TrackEvent,
    TrackEventView,
};
use crate::midi::clocks::Clocks;
use crate::midi::duration_name::DurationName;
use crate::midi::general_midi::GeneralMidi;
use crate::midi::message::{Message, NoteMessage, PitchBendMessage, ProgramChangeValue};
use crate::midi::numbers::{Channel, NoteNumber, PitchBendValue, Program, Velocity};
use crate::scribe::{written, Scribe, ScribeSettings, Written};
use crate::text::{text_of_str, Text};
use vstd::prelude::*;

verus! {

/// The four bytes `MTrk` that open a track chunk.
pub open spec fn track_tag() -> Seq<u8> {
    seq![0x4du8, 0x54u8, 0x72u8, 0x6bu8]
}

/// A track: the events of a track chunk, in order.
#[derive(Clone, Debug, PartialEq, Eq, PartialOrd, Ord, Hash)]
pub struct Track {
    events: Vec<TrackEvent>,
}

/// The events as contracts speak of them.
pub open spec fn views(events: Seq<TrackEvent>) -> Seq<TrackEventView> {
    events.map_values(|e: TrackEvent| e@)
}

impl View for Track {
    type V = Seq<TrackEventView>;

    closed spec fn view(&self) -> Seq<TrackEventView> {
        views(self.events@)
    }
}

/// Whether a track is closed: its last event is the end of the track.
pub open spec fn ends_with_end_of_track(events: Seq<TrackEventView>) -> bool {
    events.len() > 0 && events.last().is_end()
}

/// The events, closed by an end-of-track event where they are not yet.
pub open spec fn with_end_of_track(events: Seq<TrackEventView>) -> Seq<TrackEventView> {
    if ends_with_end_of_track(events) {
        events
    } else {
        events.push(TrackEventView::end_of_track())
    }
}

/// Closing a track closes it, and closing it again changes nothing.
pub proof fn lemma_with_end_of_track(events: Seq<TrackEventView>)
    ensures
        ends_with_end_of_track(with_end_of_track(events)),
        with_end_of_track(with_end_of_track(events)) == with_end_of_track(events),
        ends_with_end_of_track(events) ==> with_end_of_track(events) == events,
{
}

/// Reading the events of a track chunk after `so_far`, under the limit that
/// the length of the chunk sets: events are read until one is the end of
/// the track, at which the limit must be reached exactly. Reaching the
/// limit before that is an error, and so is an end of track before the
/// limit.
pub open spec fn spec_parse_events(c: Cursor, so_far: Seq<TrackEventView>) -> Parsed<
    Seq<TrackEventView>,
>
    decreases c.data.len() - c.taken,
{
    if c.is_end() {
        Parsed { cursor: c, result: Err(ErrorKind::InvalidFile(Defect::TrackTruncated)) }
    } else {
        let next = spec_parse_track_event(c);
        match next.result {
            Err(e) => Parsed { cursor: next.cursor, result: Err(e) },
            Ok(event) => if event.is_end() {
                if next.cursor.is_end() {
                    Parsed { cursor: next.cursor, result: Ok(so_far.push(event)) }
                } else {
                    Parsed {
                        cursor: next.cursor,
                        result: Err(ErrorKind::InvalidFile(Defect::EarlyEndOfTrack)),
                    }
                }
            } else {
                proof {
                    lemma_parse_track_event_follows(c);
                }
                spec_parse_events(next.cursor, so_far.push(event))
            },
        }
    }
}

/// Reading a track chunk: the tag `MTrk`, the length of the chunk, and the
/// events, which must fill exactly that length.
pub open spec fn spec_parse_track(c: Cursor) -> Parsed<Seq<TrackEventView>> {
    let tag = c.expect_tag(track_tag());
    match tag.result {
        Err(e) => Parsed { cursor: tag.cursor, result: Err(e) },
        Ok(_) => {
            let length = tag.cursor.read_u32();
            match length.result {
                Err(e) => Parsed { cursor: length.cursor, result: Err(e) },
                Ok(chunk_length) => {
                    let events = spec_parse_events(
                        length.cursor.set_size_limit(chunk_length as u64),
                        Seq::empty(),
                    );
                    match events.result {
                        Err(e) => Parsed { cursor: events.cursor, result: Err(e) },
                        Ok(e) => Parsed { cursor: events.cursor.clear_size_limit(), result: Ok(e) },
                    }
                },
            }
        },
    }
}

/// The events of a track are read only up to the limit, and exactly up to
/// it where they are read to the end: the reader ends with the byte at
/// the limit as the one read last.
pub proof fn lemma_events_end_at_the_limit(c: Cursor, so_far: Seq<TrackEventView>)
    requires
        !c.exhausted,
        c.taken >= 1,
        c.within_limit(),
    ensures
        spec_parse_events(c, so_far).cursor.data == c.data,
        spec_parse_events(c, so_far).cursor.limit == c.limit,
        spec_parse_events(c, so_far).result matches Ok(events) ==> (c.limit matches Some(l)
            && spec_parse_events(c, so_far).cursor.taken == l + 1 && ends_with_end_of_track(events)
            && !spec_parse_events(c, so_far).cursor.exhausted && spec_parse_events(
            c,
            so_far,
        ).cursor.taken <= c.data.len()),
    decreases c.data.len() - c.taken,
{
    if !c.is_end() {
        lemma_parse_track_event_follows(c);
        let next = spec_parse_track_event(c);
        if let Ok(event) = next.result {
            if !event.is_end() {
                lemma_events_end_at_the_limit(next.cursor, so_far.push(event));
            }
        }
    }
}

/// The length that a track chunk declares is held against its events: a
/// track is read only where, behind the tag and the length, the events up
/// to the end of the track fill exactly as many bytes as the length says.
pub proof fn lemma_track_fills_its_length(c: Cursor)
    requires
        c.wf(),
    ensures
        spec_parse_track(c).result is Ok ==> (c.take(8).result matches Ok(head) && spec_parse_track(
            c,
        ).cursor.taken == c.taken + 8 + crate::byte_iter::be32(head.subrange(4, 8))),
        spec_parse_track(c).result matches Ok(events) ==> ends_with_end_of_track(events),
        spec_parse_track(c).result is Ok ==> spec_parse_track(c).cursor.wf(),
        spec_parse_track(c).cursor.data == c.data,
{
    let tag = c.expect_tag(track_tag());
    c.lemma_take_follows(4);
    if tag.result is Ok {
        let length = tag.cursor.read_u32();
        tag.cursor.lemma_take_follows(4);
        if let Ok(chunk_length) = length.result {
            let limited = length.cursor.set_size_limit(chunk_length as u64);
            lemma_events_end_at_the_limit(limited, Seq::empty());
            lemma_take_twice(c, 4, 4);
            c.lemma_take_length(4);
            tag.cursor.lemma_take_length(4);
            let head = c.take(8).result->Ok_0;
            assert(head.subrange(4, 8) =~= tag.cursor.take(4).result->Ok_0);
        }
    }
}

/// A track chunk is read only where the next four bytes are its tag.
pub proof fn lemma_track_without_tag_is_refused(c: Cursor)
    requires
        c.taken + 4 > c.data.len() || c.data.subrange(
            c.taken as int,
            (c.taken + 4) as int,
        ) != track_tag(),
    ensures
        spec_parse_track(c).result is Err,
{
    c.lemma_take_gives_the_source(4);
}

/// Reading `m` bytes and then `n` more is reading `m + n`.
pub proof fn lemma_take_twice(c: Cursor, m: nat, n: nat)
    requires
        c.take(m).result is Ok,
    ensures
        c.take(m + n).cursor == c.take(m).cursor.take(n).cursor,
        c.take(m + n).result == (match c.take(m).cursor.take(n).result {
            Ok(more) => Ok::<Seq<u8>, ErrorKind>(c.take(m).result->Ok_0 + more),
            Err(e) => Err::<Seq<u8>, ErrorKind>(e),
        }),
    decreases n,
{
    if n == 0 {
        assert(c.take(m).result->Ok_0 + Seq::<u8>::empty() =~= c.take(m).result->Ok_0);
    } else {
        lemma_take_twice(c, m, (n - 1) as nat);
        assert((m + n - 1) as nat == m + (n - 1) as nat);
        let first = c.take(m).result->Ok_0;
        if let Ok(more) = c.take(m).cursor.take((n - 1) as nat).result {
            let last = c.take(m).cursor.take((n - 1) as nat).cursor.read_or_die();
            if let Ok(b) = last.result {
                assert((first + more).push(b) =~= first + more.push(b));
            }
        }
    }
}

/// The writer after all `events`, or why the first event that cannot be
/// written cannot.
pub open spec fn events_written_to(events: Seq<TrackEventView>, w: Written) -> Result<
    Written,
    ErrorKind,
>
    decreases events.len(),
{
    if events.len() == 0 {
        Ok(w)
    } else {
        match events_written_to(events.drop_last(), w) {
            Err(e) => Err(e),
            Ok(before) => events.last().written_to(before),
        }
    }
}

/// The bytes of the events of a track, written from a fresh start.
pub open spec fn track_data(events: Seq<TrackEventView>, running_status: bool) -> Result<
    Seq<u8>,
    ErrorKind,
> {
    match events_written_to(events, Written::fresh(running_status)) {
        Err(e) => Err(e),
        Ok(w) => Ok(w.bytes),
    }
}

/// The track chunk of `events`: the tag, the length of the data, and the
/// data. Data whose length does not fit in 32 bits make no chunk.
pub open spec fn track_wire(events: Seq<TrackEventView>, running_status: bool) -> Result<
    Seq<u8>,
    ErrorKind,
> {
    match track_data(events, running_status) {
        Err(e) => Err(e),
        Ok(data) => if data.len() > u32::MAX {
            Err(ErrorKind::TrackTooLong)
        } else {
            Ok(track_tag() + be32_bytes(data.len() as u32) + data)
        },
    }
}

/// The events that have their place at the beginning of a track.
pub enum Opening {
    TrackName,
    InstrumentName,
    ProgramChange,
}

/// Whether an event is of the kind `kind`.
pub open spec fn is_opening(kind: Opening, e: EventView) -> bool {
    match kind {
        Opening::TrackName => e matches EventView::Meta(m) && m is TrackName,
        Opening::InstrumentName => e matches EventView::Meta(m) && m is InstrumentName,
        Opening::ProgramChange => e matches EventView::Midi(m) && m is ProgramChange,
    }
}

/// The index of the first event of the kind `kind` at or after `from`,
/// among the events that open the track at time zero: the search ends at
/// the first event with a delta time.
pub open spec fn find_leading(events: Seq<TrackEventView>, kind: Opening, from: int) -> Option<int>
    decreases events.len() - from,
{
    if from < 0 || from >= events.len() {
        None
    } else if events[from].delta_time != 0 {
        None
    } else if is_opening(kind, events[from].event) {
        Some(from)
    } else {
        find_leading(events, kind, from + 1)
    }
}

/// The events with `event` set at the beginning of the track: in place of
/// the leading event of the kind `kind`, or before all events where there
/// is none.
pub open spec fn with_leading(events: Seq<TrackEventView>, kind: Opening, event: EventView) -> Seq<
    TrackEventView,
> {
    let track_event = TrackEventView { delta_time: 0, event };
    match find_leading(events, kind, 0) {
        Some(i) => events.update(i, track_event),
        None => events.insert(0, track_event),
    }
}

/// The tempo in microseconds per quarter note for a tempo in quarter notes
/// per minute: the microseconds of a minute, shared out and rounded down.
pub open spec fn tempo_of(quarters_per_minute: QuartersPerMinute) -> MicrosecondsPerQuarter {
    MicrosecondsPerQuarter::spec_new((60_000_000int / quarters_per_minute.value()) as u32)
}

impl Track {
    /// Whether the track has no events.
    pub fn is_empty(&self) -> (r: bool)
        ensures
            r == (self@.len() == 0),
    {
        self.events.is_empty()
    }

    /// The number of events in the track.
    pub fn events_len(&self) -> (r: usize)
        ensures
            r == self@.len(),
    {
        self.events.len()
    }

    /// The events of the track, in order.
    pub fn events(&self) -> (r: &[TrackEvent])
        ensures
            views(r@) == self@,
    {
        self.events.as_slice()
    }

    /// Adds an event to the end.
    pub fn push_event(&mut self, delta_time: u32, event: Event) -> (r: Result<(), Error>)
        ensures
            r is Ok,
            final(self)@ == old(self)@.push(TrackEventView { delta_time, event: event@ }),
    {
        self.events.push(TrackEvent::new(delta_time, event));
        assert(final(self)@ =~= old(self)@.push(TrackEventView { delta_time, event: event@ }));
        Ok(())
    }

    fn insert_at(&mut self, index: usize, delta_time: u32, event: Event)
        requires
            index <= old(self)@.len(),
        ensures
            final(self)@ == old(self)@.insert(
                index as int,
                TrackEventView { delta_time, event: event@ },
            ),
    {
        self.events.insert(index, TrackEvent::new(delta_time, event));
        assert(final(self)@ =~= old(self)@.insert(
            index as int,
            TrackEventView { delta_time, event: event@ },
        ));
    }

    fn replace_at(&mut self, index: usize, delta_time: u32, event: Event)
        requires
            index < old(self)@.len(),
        ensures
            final(self)@ == old(self)@.update(
                index as int,
                TrackEventView { delta_time, event: event@ },
            ),
    {
        self.events[index] = TrackEvent::new(delta_time, event);
        assert(final(self)@ =~= old(self)@.update(
            index as int,
            TrackEventView { delta_time, event: event@ },
        ));
    }

    /// Adds an event at `index` and shifts everything after it.
    pub fn insert_event(&mut self, index: u32, delta_time: u32, event: Event) -> (r: Result<
        (),
        Error,
    >)
        requires
            index <= old(self)@.len(),
        ensures
            r is Ok,
            final(self)@ == old(self)@.insert(
                index as int,
                TrackEventView { delta_time, event: event@ },
            ),
    {
        self.insert_at(index as usize, delta_time, event);
        Ok(())
    }

    /// Replaces the event at `index`.
    pub fn replace_event(&mut self, index: u32, delta_time: u32, event: Event) -> (r: Result<
        (),
        Error,
    >)
        requires
            index < old(self)@.len(),
        ensures
            r is Ok,
            final(self)@ == old(self)@.update(
                index as int,
                TrackEventView { delta_time, event: event@ },
            ),
    {
        self.replace_at(index as usize, delta_time, event);
        Ok(())
    }

    /// Adds, or replaces, the track name at the beginning of the track.
    pub fn set_name(&mut self, name: &str) -> (r: Result<(), Error>)
        ensures
            r is Ok,
            final(self)@ == with_leading(
                old(self)@,
                Opening::TrackName,
                EventView::Meta(MetaEventView::TrackName(text_of_str(name@))),
            ),
    {
        let meta = Event::Meta(MetaEvent::TrackName(Text::new(name)));
        let mut ix: usize = 0;
        while ix < self.events.len() && self.events[ix].delta_time() == 0
            invariant
                self@ == old(self)@,
                self@ == views(self.events@),
                ix <= self.events@.len(),
                meta@ == EventView::Meta(MetaEventView::TrackName(text_of_str(name@))),
                find_leading(self@, Opening::TrackName, 0) == find_leading(
                    self@,
                    Opening::TrackName,
                    ix as int,
                ),
            decreases self.events.len() - ix,
        {
            assert(self@[ix as int] == self.events@[ix as int]@);
            if let Event::Meta(MetaEvent::TrackName(_)) = self.events[ix].event() {
                self.replace_at(ix, 0, meta);
                return Ok(());
            }
            ix = ix + 1;
        }
        proof {
            if ix < self.events@.len() {
                assert(self@[ix as int] == self.events@[ix as int]@);
            }
        }
        self.insert_at(0, 0, meta);
        Ok(())
    }

    /// Adds, or replaces, the instrument name at the beginning of the
    /// track.
    pub fn set_instrument_name(&mut self, name: &str) -> (r: Result<(), Error>)
        ensures
            r is Ok,
            final(self)@ == with_leading(
                old(self)@,
                Opening::InstrumentName,
                EventView::Meta(MetaEventView::InstrumentName(text_of_str(name@))),
            ),
    {
        let meta = Event::Meta(MetaEvent::InstrumentName(Text::new(name)));
        let mut ix: usize = 0;
        while ix < self.events.len() && self.events[ix].delta_time() == 0
            invariant
                self@ == old(self)@,
                self@ == views(self.events@),
                ix <= self.events@.len(),
                meta@ == EventView::Meta(MetaEventView::InstrumentName(text_of_str(name@))),
                find_leading(self@, Opening::InstrumentName, 0) == find_leading(
                    self@,
                    Opening::InstrumentName,
                    ix as int,
                ),
            decreases self.events.len() - ix,
        {
            assert(self@[ix as int] == self.events@[ix as int]@);
            if let Event::Meta(MetaEvent::InstrumentName(_)) = self.events[ix].event() {
                self.replace_at(ix, 0, meta);
                return Ok(());
            }
            ix = ix + 1;
        }
        proof {
            if ix < self.events@.len() {
                assert(self@[ix as int] == self.events@[ix as int]@);
            }
        }
        self.insert_at(0, 0, meta);
        Ok(())
    }

    /// Adds, or replaces, the General MIDI program at the beginning of the
    /// track.
    pub fn set_general_midi(&mut self, channel: Channel, value: GeneralMidi) -> (r: Result<
        (),
        Error,
    >)
        ensures
            r is Ok,
            final(self)@ == with_leading(
                old(self)@,
                Opening::ProgramChange,
                EventView::Midi(
                    Message::ProgramChange(
                        ProgramChangeValue { channel, program: Program::spec_new(value.code()) },
                    ),
                ),
            ),
    {
        let program_change = Event::Midi(
            Message::ProgramChange(
                ProgramChangeValue { channel, program: Program::new(value.to_u8()) },
            ),
        );
        let mut ix: usize = 0;
        while ix < self.events.len() && self.events[ix].delta_time() == 0
            invariant
                self@ == old(self)@,
                self@ == views(self.events@),
                ix <= self.events@.len(),
                program_change@ == EventView::Midi(
                    Message::ProgramChange(
                        ProgramChangeValue { channel, program: Program::spec_new(value.code()) },
                    ),
                ),
                find_leading(self@, Opening::ProgramChange, 0) == find_leading(
                    self@,
                    Opening::ProgramChange,
                    ix as int,
                ),
            decreases self.events.len() - ix,
        {
            assert(self@[ix as int] == self.events@[ix as int]@);
            if let Event::Midi(Message::ProgramChange(_)) = self.events[ix].event() {
                self.replace_at(ix, 0, program_change);
                return Ok(());
            }
            ix = ix + 1;
        }
        proof {
            if ix < self.events@.len() {
                assert(self@[ix as int] == self.events@[ix as int]@);
            }
        }
        self.insert_at(0, 0, program_change);
        Ok(())
    }

    /// Adds a time signature. The numerator must not be zero.
    pub fn push_time_signature(
        &mut self,
        delta_time: u32,
        numerator: u8,
        denominator: DurationName,
        click: Clocks,
    ) -> (r: Result<(), Error>)
        ensures
            match TimeSignatureValue::spec_new(numerator, denominator, click) {
                Ok(v) => r is Ok && final(self)@ == old(self)@.push(
                    TrackEventView {
                        delta_time,
                        event: EventView::Meta(MetaEventView::TimeSignature(v)),
                    },
                ),
                Err(k) => agrees(r, Err(k)) && final(self)@ == old(self)@,
            },
    {
        let time_sig = match TimeSignatureValue::new(numerator, denominator, click) {
            Ok(value) => value,
            Err(e) => {
                return Err(e);
            },
        };
        let event = Event::Meta(MetaEvent::TimeSignature(time_sig));
        self.push_event(delta_time, event)
    }

    /// Adds a tempo message.
    pub fn push_tempo(&mut self, delta_time: u32, quarters_per_minute: QuartersPerMinute) -> (r:
        Result<(), Error>)
        ensures
            r is Ok,
            final(self)@ == old(self)@.push(
                TrackEventView {
                    delta_time,
                    event: EventView::Meta(MetaEventView::SetTempo(tempo_of(quarters_per_minute))),
                },
            ),
    {
        // a minute has 60,000,000 microseconds
        let value: u32 = 60_000_000 / (quarters_per_minute.get() as u32);
        let event = Event::Meta(MetaEvent::SetTempo(MicrosecondsPerQuarter::new(value)));
        self.push_event(delta_time, event)
    }

    /// Adds a note on message.
    pub fn push_note_on(
        &mut self,
        delta_time: u32,
        channel: Channel,
        note_number: NoteNumber,
        velocity: Velocity,
    ) -> (r: Result<(), Error>)
        ensures
            r is Ok,
            final(self)@ == old(self)@.push(
                TrackEventView {
                    delta_time,
                    event: EventView::Midi(
                        Message::NoteOn(NoteMessage { channel, note_number, velocity }),
                    ),
                },
            ),
    {
        let note_on = Event::Midi(Message::NoteOn(NoteMessage { channel, note_number, velocity }));
        self.push_event(delta_time, note_on)
    }

    /// Adds a note off message.
    pub fn push_note_off(
        &mut self,
        delta_time: u32,
        channel: Channel,
        note_number: NoteNumber,
        velocity: Velocity,
    ) -> (r: Result<(), Error>)
        ensures
            r is Ok,
            final(self)@ == old(self)@.push(
                TrackEventView {
                    delta_time,
                    event: EventView::Midi(
                        Message::NoteOff(NoteMessage { channel, note_number, velocity }),
                    ),
                },
            ),
    {
        let note_off = Event::Midi(
            Message::NoteOff(NoteMessage { channel, note_number, velocity }),
        );
        self.push_event(delta_time, note_off)
    }

    /// Adds a lyric.
    pub fn push_lyric(&mut self, delta_time: u32, lyric: &str) -> (r: Result<(), Error>)
        ensures
            r is Ok,
            final(self)@ == old(self)@.push(
                TrackEventView {
                    delta_time,
                    event: EventView::Meta(MetaEventView::Lyric(text_of_str(lyric@))),
                },
            ),
    {
        let lyric = Event::Meta(MetaEvent::Lyric(Text::new(lyric)));
        self.push_event(delta_time, lyric)
    }

    /// Adds a pitch bend message.
    pub fn push_pitch_bend(&mut self, delta_time: u32, channel: Channel, pitch_bend: PitchBendValue)
        -> (r: Result<(), Error>)
        ensures
            r is Ok,
            final(self)@ == old(self)@.push(
                TrackEventView {
                    delta_time,
                    event: EventView::Midi(
                        Message::PitchBend(PitchBendMessage { channel, pitch_bend }),
                    ),
                },
            ),
    {
        let pitch_bend = Event::Midi(Message::PitchBend(PitchBendMessage { channel, pitch_bend }));
        self.push_event(delta_time, pitch_bend)
    }

    /// Reads a track chunk.
    pub fn parse(iter: &mut ByteIter) -> (r: Result<Self, Error>)
        ensures
            final(iter)@ == spec_parse_track(old(iter)@).cursor,
            match spec_parse_track(old(iter)@).result {
                Ok(events) => r matches Ok(track) && track@ == events && ends_with_end_of_track(
                    track@,
                ),
                Err(k) => agrees(r, Err(k)),
            },
    {
        match iter.expect_tag(&[0x4d, 0x54, 0x72, 0x6b]) {
            Ok(_) => {},
            Err(e) => {
                return Err(e);
            },
        }
        let chunk_length = match iter.read_u32() {
            Ok(length) => length,
            Err(e) => {
                return Err(e);
            },
        };
        iter.set_size_limit(chunk_length as u64);
        let ghost whole = spec_parse_track(old(iter)@);
        let ghost target = spec_parse_events(iter@, Seq::empty());
        let mut events: Vec<TrackEvent> = Vec::new();
        assert(views(events@) =~= Seq::<TrackEventView>::empty());
        loop
            invariant_except_break
                target == spec_parse_events(iter@, views(events@)),
            invariant
                whole == spec_parse_track(old(iter)@),
                target.result is Err ==> whole == target,
            ensures
                iter@ == target.cursor,
                target.result == Ok::<Seq<TrackEventView>, ErrorKind>(views(events@)),
                ends_with_end_of_track(views(events@)),
            decreases iter@.data.len() - iter@.taken,
        {
            if iter.is_end() {
                return Err(Error::new(ErrorKind::InvalidFile(Defect::TrackTruncated)));
            }
            proof {
                lemma_parse_track_event_follows(iter@);
            }
            let event = match TrackEvent::parse(iter) {
                Ok(event) => event,
                Err(e) => {
                    return Err(e);
                },
            };
            let is_track_end = event.is_end();
            let ghost event_view = event@;
            let ghost events_before = views(events@);
            events.push(event);
            assert(views(events@) =~= events_before.push(event_view));
            if is_track_end {
                if !iter.is_end() {
                    return Err(Error::new(ErrorKind::InvalidFile(Defect::EarlyEndOfTrack)));
                }
                break ;
            }
        }
        iter.clear_size_limit();
        Ok(Self { events })
    }

    /// Writes the track chunk. The events are written into a buffer of
    /// their own first, since the chunk begins with their length. Where
    /// the chunk cannot be written, nothing is.
    pub fn write(&self, w: &mut Scribe) -> (r: Result<(), Error>)
        ensures
            written(
                r,
                old(w)@,
                final(w)@,
                match track_wire(self@, old(w)@.running_status) {
                    Ok(bytes) => Ok(old(w)@.put(bytes)),
                    Err(e) => Err(e),
                },
            ),
    {
        // write all of the data first so that its length is known
        let mut track_scribe = Scribe::new(
            Vec::new(),
            ScribeSettings { running_status: w.use_running_status() },
        );
        let mut i: usize = 0;
        while i < self.events.len()
            invariant
                i <= self.events@.len(),
                self@ == views(self.events@),
                *w == *old(w),
                events_written_to(
                    self@.subrange(0, i as int),
                    Written::fresh(old(w)@.running_status),
                ) == Ok::<Written, ErrorKind>(track_scribe@),
            decreases self.events.len() - i,
        {
            proof {
                let next = self@.subrange(0, i + 1);
                assert(next.drop_last() =~= self@.subrange(0, i as int));
                assert(next.last() == self.events@[i as int]@);
                lemma_events_written_to_fails_on(
                    self@,
                    i + 1,
                    Written::fresh(old(w)@.running_status),
                );
            }
            match self.events[i].write(&mut track_scribe) {
                Ok(_) => {},
                Err(e) => {
                    return Err(e);
                },
            }
            i = i + 1;
        }
        proof {
            assert(self@.subrange(0, i as int) =~= self@);
        }
        let track_data = track_scribe.into_inner();
        // the length of the track
        if track_data.len() > u32::MAX as usize {
            return Err(Error::new(ErrorKind::TrackTooLong));
        }
        let track_length = track_data.len() as u32;
        // the track chunk header
        w.write_all(&[0x4d, 0x54, 0x72, 0x6b]);
        w.write_u32(track_length);
        // the track data
        w.write_all(track_data.as_slice());
        assert(final(w)@.bytes =~= old(w)@.bytes + (track_tag() + be32_bytes(track_length)
            + track_data@));
        Ok(())
    }
}

/// Where the first `n` events cannot be written, all of them cannot, for
/// the same reason.
pub proof fn lemma_events_written_to_fails_on(events: Seq<TrackEventView>, n: int, w: Written)
    requires
        0 <= n <= events.len(),
    ensures
        events_written_to(events.subrange(0, n), w) matches Err(e) ==> events_written_to(events, w)
            == Err::<Written, ErrorKind>(e),
    decreases events.len() - n,
{
    if n == events.len() {
        assert(events.subrange(0, n) =~= events);
    } else {
        let next = events.subrange(0, n + 1);
        assert(next.drop_last() =~= events.subrange(0, n));
        lemma_events_written_to_fails_on(events, n + 1, w);
    }
}

impl Default for Track {
    fn default() -> (r: Self)
        ensures
            r@ == Seq::<TrackEventView>::empty(),
    {
        let r = Track { events: Vec::new() };
        assert(r@ =~= Seq::<TrackEventView>::empty());
        r
    }
}

/// Closes a track: where its last event is not the end of the track, an
/// end-of-track event is added. A track that is closed stays as it is.
pub fn ensure_end_of_track(track: Track) -> (r: Track)
    ensures
        r@ == with_end_of_track(track@),
        ends_with_end_of_track(r@),
{
    let mut track = track;
    let n = track.events.len();
    if n > 0 {
        assert(track@[n - 1] == track.events@[n - 1]@);
        if !track.events[n - 1].is_end() {
            let _ = track.push_event(0, Event::Meta(MetaEvent::EndOfTrack));
        }
    } else {
        let _ = track.push_event(0, Event::Meta(MetaEvent::EndOfTrack));
    }
    track
}

} // verus!
