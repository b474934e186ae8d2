//! The events of a track: `<MTrk event> = <delta-time> <event>`, where
//! `<event> = <MIDI event> | <sysex event> | <meta-event>`.

use crate::byte_iter::{ByteIter, Cursor, Parsed};
use crate::error::{agrees_view, Error, ErrorKind, Feature};
use crate::file::meta_event::{lemma_parse_meta_follows, spec_parse_meta, MetaEvent, MetaEventView};
use crate::file::sysex::{SysexEvent, SysexEventView};
use crate::midi::message::{lemma_parse_message_follows, spec_parse_message, Message};
use crate::scribe::{written, Scribe, Written};
use crate::vlq::{encoding, Vlq};
use vstd::prelude::*;

verus! {

/// `0xFF`: every meta-event begins with it.
pub const FILE_META_EVENT: u8 = 0xff;

/// `0xF0`: begins a system exclusive event.
pub const FILE_SYSEX_F0: u8 = 0xf0;

/// `0xF7`: begins a system exclusive event of the second form.
pub const FILE_SYSEX_F7: u8 = 0xf7;

/// What happens at a point of a track.
#[derive(Clone, Debug, PartialEq, Eq, PartialOrd, Ord, Hash)]
pub enum Event {
    /// A MIDI channel message. Running status may apply.
    Midi(Message),
    /// A MIDI system exclusive message.
    Sysex(SysexEvent),
    /// Information that is not MIDI and serves the format or sequencers.
    Meta(MetaEvent),
}

/// An event as contracts speak of it.
pub enum EventView {
    Midi(Message),
    Sysex(SysexEventView),
    Meta(MetaEventView),
}

impl View for Event {
    type V = EventView;

    open spec fn view(&self) -> EventView {
        match self {
            Event::Midi(m) => EventView::Midi(*m),
            Event::Sysex(s) => EventView::Sysex(s@),
            Event::Meta(m) => EventView::Meta(m@),
        }
    }
}

/// An event of a track with the time that passes before it.
#[derive(Clone, Debug, PartialEq, Eq, PartialOrd, Ord, Hash)]
pub struct TrackEvent {
    /// The time before the event, in ticks as the header's division
    /// defines them. It is zero for the first event of a track that begins
    /// at once, and between events that happen at the same time. In a file
    /// it is a variable-length quantity.
    delta_time: u32,
    event: Event,
}

/// A track event as contracts speak of it.
pub struct TrackEventView {
    pub delta_time: u32,
    pub event: EventView,
}

impl View for TrackEvent {
    type V = TrackEventView;

    closed spec fn view(&self) -> TrackEventView {
        TrackEventView { delta_time: self.delta_time, event: self.event@ }
    }
}

impl EventView {
    /// Whether the event is the end of a track.
    pub open spec fn is_end(self) -> bool {
        self == EventView::Meta(MetaEventView::EndOfTrack)
    }

    /// The writer after the event, or why the event cannot be written.
    pub open spec fn written_to(self, w: Written) -> Result<Written, ErrorKind> {
        match self {
            EventView::Midi(m) => m.written_to(w),
            EventView::Sysex(_) => Err(ErrorKind::NotImplemented(Feature::Sysex)),
            EventView::Meta(m) => m.written_to(w),
        }
    }
}

impl TrackEventView {
    /// The end-of-track event that closes a track.
    pub open spec fn end_of_track() -> TrackEventView {
        TrackEventView { delta_time: 0, event: EventView::Meta(MetaEventView::EndOfTrack) }
    }

    /// Whether the event is the end of a track.
    pub open spec fn is_end(self) -> bool {
        self.event.is_end()
    }

    /// The writer after the delta time and the event, or why the event
    /// cannot be written.
    pub open spec fn written_to(self, w: Written) -> Result<Written, ErrorKind> {
        self.event.written_to(w.put(encoding(self.delta_time)))
    }
}

/// Reading one event. The next byte decides: `F0` and `F7` begin a system
/// exclusive event, `FF` a meta-event, anything else is a MIDI message.
#[verifier::opaque]
pub open spec fn spec_parse_event(c: Cursor) -> Parsed<EventView> {
    match c.peek_or_die() {
        Err(e) => Parsed { cursor: c, result: Err(e) },
        Ok(status_byte) => if status_byte == 0xf7 || status_byte == 0xf0 {
            Parsed { cursor: c, result: Err(ErrorKind::NotImplemented(Feature::Sysex)) }
        } else if status_byte == 0xff {
            let meta = spec_parse_meta(c);
            match meta.result {
                Err(e) => Parsed { cursor: meta.cursor, result: Err(e) },
                Ok(m) => Parsed { cursor: meta.cursor, result: Ok(EventView::Meta(m)) },
            }
        } else {
            let message = spec_parse_message(c);
            match message.result {
                Err(e) => Parsed { cursor: message.cursor, result: Err(e) },
                Ok(m) => Parsed { cursor: message.cursor, result: Ok(EventView::Midi(m)) },
            }
        },
    }
}

/// Reading one track event: the delta time, then the event.
#[verifier::opaque]
pub open spec fn spec_parse_track_event(c: Cursor) -> Parsed<TrackEventView> {
    let delta = c.read_vlq_u32();
    match delta.result {
        Err(e) => Parsed { cursor: delta.cursor, result: Err(e) },
        Ok(delta_time) => {
            let event = spec_parse_event(delta.cursor);
            match event.result {
                Err(e) => Parsed { cursor: event.cursor, result: Err(e) },
                Ok(event_view) => Parsed {
                    cursor: event.cursor,
                    result: Ok(TrackEventView { delta_time, event: event_view }),
                },
            }
        },
    }
}

/// Reading a track event is reading alone, and where it succeeds it has
/// read at least one byte.
pub proof fn lemma_parse_track_event_follows(c: Cursor)
    ensures
        spec_parse_track_event(c).cursor.follows(c),
        spec_parse_track_event(c).result is Ok ==> spec_parse_track_event(c).cursor.taken > c.taken
            && spec_parse_track_event(c).cursor.exhausted == c.exhausted,
{
    reveal(spec_parse_track_event);
    reveal(spec_parse_event);
    c.lemma_read_vlq_follows();
    let delta = c.read_vlq_u32();
    if delta.result is Ok {
        lemma_parse_meta_follows(delta.cursor);
        lemma_parse_message_follows(delta.cursor);
    }
}

impl Event {
    /// Reads one event.
    pub fn parse(iter: &mut ByteIter) -> (r: Result<Self, Error>)
        ensures
            final(iter)@ == spec_parse_event(old(iter)@).cursor,
            agrees_view(r, spec_parse_event(old(iter)@).result),
    {
        proof {
            reveal(spec_parse_event);
        }
        let status_byte = match iter.peek_or_die() {
            Ok(byte) => byte,
            Err(e) => {
                return Err(e);
            },
        };
        if status_byte == FILE_SYSEX_F7 || status_byte == FILE_SYSEX_F0 {
            match SysexEvent::parse(status_byte, iter) {
                Ok(sysex) => Ok(Event::Sysex(sysex)),
                Err(e) => Err(e),
            }
        } else if status_byte == FILE_META_EVENT {
            match MetaEvent::parse(iter) {
                Ok(meta) => Ok(Event::Meta(meta)),
                Err(e) => Err(e),
            }
        } else {
            match Message::parse(iter) {
                Ok(message) => Ok(Event::Midi(message)),
                Err(e) => Err(e),
            }
        }
    }

    /// Writes the event. Where it cannot be written, nothing is.
    pub fn write(&self, w: &mut Scribe) -> (r: Result<(), Error>)
        ensures
            written(r, old(w)@, final(w)@, self@.written_to(old(w)@)),
    {
        match self {
            Event::Midi(md) => md.write(w),
            Event::Sysex(sx) => sx.write(w),
            Event::Meta(mt) => mt.write(w),
        }
    }
}

impl Default for Event {
    fn default() -> (r: Self)
        ensures
            r@ == EventView::Midi(
                Message::AllSoundsOff(crate::midi::numbers::Channel::spec_new(0)),
            ),
    {
        Event::Midi(Message::default())
    }
}

impl TrackEvent {
    /// An event, `delta_time` ticks after the one before it.
    pub fn new(delta_time: u32, event: Event) -> (r: Self)
        ensures
            r@ == (TrackEventView { delta_time, event: event@ }),
    {
        Self { delta_time, event }
    }

    /// The time before the event, in ticks.
    pub fn delta_time(&self) -> (r: u32)
        ensures
            r == self@.delta_time,
    {
        self.delta_time
    }

    /// The event.
    pub fn event(&self) -> (r: &Event)
        ensures
            r@ == self@.event,
    {
        &self.event
    }

    /// Whether the event is the end of a track.
    pub fn is_end(&self) -> (r: bool)
        ensures
            r == self@.is_end(),
    {
        match &self.event {
            Event::Meta(meta) => match meta {
                MetaEvent::EndOfTrack => true,
                _ => false,
            },
            _ => false,
        }
    }

    /// Reads one track event.
    pub fn parse(iter: &mut ByteIter) -> (r: Result<Self, Error>)
        ensures
            final(iter)@ == spec_parse_track_event(old(iter)@).cursor,
            agrees_view(r, spec_parse_track_event(old(iter)@).result),
    {
        proof {
            reveal(spec_parse_track_event);
        }
        let delta_time = match iter.read_vlq_u32() {
            Ok(delta_time) => delta_time,
            Err(e) => {
                return Err(e);
            },
        };
        let event = match Event::parse(iter) {
            Ok(event) => event,
            Err(e) => {
                return Err(e);
            },
        };
        Ok(Self { delta_time, event })
    }

    /// Writes the delta time and the event. Where the event cannot be
    /// written, nothing is.
    pub fn write(&self, w: &mut Scribe) -> (r: Result<(), Error>)
        ensures
            written(r, old(w)@, final(w)@, self@.written_to(old(w)@)),
    {
        let mark = w.len();
        let delta = Vlq::new(self.delta_time).to_bytes();
        w.write_all(delta.as_slice());
        match self.event.write(w) {
            Ok(()) => Ok(()),
            Err(e) => {
                w.truncate(mark);
                assert(final(w)@.bytes =~= old(w)@.bytes);
                Err(e)
            },
        }
    }
}

impl Default for TrackEvent {
    fn default() -> (r: Self)
        ensures
            r@ == (TrackEventView {
                delta_time: 0,
                event: EventView::Midi(
                    Message::AllSoundsOff(crate::midi::numbers::Channel::spec_new(0)),
                ),
            }),
    {
        TrackEvent { delta_time: 0, event: Event::default() }
    }
}

} // verus!
