//! Reading what was written: the laws that tie the two directions of the
//! codec together.

use crate::byte_iter::{be16, be16_bytes, be24, be24_bytes, be32, be32_bytes, Cursor, Parsed};
use crate::error::ErrorKind;
use crate::file::division::Division;
use crate::file::header::{header_tag, Format, Header};
use crate::file::meta_event::{
    mode_byte, mode_of, signed, spec_parse_end_of_track, spec_parse_key_signature,
    spec_parse_meta, spec_parse_meta_body, spec_parse_one_byte, spec_parse_smpte_offset,
    spec_parse_tempo, spec_parse_text, spec_parse_time_signature, text_event, text_wire, unsigned,
    KeySignatureValue, MetaEventView, SmpteOffsetValue, TimeSignatureValue,
};
use crate::file::numbers::MicrosecondsPerQuarter;
use crate::file::track::{
    events_written_to, lemma_events_written_to_fails_on, spec_parse_events, spec_parse_track,
    track_tag, track_wire,
};
use crate::file::track_event::{
    lemma_parse_track_event_follows, spec_parse_event, spec_parse_track_event, EventView,
    TrackEventView,
};
use crate::midi::message::{
    spec_parse_after_status, spec_parse_chanmod, spec_parse_control, spec_parse_message,
    spec_parse_note, split_status, status_byte, Message, NoteMessage,
};
use crate::file::numbers::{KeyAccidentals, QuarterNoteDivision};
use crate::midi::clocks::Clocks;
use crate::midi::numbers::{
    Channel, ControlValue, MonoModeChannels, NoteNumber, PortValue, Program, Velocity,
};
use crate::midi::status_type::StatusType;
use crate::scribe::Written;
use crate::text::{text_of, TextView};
use crate::vlq::{encoding, lemma_round_trip, lemma_shape_of_encoding};
use crate::{
    header_of, lemma_tracks_wire_fails_on, spec_parse_file, spec_parse_header, spec_parse_tracks,
    tracks_wire, MidiFileView,
};
use vstd::prelude::*;

verus! {

/// Whether the bytes that the reader is about to read are `bytes`, and
/// neither the end of the source nor the limit keeps it from reading them
/// all.
pub open spec fn holds(c: Cursor, bytes: Seq<u8>) -> bool {
    &&& !c.exhausted
    &&& c.taken + bytes.len() <= c.data.len()
    &&& c.data.subrange(c.taken as int, (c.taken + bytes.len()) as int) == bytes
    &&& c.limit matches Some(l) ==> c.taken + bytes.len() <= l + 1
}

/// The reader after `n` more bytes.
pub open spec fn advanced(c: Cursor, n: nat) -> Cursor {
    Cursor { taken: c.taken + n, ..c }
}

/// A reader that holds two runs of bytes holds the first, and after the
/// first it holds the second.
pub proof fn lemma_holds_split(c: Cursor, first: Seq<u8>, second: Seq<u8>)
    requires
        holds(c, first + second),
    ensures
        holds(c, first),
        holds(advanced(c, first.len()), second),
{
    let all = first + second;
    let from = c.taken as int;
    assert(c.data.subrange(from, from + first.len()) =~= all.subrange(0, first.len() as int));
    assert(all.subrange(0, first.len() as int) =~= first);
    assert(c.data.subrange(from + first.len(), from + first.len() + second.len())
        =~= all.subrange(first.len() as int, all.len() as int));
    assert(all.subrange(first.len() as int, all.len() as int) =~= second);
}

/// A reader that holds a byte reads it.
pub proof fn lemma_reads(c: Cursor, bytes: Seq<u8>)
    requires
        holds(c, bytes),
        bytes.len() > 0,
    ensures
        c.read_or_die() == (Parsed {
            cursor: advanced(c, 1),
            result: Ok::<u8, ErrorKind>(bytes[0]),
        }),
        c.peek_or_die() == Ok::<u8, ErrorKind>(bytes[0]),
        holds(advanced(c, 1), bytes.subrange(1, bytes.len() as int)),
        advanced(c, 1).current() == Some(bytes[0]),
{
    let from = c.taken as int;
    assert(c.data.subrange(from, from + bytes.len())[0] == bytes[0]);
    assert(c.data.subrange(from + 1, from + bytes.len()) =~= bytes.subrange(
        1,
        bytes.len() as int,
    ));
}

/// A reader that holds `bytes` takes them.
pub proof fn lemma_takes(c: Cursor, bytes: Seq<u8>)
    requires
        holds(c, bytes),
    ensures
        c.take(bytes.len()) == (Parsed {
            cursor: advanced(c, bytes.len()),
            result: Ok::<Seq<u8>, ErrorKind>(bytes),
        }),
    decreases bytes.len(),
{
    if bytes.len() == 0 {
        assert(advanced(c, 0) == c);
        assert(bytes =~= Seq::<u8>::empty());
    } else {
        let front = bytes.drop_last();
        let last = seq![bytes.last()];
        assert(bytes =~= front + last);
        lemma_holds_split(c, front, last);
        lemma_takes(c, front);
        lemma_reads(advanced(c, front.len()), last);
        assert(advanced(advanced(c, front.len()), 1) == advanced(c, bytes.len()));
        assert(front.push(last[0]) =~= bytes);
    }
}

/// The bytes of a quantity, once the first `k` of them are read, are
/// collected to the end.
proof fn lemma_collects(c: Cursor, value: u32, k: nat)
    requires
        k <= encoding(value).len(),
        holds(c, encoding(value).subrange(k as int, encoding(value).len() as int)),
    ensures
        c.collect_vlq(encoding(value).subrange(0, k as int)) == (Parsed {
            cursor: advanced(c, (encoding(value).len() - k) as nat),
            result: Ok::<Seq<u8>, ErrorKind>(encoding(value)),
        }),
    decreases encoding(value).len() - k,
{
    let all = encoding(value);
    let so_far = all.subrange(0, k as int);
    let rest = all.subrange(k as int, all.len() as int);
    lemma_shape_of_encoding(value);
    if k == all.len() {
        assert(so_far =~= all);
        assert(advanced(c, 0) == c);
    } else {
        if k > 0 {
            assert(so_far.last() == all[k - 1]);
        }
        lemma_reads(c, rest);
        assert(rest[0] == all[k as int]);
        assert(so_far.push(rest[0]) =~= all.subrange(0, (k + 1) as int));
        assert(rest.subrange(1, rest.len() as int) =~= all.subrange(
            (k + 1) as int,
            all.len() as int,
        ));
        lemma_collects(advanced(c, 1), value, k + 1);
        assert(advanced(advanced(c, 1), (all.len() - (k + 1)) as nat) == advanced(
            c,
            (all.len() - k) as nat,
        ));
    }
}

/// A reader that holds the bytes of a quantity reads the number.
pub proof fn lemma_reads_vlq(c: Cursor, value: u32)
    requires
        holds(c, encoding(value)),
    ensures
        c.read_vlq_u32() == (Parsed {
            cursor: advanced(c, encoding(value).len()),
            result: Ok::<u32, ErrorKind>(value),
        }),
{
    let all = encoding(value);
    assert(all.subrange(0, all.len() as int) =~= all);
    assert(all.subrange(0, 0) =~= Seq::<u8>::empty());
    lemma_collects(c, value, 0);
    lemma_round_trip(value);
}

/// Whether every number in a message lies in its range, as it does in a
/// message that was read or made from numbers.
pub open spec fn canonical_message(m: Message) -> bool {
    match m {
        Message::NoteOff(n) | Message::NoteOn(n) | Message::PolyPressure(n) => {
            n.channel.in_range() && n.note_number.in_range() && n.velocity.in_range()
        },
        Message::Control(c) => c.channel.in_range() && c.value.in_range(),
        Message::ProgramChange(p) => p.channel.in_range() && p.program.in_range(),
        Message::AllSoundsOff(channel)
        | Message::ResetAllControllers(channel)
        | Message::LocalControlOff(channel)
        | Message::LocalControlOn(channel)
        | Message::AllNotesOff(channel)
        | Message::OmniModeOff(channel)
        | Message::OmniModeOn(channel)
        | Message::PolyModeOn(channel) => channel.in_range(),
        Message::MonoModeOn(m) => m.channel.in_range() && m.mono_mode_channels.in_range(),
        _ => true,
    }
}

/// Whether a reader knows the status byte that a writer may leave out:
/// what the writer remembers as written last, the reader has read last.
pub open spec fn in_step(w: Written, c: Cursor) -> bool {
    w.remembered() matches Some(s) ==> c.latest_status == Some(s)
}

/// The bytes that a message adds to what is written: its data bytes,
/// after its status byte where running status does not leave that out.
pub open spec fn message_bytes(w: Written, status: u8, data: Seq<u8>) -> Seq<u8> {
    if w.remembered() == Some(status) {
        data
    } else {
        seq![status] + data
    }
}

/// The reader after a message: behind its bytes, and either with its
/// status byte as the one read last, or with running status met.
pub open spec fn after_message(c: Cursor, w: Written, status: u8, data: Seq<u8>) -> Cursor {
    if w.remembered() == Some(status) {
        Cursor { taken: c.taken + data.len(), running_status: true, ..c }
    } else {
        Cursor { taken: c.taken + 1 + data.len(), latest_status: Some(status), ..c }
    }
}

/// The status byte of a channel message names its kind and its channel.
pub proof fn lemma_status_byte(status: StatusType, channel: Channel)
    requires
        channel.in_range(),
    ensures
        0x80 <= status_byte(status, channel) <= 0xff,
        status != StatusType::System ==> status_byte(status, channel) < 0xf0,
        split_status(status_byte(status, channel)) == Ok::<(StatusType, Channel), ErrorKind>(
            (status, channel),
        ),
{
    let byte = status_byte(status, channel);
    status.lemma_of_code();
    channel.lemma_spec_new_of_value();
    assert(byte as int == status.code() as int * 16 + channel.value());
    assert(byte / 16 == status.code());
    assert((byte % 16) as int == channel.value());
}

/// A reader that holds the data bytes of a message that can be written
/// reads the message after its status byte.
pub proof fn lemma_reads_after_status(c: Cursor, m: Message)
    requires
        canonical_message(m),
        m.wire() is Ok,
        holds(c, m.wire()->Ok_0.1),
    ensures
        spec_parse_after_status(c, m.wire()->Ok_0.0) == (Parsed {
            cursor: advanced(c, m.wire()->Ok_0.1.len()),
            result: Ok::<Message, ErrorKind>(m),
        }),
        0x80 <= m.wire()->Ok_0.0 < 0xf0,
        m.wire()->Ok_0.1.len() > 0,
        m.wire()->Ok_0.1[0] <= 0x7f,
{
    let (status, data) = m.wire()->Ok_0;
    match m {
        Message::NoteOff(n) | Message::NoteOn(n) | Message::PolyPressure(n) => {
            let kind = match m {
                Message::NoteOff(_) => StatusType::NoteOff,
                Message::NoteOn(_) => StatusType::NoteOn,
                _ => StatusType::PolyPressure,
            };
            lemma_status_byte(kind, n.channel);
            n.note_number.lemma_spec_new_of_value();
            n.velocity.lemma_spec_new_of_value();
            lemma_reads(c, data);
            lemma_reads(advanced(c, 1), data.subrange(1, 2));
            assert(data.subrange(1, 2)[0] == data[1]);
            assert(advanced(advanced(c, 1), 1) == advanced(c, 2));
            assert(spec_parse_note(c, n.channel) == (Parsed {
                cursor: advanced(c, 2),
                result: Ok::<NoteMessage, ErrorKind>(n),
            }));
        },
        Message::Control(v) => {
            lemma_status_byte(StatusType::ControlOrSelectChannelMode, v.channel);
            v.control.lemma_of_code();
            v.value.lemma_spec_new_of_value();
            lemma_reads(c, data);
            lemma_reads(advanced(c, 1), data.subrange(1, 2));
            assert(data.subrange(1, 2)[0] == data[1]);
            assert(advanced(advanced(c, 1), 1) == advanced(c, 2));
            assert(data[0] <= 119);
            assert(spec_parse_control(advanced(c, 1), v.channel, data[0]) == (Parsed {
                cursor: advanced(c, 2),
                result: Ok::<Message, ErrorKind>(m),
            }));
        },
        Message::ProgramChange(p) => {
            lemma_status_byte(StatusType::Program, p.channel);
            p.program.lemma_spec_new_of_value();
            lemma_reads(c, data);
        },
        Message::MonoModeOn(v) => {
            lemma_status_byte(StatusType::ControlOrSelectChannelMode, v.channel);
            v.mono_mode_channels.lemma_spec_new_of_value();
            lemma_reads(c, data);
            lemma_reads(advanced(c, 1), data.subrange(1, 2));
            assert(data.subrange(1, 2)[0] == data[1]);
            assert(advanced(advanced(c, 1), 1) == advanced(c, 2));
            assert(spec_parse_chanmod(advanced(c, 1), v.channel, data[0]) == (Parsed {
                cursor: advanced(c, 2),
                result: Ok::<Message, ErrorKind>(m),
            }));
        },
        Message::AllSoundsOff(channel)
        | Message::ResetAllControllers(channel)
        | Message::LocalControlOff(channel)
        | Message::LocalControlOn(channel)
        | Message::AllNotesOff(channel)
        | Message::OmniModeOff(channel)
        | Message::OmniModeOn(channel)
        | Message::PolyModeOn(channel) => {
            lemma_status_byte(StatusType::ControlOrSelectChannelMode, channel);
            lemma_reads(c, data);
            lemma_reads(advanced(c, 1), data.subrange(1, 2));
            assert(data.subrange(1, 2)[0] == data[1]);
            assert(advanced(advanced(c, 1), 1) == advanced(c, 2));
            assert(spec_parse_chanmod(advanced(c, 1), channel, data[0]) == (Parsed {
                cursor: advanced(c, 2),
                result: Ok::<Message, ErrorKind>(m),
            }));
        },
        _ => {},
    }
}

/// A reader in step with the writer, which holds the bytes that a message
/// added to what is written, reads the message, and stays in step.
pub proof fn lemma_reads_message(c: Cursor, w: Written, m: Message)
    requires
        canonical_message(m),
        m.wire() is Ok,
        in_step(w, c),
        holds(c, message_bytes(w, m.wire()->Ok_0.0, m.wire()->Ok_0.1)),
    ensures
        spec_parse_message(c) == (Parsed {
            cursor: after_message(c, w, m.wire()->Ok_0.0, m.wire()->Ok_0.1),
            result: Ok::<Message, ErrorKind>(m),
        }),
        m.written_to(w) matches Ok(after) && after.bytes == w.bytes + message_bytes(
            w,
            m.wire()->Ok_0.0,
            m.wire()->Ok_0.1,
        ) && in_step(after, after_message(c, w, m.wire()->Ok_0.0, m.wire()->Ok_0.1))
            && after.running_status == w.running_status,
        message_bytes(w, m.wire()->Ok_0.0, m.wire()->Ok_0.1).len() > 0,
        message_bytes(w, m.wire()->Ok_0.0, m.wire()->Ok_0.1)[0] < 0xf0,
{
    reveal(spec_parse_message);
    let (status, data) = m.wire()->Ok_0;
    let bytes = message_bytes(w, status, data);
    if w.remembered() == Some(status) {
        let noted = Cursor { running_status: true, ..c };
        assert(holds(noted, data));
        lemma_reads_after_status(noted, m);
        lemma_reads(c, data);
        assert(advanced(noted, data.len()) == after_message(c, w, status, data));
    } else {
        lemma_holds_split(c, seq![status], data);
        lemma_reads(c, seq![status]);
        let read = Cursor { latest_status: Some(status), ..advanced(c, 1) };
        assert(holds(read, data));
        lemma_reads_after_status(read, m);
        assert(bytes[0] == status);
        assert(advanced(read, data.len()) == after_message(c, w, status, data));
        assert(w.put_status(status).put(data).bytes =~= w.bytes + bytes);
    }
}

/// Whether a text is held as reading holds it: as a string where its
/// bytes are UTF-8, and only there.
pub open spec fn canonical_text(text: TextView) -> bool {
    text == text_of(text.bytes)
}

/// Whether a meta-event is as reading makes it: its numbers lie in their
/// ranges, its text is held as reading holds it, and its clocks bear their
/// name where they have one.
pub open spec fn canonical_meta(m: MetaEventView) -> bool {
    match m {
        MetaEventView::OtherText(t)
        | MetaEventView::Copyright(t)
        | MetaEventView::TrackName(t)
        | MetaEventView::InstrumentName(t)
        | MetaEventView::Lyric(t)
        | MetaEventView::Marker(t)
        | MetaEventView::CuePoint(t)
        | MetaEventView::ProgramName(t)
        | MetaEventView::DeviceName(t) => canonical_text(t),
        MetaEventView::MidiChannelPrefix(channel) => channel.in_range(),
        MetaEventView::SetTempo(tempo) => tempo.in_range(),
        MetaEventView::TimeSignature(v) => v.click.resolved(),
        MetaEventView::KeySignature(v) => v.accidentals.in_range(),
        MetaEventView::Port(port) => port.in_range(),
        _ => true,
    }
}

/// A reader that holds `bytes` holds their first `k`, and after those the
/// rest.
pub proof fn lemma_holds_at(c: Cursor, bytes: Seq<u8>, k: nat)
    requires
        holds(c, bytes),
        k <= bytes.len(),
    ensures
        holds(c, bytes.subrange(0, k as int)),
        holds(advanced(c, k), bytes.subrange(k as int, bytes.len() as int)),
{
    assert(bytes =~= bytes.subrange(0, k as int) + bytes.subrange(k as int, bytes.len() as int));
    lemma_holds_split(c, bytes.subrange(0, k as int), bytes.subrange(k as int, bytes.len() as int));
}

/// A reader that holds a meta-event of fixed length reads its mark, its
/// type and its length, and then holds its data.
proof fn lemma_reads_head(c: Cursor, bytes: Seq<u8>)
    requires
        holds(c, bytes),
        bytes.len() >= 3,
        bytes[0] == 0xff,
    ensures
        spec_parse_meta(c) == spec_parse_meta_body(advanced(c, 2), bytes[1]),
        advanced(c, 2).current() == Some(bytes[1]),
        holds(advanced(c, 2), bytes.subrange(2, bytes.len() as int)),
        advanced(c, 2).read_expect(bytes[2]) == (Parsed {
            cursor: advanced(c, 3),
            result: Ok::<(), ErrorKind>(()),
        }),
        holds(advanced(c, 3), bytes.subrange(3, bytes.len() as int)),
{
    reveal(spec_parse_meta);
    let len = bytes.len() as int;
    lemma_reads(c, bytes);
    let second = bytes.subrange(1, len);
    lemma_reads(advanced(c, 1), second);
    assert(second[0] == bytes[1]);
    assert(advanced(advanced(c, 1), 1) == advanced(c, 2));
    let third = second.subrange(1, second.len() as int);
    assert(third =~= bytes.subrange(2, len));
    lemma_reads(advanced(c, 2), third);
    assert(third[0] == bytes[2]);
    assert(advanced(advanced(c, 2), 1) == advanced(c, 3));
    assert(third.subrange(1, third.len() as int) =~= bytes.subrange(3, len));
}

/// A reader that holds the bytes of a text event reads the event.
proof fn lemma_reads_text(c: Cursor, text_type: u8, text: TextView)
    requires
        1 <= text_type <= 9,
        canonical_text(text),
        text_wire(text_type, text) is Ok,
        holds(c, text_wire(text_type, text)->Ok_0),
    ensures
        spec_parse_meta(c) == (Parsed {
            cursor: advanced(c, text_wire(text_type, text)->Ok_0.len()),
            result: Ok::<MetaEventView, ErrorKind>(text_event(text_type, text)->Some_0),
        }),
        text_wire(text_type, text)->Ok_0.len() >= 3,
        text_wire(text_type, text)->Ok_0[0] == 0xff,
{
    reveal(spec_parse_meta);
    let bytes = text_wire(text_type, text)->Ok_0;
    lemma_shape_of_encoding(text.bytes.len() as u32);
    let length = text.bytes.len() as u32;
    let head = seq![0xffu8, text_type];
    let size = encoding(length);
    assert(bytes == head + size + text.bytes);
    lemma_holds_split(c, head + size, text.bytes);
    lemma_holds_split(c, head, size);
    lemma_reads(c, head);
    lemma_reads(advanced(c, 1), head.subrange(1, 2));
    assert(head.subrange(1, 2)[0] == text_type);
    assert(advanced(advanced(c, 1), 1) == advanced(c, 2));
    let body = advanced(c, 2);
    lemma_reads_vlq(body, length);
    let data = advanced(body, size.len());
    assert(advanced(c, (head + size).len()) == data);
    lemma_takes(data, text.bytes);
    assert(advanced(data, text.bytes.len()) == advanced(c, bytes.len()));
    assert(spec_parse_text(body) == (Parsed {
        cursor: advanced(c, bytes.len()),
        result: Ok::<MetaEventView, ErrorKind>(text_event(text_type, text)->Some_0),
    }));
}

/// Three bytes spell the 24-bit number that they were made of.
pub proof fn lemma_be24(value: u32)
    requires
        value < 0x100_0000,
    ensures
        be24(be24_bytes(value)) == value,
{
}

/// A reader that holds the bytes of a channel prefix reads it.
proof fn lemma_reads_midi_channel_prefix(c: Cursor, channel: Channel)
    requires
        channel.in_range(),
        holds(c, MetaEventView::MidiChannelPrefix(channel).wire()->Ok_0),
    ensures
        spec_parse_meta(c) == (Parsed {
            cursor: advanced(c, MetaEventView::MidiChannelPrefix(channel).wire()->Ok_0.len()),
            result: Ok::<MetaEventView, ErrorKind>(MetaEventView::MidiChannelPrefix(channel)),
        }),
{
    let bytes = MetaEventView::MidiChannelPrefix(channel).wire()->Ok_0;
    let len = bytes.len() as int;
    lemma_reads_head(c, bytes);
    channel.lemma_spec_new_of_value();
    lemma_reads(advanced(c, 3), bytes.subrange(3, len));
    assert(advanced(advanced(c, 3), 1) == advanced(c, 4));
    assert(spec_parse_one_byte(advanced(c, 2), 1) == (Parsed {
        cursor: advanced(c, 4),
        result: Ok::<u8, ErrorKind>(bytes[3]),
    }));
}

/// A reader that holds the bytes of a port reads it.
proof fn lemma_reads_port(c: Cursor, port: PortValue)
    requires
        port.in_range(),
        holds(c, MetaEventView::Port(port).wire()->Ok_0),
    ensures
        spec_parse_meta(c) == (Parsed {
            cursor: advanced(c, MetaEventView::Port(port).wire()->Ok_0.len()),
            result: Ok::<MetaEventView, ErrorKind>(MetaEventView::Port(port)),
        }),
{
    let bytes = MetaEventView::Port(port).wire()->Ok_0;
    let len = bytes.len() as int;
    lemma_reads_head(c, bytes);
    port.lemma_spec_new_of_value();
    lemma_reads(advanced(c, 3), bytes.subrange(3, len));
    assert(advanced(advanced(c, 3), 1) == advanced(c, 4));
    assert(spec_parse_one_byte(advanced(c, 2), 1) == (Parsed {
        cursor: advanced(c, 4),
        result: Ok::<u8, ErrorKind>(bytes[3]),
    }));
}

/// A reader that holds the bytes of a tempo reads it.
proof fn lemma_reads_set_tempo(c: Cursor, tempo: MicrosecondsPerQuarter)
    requires
        tempo.in_range(),
        holds(c, MetaEventView::SetTempo(tempo).wire()->Ok_0),
    ensures
        spec_parse_meta(c) == (Parsed {
            cursor: advanced(c, MetaEventView::SetTempo(tempo).wire()->Ok_0.len()),
            result: Ok::<MetaEventView, ErrorKind>(MetaEventView::SetTempo(tempo)),
        }),
{
    let bytes = MetaEventView::SetTempo(tempo).wire()->Ok_0;
    let len = bytes.len() as int;
    let number = be24_bytes(tempo.value() as u32);
    assert(bytes == seq![0xffu8, 0x51u8, 3u8] + number);
    lemma_reads_head(c, bytes);
    assert(bytes.subrange(3, len) =~= number);
    lemma_takes(advanced(c, 3), number);
    lemma_be24(tempo.value() as u32);
    tempo.lemma_spec_new_of_value();
    assert(advanced(advanced(c, 3), 3) == advanced(c, 6));
    assert(spec_parse_tempo(advanced(c, 2)) == (Parsed {
        cursor: advanced(c, 6),
        result: Ok::<MicrosecondsPerQuarter, ErrorKind>(tempo),
    }));
}

/// A reader that holds the bytes of an SMPTE offset reads it.
proof fn lemma_reads_smpte_offset(c: Cursor, v: SmpteOffsetValue)
    requires
        true,
        holds(c, MetaEventView::SmpteOffset(v).wire()->Ok_0),
    ensures
        spec_parse_meta(c) == (Parsed {
            cursor: advanced(c, MetaEventView::SmpteOffset(v).wire()->Ok_0.len()),
            result: Ok::<MetaEventView, ErrorKind>(MetaEventView::SmpteOffset(v)),
        }),
{
    let bytes = MetaEventView::SmpteOffset(v).wire()->Ok_0;
    let len = bytes.len() as int;
    lemma_reads_head(c, bytes);
    let data = bytes.subrange(3, len);
    lemma_takes(advanced(c, 3), data);
    assert(advanced(advanced(c, 3), 5) == advanced(c, 8));
    assert(spec_parse_smpte_offset(advanced(c, 2)) == (Parsed {
        cursor: advanced(c, 8),
        result: Ok::<SmpteOffsetValue, ErrorKind>(v),
    }));
}

/// A reader that holds the bytes of a time signature reads it.
proof fn lemma_reads_time_signature(c: Cursor, v: TimeSignatureValue)
    requires
        v.click.resolved(),
        holds(c, MetaEventView::TimeSignature(v).wire()->Ok_0),
    ensures
        spec_parse_meta(c) == (Parsed {
            cursor: advanced(c, MetaEventView::TimeSignature(v).wire()->Ok_0.len()),
            result: Ok::<MetaEventView, ErrorKind>(MetaEventView::TimeSignature(v)),
        }),
{
    let bytes = MetaEventView::TimeSignature(v).wire()->Ok_0;
    let len = bytes.len() as int;
    lemma_reads_head(c, bytes);
    let data = bytes.subrange(3, len);
    lemma_holds_at(advanced(c, 3), data, 2);
    lemma_takes(advanced(c, 3), data.subrange(0, 2));
    assert(advanced(advanced(c, 3), 2) == advanced(c, 5));
    lemma_takes(advanced(c, 5), data.subrange(2, 4));
    assert(advanced(advanced(c, 5), 2) == advanced(c, 7));
    v.denominator.lemma_of_code();
    assert(spec_parse_time_signature(advanced(c, 2)) == (Parsed {
        cursor: advanced(c, 7),
        result: Ok::<TimeSignatureValue, ErrorKind>(v),
    }));
}

/// A reader that holds the bytes of a key signature reads it.
proof fn lemma_reads_key_signature(c: Cursor, v: KeySignatureValue)
    requires
        v.accidentals.in_range(),
        holds(c, MetaEventView::KeySignature(v).wire()->Ok_0),
    ensures
        spec_parse_meta(c) == (Parsed {
            cursor: advanced(c, MetaEventView::KeySignature(v).wire()->Ok_0.len()),
            result: Ok::<MetaEventView, ErrorKind>(MetaEventView::KeySignature(v)),
        }),
{
    let bytes = MetaEventView::KeySignature(v).wire()->Ok_0;
    let len = bytes.len() as int;
    lemma_reads_head(c, bytes);
    let data = bytes.subrange(3, len);
    lemma_takes(advanced(c, 3), data);
    assert(advanced(advanced(c, 3), 2) == advanced(c, 5));
    v.accidentals.lemma_spec_new_of_value();
    assert(signed(unsigned(v.accidentals.value())) as int == v.accidentals.value());
    assert(mode_of(mode_byte(v.mode)) == v.mode);
    assert(spec_parse_key_signature(advanced(c, 2)) == (Parsed {
        cursor: advanced(c, 5),
        result: Ok::<KeySignatureValue, ErrorKind>(v),
    }));
}

/// A reader that holds the bytes of an end-of-track event reads it.
proof fn lemma_reads_end_of_track(c: Cursor)
    requires
        holds(c, MetaEventView::EndOfTrack.wire()->Ok_0),
    ensures
        spec_parse_meta(c) == (Parsed {
            cursor: advanced(c, 3),
            result: Ok::<MetaEventView, ErrorKind>(MetaEventView::EndOfTrack),
        }),
{
    let bytes = MetaEventView::EndOfTrack.wire()->Ok_0;
    lemma_reads_head(c, bytes);
    assert(spec_parse_end_of_track(advanced(c, 2)) == (Parsed {
        cursor: advanced(c, 3),
        result: Ok::<MetaEventView, ErrorKind>(MetaEventView::EndOfTrack),
    }));
}

/// A reader that holds the bytes of a meta-event that can be written reads
/// the event.
pub proof fn lemma_reads_meta(c: Cursor, m: MetaEventView)
    requires
        canonical_meta(m),
        m.wire() is Ok,
        holds(c, m.wire()->Ok_0),
    ensures
        spec_parse_meta(c) == (Parsed {
            cursor: advanced(c, m.wire()->Ok_0.len()),
            result: Ok::<MetaEventView, ErrorKind>(m),
        }),
        m.wire()->Ok_0.len() >= 3,
        m.wire()->Ok_0[0] == 0xff,
{
    match m {
        MetaEventView::OtherText(t) => lemma_reads_text(c, 1, t),
        MetaEventView::Copyright(t) => lemma_reads_text(c, 2, t),
        MetaEventView::TrackName(t) => lemma_reads_text(c, 3, t),
        MetaEventView::InstrumentName(t) => lemma_reads_text(c, 4, t),
        MetaEventView::Lyric(t) => lemma_reads_text(c, 5, t),
        MetaEventView::Marker(t) => lemma_reads_text(c, 6, t),
        MetaEventView::CuePoint(t) => lemma_reads_text(c, 7, t),
        MetaEventView::ProgramName(t) => lemma_reads_text(c, 8, t),
        MetaEventView::DeviceName(t) => lemma_reads_text(c, 9, t),
        MetaEventView::MidiChannelPrefix(channel) => lemma_reads_midi_channel_prefix(c, channel),
        MetaEventView::Port(port) => lemma_reads_port(c, port),
        MetaEventView::EndOfTrack => lemma_reads_end_of_track(c),
        MetaEventView::SetTempo(tempo) => lemma_reads_set_tempo(c, tempo),
        MetaEventView::SmpteOffset(v) => lemma_reads_smpte_offset(c, v),
        MetaEventView::TimeSignature(v) => lemma_reads_time_signature(c, v),
        MetaEventView::KeySignature(v) => lemma_reads_key_signature(c, v),
        _ => {},
    }
}

/// Whether an event is as reading makes it.
pub open spec fn canonical_event(e: EventView) -> bool {
    match e {
        EventView::Midi(m) => canonical_message(m),
        EventView::Meta(m) => canonical_meta(m),
        EventView::Sysex(_) => true,
    }
}

/// The bytes that an event adds to what is written.
pub open spec fn event_bytes(w: Written, e: EventView) -> Seq<u8> {
    match e {
        EventView::Midi(m) => message_bytes(w, m.wire()->Ok_0.0, m.wire()->Ok_0.1),
        EventView::Meta(m) => m.wire()->Ok_0,
        EventView::Sysex(_) => Seq::empty(),
    }
}

/// The reader after an event.
pub open spec fn after_event(c: Cursor, w: Written, e: EventView) -> Cursor {
    match e {
        EventView::Midi(m) => after_message(c, w, m.wire()->Ok_0.0, m.wire()->Ok_0.1),
        EventView::Meta(m) => advanced(c, m.wire()->Ok_0.len()),
        EventView::Sysex(_) => c,
    }
}

/// The bytes that a track event adds to what is written: its delta time
/// and its event.
pub open spec fn track_event_bytes(w: Written, e: TrackEventView) -> Seq<u8> {
    encoding(e.delta_time) + event_bytes(w, e.event)
}

/// The reader after a track event.
pub open spec fn after_track_event(c: Cursor, w: Written, e: TrackEventView) -> Cursor {
    after_event(advanced(c, encoding(e.delta_time).len()), w, e.event)
}

/// A reader in step with the writer, which holds the bytes that an event
/// added to what is written, reads the event, and stays in step.
pub proof fn lemma_reads_event(c: Cursor, w: Written, e: EventView)
    requires
        canonical_event(e),
        e.written_to(w) is Ok,
        in_step(w, c),
        holds(c, event_bytes(w, e)),
    ensures
        spec_parse_event(c) == (Parsed {
            cursor: after_event(c, w, e),
            result: Ok::<EventView, ErrorKind>(e),
        }),
        e.written_to(w)->Ok_0.bytes == w.bytes + event_bytes(w, e),
        e.written_to(w)->Ok_0.running_status == w.running_status,
        in_step(e.written_to(w)->Ok_0, after_event(c, w, e)),
        event_bytes(w, e).len() > 0,
        after_event(c, w, e).taken == c.taken + event_bytes(w, e).len(),
        after_event(c, w, e).data == c.data,
        after_event(c, w, e).limit == c.limit,
        after_event(c, w, e).exhausted == c.exhausted,
{
    reveal(spec_parse_event);
    match e {
        EventView::Midi(m) => {
            lemma_reads_message(c, w, m);
            lemma_reads(c, event_bytes(w, e));
        },
        EventView::Meta(m) => {
            lemma_reads_meta(c, m);
            lemma_reads(c, event_bytes(w, e));
        },
        EventView::Sysex(_) => {},
    }
}

/// A reader in step with the writer, which holds the bytes that a track
/// event added to what is written, reads the track event, and stays in
/// step.
pub proof fn lemma_reads_track_event(c: Cursor, w: Written, e: TrackEventView)
    requires
        canonical_event(e.event),
        e.written_to(w) is Ok,
        in_step(w, c),
        holds(c, track_event_bytes(w, e)),
    ensures
        spec_parse_track_event(c) == (Parsed {
            cursor: after_track_event(c, w, e),
            result: Ok::<TrackEventView, ErrorKind>(e),
        }),
        e.written_to(w)->Ok_0.bytes == w.bytes + track_event_bytes(w, e),
        e.written_to(w)->Ok_0.running_status == w.running_status,
        in_step(e.written_to(w)->Ok_0, after_track_event(c, w, e)),
        track_event_bytes(w, e).len() > 0,
        after_track_event(c, w, e).taken == c.taken + track_event_bytes(w, e).len(),
        after_track_event(c, w, e).data == c.data,
        after_track_event(c, w, e).limit == c.limit,
        after_track_event(c, w, e).exhausted == c.exhausted,
{
    reveal(spec_parse_track_event);
    let delta = encoding(e.delta_time);
    let started = w.put(delta);
    lemma_holds_split(c, delta, event_bytes(w, e.event));
    lemma_reads_vlq(c, e.delta_time);
    let behind = advanced(c, delta.len());
    assert(event_bytes(started, e.event) == event_bytes(w, e.event));
    assert(after_event(behind, started, e.event) == after_event(behind, w, e.event));
    lemma_reads_event(behind, started, e.event);
    assert(e.written_to(w)->Ok_0.bytes =~= w.bytes + track_event_bytes(w, e));
}

/// Whether a track is closed once: its last event is the end of the track,
/// and no event before it is.
pub open spec fn closed_once(events: Seq<TrackEventView>) -> bool {
    &&& events.len() > 0
    &&& events.last().is_end()
    &&& forall|i: int| 0 <= i < events.len() - 1 ==> !(#[trigger] events[i]).is_end()
}

/// Whether a track is as reading makes it: closed once, and of events that
/// are as reading makes them.
pub open spec fn canonical_track(events: Seq<TrackEventView>) -> bool {
    &&& closed_once(events)
    &&& forall|i: int| 0 <= i < events.len() ==> canonical_event((#[trigger] events[i]).event)
}

/// A track event that can be written adds its bytes to what is written,
/// whatever they are, and leaves the setting of the writer alone.
pub proof fn lemma_writes_track_event(w: Written, e: TrackEventView)
    requires
        e.written_to(w) is Ok,
    ensures
        e.written_to(w)->Ok_0.bytes == w.bytes + track_event_bytes(w, e),
        e.written_to(w)->Ok_0.running_status == w.running_status,
{
    let started = w.put(encoding(e.delta_time));
    match e.event {
        EventView::Midi(m) => {
            let (status, data) = m.wire()->Ok_0;
            assert(started.put_status(status).put(data).bytes =~= w.bytes + track_event_bytes(
                w,
                e,
            ));
        },
        EventView::Meta(m) => {
            assert(started.put(m.wire()->Ok_0).bytes =~= w.bytes + track_event_bytes(w, e));
        },
        EventView::Sysex(_) => {},
    }
}

/// Where all events can be written, the first `i` of them can.
pub proof fn lemma_written_so_far(events: Seq<TrackEventView>, start: Written, i: int)
    requires
        0 <= i <= events.len(),
        events_written_to(events, start) is Ok,
    ensures
        events_written_to(events.subrange(0, i), start) is Ok,
{
    lemma_events_written_to_fails_on(events, i, start);
}

/// What is written after the first `i` events begins what is written after
/// the first `j`, for `i` up to `j`.
pub proof fn lemma_written_grows(events: Seq<TrackEventView>, start: Written, i: int, j: int)
    requires
        0 <= i <= j <= events.len(),
        events_written_to(events, start) is Ok,
    ensures
        events_written_to(events.subrange(0, i), start) matches Ok(first) && events_written_to(
            events.subrange(0, j),
            start,
        ) matches Ok(second) && first.bytes.len() <= second.bytes.len() && first.bytes
            == second.bytes.subrange(0, first.bytes.len() as int) && first.running_status
            == second.running_status,
    decreases j - i,
{
    lemma_written_so_far(events, start, i);
    lemma_written_so_far(events, start, j);
    let first = events_written_to(events.subrange(0, i), start)->Ok_0;
    let second = events_written_to(events.subrange(0, j), start)->Ok_0;
    if i == j {
        assert(first.bytes =~= second.bytes.subrange(0, first.bytes.len() as int));
    } else {
        lemma_written_grows(events, start, i, j - 1);
        let shorter = events.subrange(0, j - 1);
        let longer = events.subrange(0, j);
        assert(longer.drop_last() =~= shorter);
        assert(longer.last() == events[j - 1]);
        let middle = events_written_to(shorter, start)->Ok_0;
        lemma_writes_track_event(middle, events[j - 1]);
        assert(first.bytes =~= second.bytes.subrange(0, first.bytes.len() as int));
    }
}

/// Whether events can be written does not depend on the writer.
pub proof fn lemma_writable_either_way(events: Seq<TrackEventView>, one: Written, other: Written)
    ensures
        events_written_to(events, one) is Ok <==> events_written_to(events, other) is Ok,
        events_written_to(events, one) matches Err(e) ==> events_written_to(events, other) == Err::<
            Written,
            ErrorKind,
        >(e),
    decreases events.len(),
{
    if events.len() > 0 {
        lemma_writable_either_way(events.drop_last(), one, other);
    }
}

/// The bytes of the events from the `i`th on, as they are written without
/// running status.
pub open spec fn plain_rest(events: Seq<TrackEventView>, i: int) -> Seq<u8> {
    let plain = Written::fresh(false);
    let all = events_written_to(events, plain)->Ok_0.bytes;
    let before = events_written_to(events.subrange(0, i), plain)->Ok_0.bytes;
    all.subrange(before.len() as int, all.len() as int)
}

/// Without running status, the bytes of the events from the `i`th on are
/// the bytes of the `i`th event and those of the events after it.
pub proof fn lemma_plain_rest(events: Seq<TrackEventView>, i: int)
    requires
        0 <= i < events.len(),
        events_written_to(events, Written::fresh(false)) is Ok,
    ensures
        plain_rest(events, i) == track_event_bytes(Written::fresh(false), events[i]) + plain_rest(
            events,
            i + 1,
        ),
        i + 1 == events.len() ==> plain_rest(events, i + 1).len() == 0,
{
    let plain = Written::fresh(false);
    let n = events.len() as int;
    lemma_written_grows(events, plain, 0, i);
    lemma_written_grows(events, plain, i, n);
    lemma_written_grows(events, plain, i + 1, n);
    assert(events.subrange(0, 0) =~= Seq::<TrackEventView>::empty());
    assert(events.subrange(0, n) =~= events);
    let all = events_written_to(events, plain)->Ok_0.bytes;
    let w = events_written_to(events.subrange(0, i), plain)->Ok_0;
    let longer = events.subrange(0, i + 1);
    assert(longer.drop_last() =~= events.subrange(0, i));
    assert(longer.last() == events[i]);
    let after = events_written_to(longer, plain)->Ok_0;
    lemma_writes_track_event(w, events[i]);
    let bytes = track_event_bytes(w, events[i]);
    assert(bytes == track_event_bytes(plain, events[i]));
    assert forall|k: int| 0 <= k < bytes.len() implies plain_rest(events, i)[k] == bytes[k] by {
        assert(all.subrange(0, after.bytes.len() as int)[w.bytes.len() + k] == after.bytes[
            w.bytes.len() + k
        ]);
    }
    assert(plain_rest(events, i) =~= bytes + plain_rest(events, i + 1));
    if i + 1 == n {
        assert(longer =~= events);
    }
}

/// A reader in step with the writer after the first `i` events of a track,
/// which holds the bytes of the other events under a limit that ends with
/// them, reads the other events and so the track. Where it has met no
/// running status by the end, the bytes were those that are written
/// without; and without, it meets none.
pub proof fn lemma_reads_events(
    c: Cursor,
    start: Written,
    events: Seq<TrackEventView>,
    i: int,
    rest: Seq<u8>,
)
    requires
        0 <= i < events.len(),
        canonical_track(events),
        events_written_to(events, start) is Ok,
        events_written_to(events.subrange(0, i), start) is Ok,
        rest == events_written_to(events, start)->Ok_0.bytes.subrange(
            events_written_to(events.subrange(0, i), start)->Ok_0.bytes.len() as int,
            events_written_to(events, start)->Ok_0.bytes.len() as int,
        ),
        in_step(events_written_to(events.subrange(0, i), start)->Ok_0, c),
        c.taken >= 1,
        holds(c, rest),
        c.limit == Some((c.taken - 1 + rest.len()) as nat),
    ensures
        spec_parse_events(c, events.subrange(0, i)).result == Ok::<Seq<TrackEventView>, ErrorKind>(
            events,
        ),
        spec_parse_events(c, events.subrange(0, i)).cursor.data == c.data,
        spec_parse_events(c, events.subrange(0, i)).cursor.limit == c.limit,
        spec_parse_events(c, events.subrange(0, i)).cursor.taken == c.taken + rest.len(),
        !spec_parse_events(c, events.subrange(0, i)).cursor.exhausted,
        c.running_status ==> spec_parse_events(c, events.subrange(0, i)).cursor.running_status,
        !start.running_status && !c.running_status ==> !spec_parse_events(
            c,
            events.subrange(0, i),
        ).cursor.running_status,
        events_written_to(events, Written::fresh(false)) is Ok,
        !spec_parse_events(c, events.subrange(0, i)).cursor.running_status ==> rest == plain_rest(
            events,
            i,
        ),
    decreases events.len() - i,
{
    lemma_writable_either_way(events, start, Written::fresh(false));
    lemma_plain_rest(events, i);
    lemma_written_grows(events, start, 0, i);
    assert(events.subrange(0, 0) =~= Seq::<TrackEventView>::empty());
    let so_far = events.subrange(0, i);
    let w = events_written_to(so_far, start)->Ok_0;
    let done = events_written_to(events, start)->Ok_0;
    let e = events[i];
    let longer = events.subrange(0, i + 1);
    assert(longer.drop_last() =~= so_far);
    assert(longer.last() == e);
    lemma_written_so_far(events, start, i + 1);
    let after = events_written_to(longer, start)->Ok_0;
    assert(after == e.written_to(w)->Ok_0);
    lemma_writes_track_event(w, e);
    lemma_written_grows(events, start, i + 1, events.len() as int);
    lemma_written_grows(events, start, i, events.len() as int);
    assert(events.subrange(0, events.len() as int) =~= events);
    let bytes = track_event_bytes(w, e);
    let left = done.bytes.subrange(after.bytes.len() as int, done.bytes.len() as int);
    assert forall|k: int| 0 <= k < bytes.len() implies rest[k] == bytes[k] by {
        assert(done.bytes.subrange(0, after.bytes.len() as int)[w.bytes.len() + k] == after.bytes[
            w.bytes.len() + k
        ]);
    }
    assert(rest =~= bytes + left);
    lemma_holds_split(c, bytes, left);
    lemma_reads_track_event(c, w, e);
    let next = after_track_event(c, w, e);
    assert(so_far.push(e) =~= longer);
    assert(!c.is_end());
    if e.is_end() {
        assert(i == events.len() - 1);
        assert(longer =~= events);
        assert(left.len() == 0);
        assert(next.is_end());
    } else {
        assert(i + 1 < events.len());
        lemma_reads_events(next, start, events, i + 1, left);
    }
}

/// Four bytes spell the number that they were made of, and two bytes
/// theirs.
pub proof fn lemma_be32(value: u32)
    ensures
        be32(be32_bytes(value)) == value,
{
}

pub proof fn lemma_be16(value: u16)
    ensures
        be16(be16_bytes(value)) == value,
{
}

/// A reader without a limit that holds the chunk of a track reads the
/// track, and ends behind the chunk.
pub proof fn lemma_reads_track(c: Cursor, events: Seq<TrackEventView>, running_status: bool)
    requires
        canonical_track(events),
        track_wire(events, running_status) is Ok,
        holds(c, track_wire(events, running_status)->Ok_0),
        c.limit is None,
        c.data.len() <= u64::MAX,
    ensures
        spec_parse_track(c).result == Ok::<Seq<TrackEventView>, ErrorKind>(events),
        spec_parse_track(c).cursor.data == c.data,
        spec_parse_track(c).cursor.limit is None,
        spec_parse_track(c).cursor.taken == c.taken + track_wire(
            events,
            running_status,
        )->Ok_0.len(),
        !spec_parse_track(c).cursor.exhausted,
        c.running_status ==> spec_parse_track(c).cursor.running_status,
        !running_status && !c.running_status ==> !spec_parse_track(c).cursor.running_status,
        !spec_parse_track(c).cursor.running_status ==> track_wire(events, false) == track_wire(
            events,
            running_status,
        ),
{
    let start = Written::fresh(running_status);
    let done = events_written_to(events, start)->Ok_0;
    let data = done.bytes;
    let length = data.len() as u32;
    let chunk = track_wire(events, running_status)->Ok_0;
    assert(chunk == track_tag() + be32_bytes(length) + data);
    lemma_holds_split(c, track_tag() + be32_bytes(length), data);
    lemma_holds_split(c, track_tag(), be32_bytes(length));
    lemma_takes(c, track_tag());
    let behind_tag = advanced(c, 4);
    lemma_takes(behind_tag, be32_bytes(length));
    lemma_be32(length);
    let behind_length = advanced(c, 8);
    assert(advanced(behind_tag, 4) == behind_length);
    assert(c.expect_tag(track_tag()) == (Parsed {
        cursor: behind_tag,
        result: Ok::<(), ErrorKind>(()),
    }));
    assert(behind_tag.read_u32() == (Parsed {
        cursor: behind_length,
        result: Ok::<u32, ErrorKind>(length),
    }));
    let limited = behind_length.set_size_limit(length as u64);
    assert(limited == (Cursor {
        limit: Some((behind_length.taken - 1 + data.len()) as nat),
        ..behind_length
    }));
    assert(events.subrange(0, 0) =~= Seq::<TrackEventView>::empty());
    assert(data.subrange(0, data.len() as int) =~= data);
    assert(holds(limited, data));
    lemma_reads_events(limited, start, events, 0, data);
    let plain = events_written_to(events, Written::fresh(false))->Ok_0.bytes;
    assert(plain.subrange(0, plain.len() as int) =~= plain);
}

/// Whether every track of a row is as reading makes it.
pub open spec fn canonical_tracks(tracks: Seq<Seq<TrackEventView>>) -> bool {
    forall|k: int| 0 <= k < tracks.len() ==> canonical_track(#[trigger] tracks[k])
}

/// The chunks of the first `i` tracks begin the chunks of the first `j`,
/// for `i` up to `j`.
pub proof fn lemma_chunks_grow(
    tracks: Seq<Seq<TrackEventView>>,
    running_status: bool,
    i: int,
    j: int,
)
    requires
        0 <= i <= j <= tracks.len(),
        tracks_wire(tracks, running_status) is Ok,
    ensures
        tracks_wire(tracks.subrange(0, i), running_status) matches Ok(first) && tracks_wire(
            tracks.subrange(0, j),
            running_status,
        ) matches Ok(second) && first.len() <= second.len() && first == second.subrange(
            0,
            first.len() as int,
        ),
    decreases j - i,
{
    lemma_tracks_wire_fails_on(tracks, i, running_status);
    lemma_tracks_wire_fails_on(tracks, j, running_status);
    let first = tracks_wire(tracks.subrange(0, i), running_status)->Ok_0;
    let second = tracks_wire(tracks.subrange(0, j), running_status)->Ok_0;
    if i == j {
        assert(first =~= second.subrange(0, first.len() as int));
    } else {
        lemma_chunks_grow(tracks, running_status, i, j - 1);
        let shorter = tracks.subrange(0, j - 1);
        let longer = tracks.subrange(0, j);
        assert(longer.drop_last() =~= shorter);
        assert(first =~= second.subrange(0, first.len() as int));
    }
}

/// Where the chunks of a track written with running status and without are
/// the same for each of the tracks from the `i`th on, the chunks of all
/// tracks from there on are the same.
pub open spec fn same_chunks_from(
    tracks: Seq<Seq<TrackEventView>>,
    running_status: bool,
    i: int,
) -> bool {
    forall|k: int|
        i <= k < tracks.len() ==> track_wire(#[trigger] tracks[k], false) == track_wire(
            tracks[k],
            running_status,
        )
}

/// Tracks whose chunks are the same with running status and without make
/// the same row of chunks.
pub proof fn lemma_same_chunks(tracks: Seq<Seq<TrackEventView>>, running_status: bool)
    requires
        same_chunks_from(tracks, running_status, 0),
    ensures
        tracks_wire(tracks, false) == tracks_wire(tracks, running_status),
    decreases tracks.len(),
{
    if tracks.len() > 0 {
        let front = tracks.drop_last();
        assert forall|k: int| 0 <= k < front.len() implies track_wire(#[trigger] front[k], false)
            == track_wire(front[k], running_status) by {
            assert(front[k] == tracks[k]);
        }
        lemma_same_chunks(front, running_status);
    }
}

/// A reader without a limit behind the chunks of the first `i` tracks,
/// which holds the chunks of the other tracks, reads the other tracks and
/// so all of them. Where it has met no running status by the end, the
/// chunks were those that are written without; and without, it meets
/// none.
pub proof fn lemma_reads_tracks(
    c: Cursor,
    tracks: Seq<Seq<TrackEventView>>,
    running_status: bool,
    i: int,
    rest: Seq<u8>,
)
    requires
        0 <= i <= tracks.len(),
        canonical_tracks(tracks),
        tracks_wire(tracks, running_status) is Ok,
        tracks_wire(tracks.subrange(0, i), running_status) is Ok,
        rest == tracks_wire(tracks, running_status)->Ok_0.subrange(
            tracks_wire(tracks.subrange(0, i), running_status)->Ok_0.len() as int,
            tracks_wire(tracks, running_status)->Ok_0.len() as int,
        ),
        holds(c, rest),
        c.limit is None,
        c.data.len() <= u64::MAX,
    ensures
        spec_parse_tracks(c, tracks.subrange(0, i), (tracks.len() - i) as nat).result == Ok::<
            Seq<Seq<TrackEventView>>,
            ErrorKind,
        >(tracks),
        c.running_status ==> spec_parse_tracks(
            c,
            tracks.subrange(0, i),
            (tracks.len() - i) as nat,
        ).cursor.running_status,
        !running_status && !c.running_status ==> !spec_parse_tracks(
            c,
            tracks.subrange(0, i),
            (tracks.len() - i) as nat,
        ).cursor.running_status,
        !spec_parse_tracks(
            c,
            tracks.subrange(0, i),
            (tracks.len() - i) as nat,
        ).cursor.running_status ==> same_chunks_from(tracks, running_status, i),
    decreases tracks.len() - i,
{
    let so_far = tracks.subrange(0, i);
    if i == tracks.len() {
        assert(so_far =~= tracks);
    } else {
        let track = tracks[i];
        let longer = tracks.subrange(0, i + 1);
        assert(longer.drop_last() =~= so_far);
        assert(longer.last() == track);
        lemma_chunks_grow(tracks, running_status, i, tracks.len() as int);
        lemma_chunks_grow(tracks, running_status, i + 1, tracks.len() as int);
        assert(tracks.subrange(0, tracks.len() as int) =~= tracks);
        let all = tracks_wire(tracks, running_status)->Ok_0;
        let before = tracks_wire(so_far, running_status)->Ok_0;
        let after = tracks_wire(longer, running_status)->Ok_0;
        let chunk = track_wire(track, running_status)->Ok_0;
        assert(after == before + chunk);
        let left = all.subrange(after.len() as int, all.len() as int);
        assert forall|k: int| 0 <= k < chunk.len() implies rest[k] == chunk[k] by {
            assert(all.subrange(0, after.len() as int)[before.len() + k] == after[before.len()
                + k]);
        }
        assert(rest =~= chunk + left);
        lemma_holds_split(c, chunk, left);
        lemma_reads_track(c, track, running_status);
        let next = spec_parse_track(c).cursor;
        assert(holds(next, left));
        assert(so_far.push(track) =~= longer);
        lemma_reads_tracks(next, tracks, running_status, i + 1, left);
    }
}

/// Whether a file is as reading makes it: its division counts in quarter
/// notes, with a number in range, and its tracks are as reading makes
/// them.
pub open spec fn canonical_file(file: MidiFileView) -> bool {
    &&& file.header.division matches Division::QuarterNote(q) && q.in_range()
    &&& canonical_tracks(file.tracks)
}

/// A reader at the beginning of a header chunk reads the header.
pub proof fn lemma_reads_header(c: Cursor, header: Header, ntracks: u16)
    requires
        header.division matches Division::QuarterNote(q) && q.in_range(),
        header.format == Format::Single ==> ntracks <= 1,
        header.wire(ntracks) is Ok,
        holds(c, header.wire(ntracks)->Ok_0),
    ensures
        spec_parse_header(c) == (Parsed {
            cursor: advanced(c, 14),
            result: Ok::<(Header, u16), ErrorKind>((header, ntracks)),
        }),
        header.wire(ntracks)->Ok_0.len() == 14,
{
    let q = header.division->QuarterNote_0;
    let division = be16_bytes(q.value() as u16);
    let bytes = header.wire(ntracks)->Ok_0;
    let format = be16_bytes(header.format.code());
    let count = be16_bytes(ntracks);
    assert(bytes == header_tag() + be32_bytes(6) + format + count + division);
    lemma_holds_split(c, header_tag() + be32_bytes(6) + format + count, division);
    lemma_holds_split(c, header_tag() + be32_bytes(6) + format, count);
    lemma_holds_split(c, header_tag() + be32_bytes(6), format);
    lemma_holds_split(c, header_tag(), be32_bytes(6));
    lemma_takes(c, header_tag());
    lemma_takes(advanced(c, 4), be32_bytes(6));
    assert(advanced(advanced(c, 4), 4) == advanced(c, 8));
    lemma_takes(advanced(c, 8), format);
    assert(advanced(advanced(c, 8), 2) == advanced(c, 10));
    lemma_takes(advanced(c, 10), count);
    assert(advanced(advanced(c, 10), 2) == advanced(c, 12));
    lemma_takes(advanced(c, 12), division);
    assert(advanced(advanced(c, 12), 2) == advanced(c, 14));
    lemma_be32(6);
    lemma_be16(header.format.code());
    lemma_be16(ntracks);
    lemma_be16(q.value() as u16);
    q.lemma_spec_new_of_value();
    assert(Format::of_code(header.format.code()) == Some(header.format));
    assert(header_of(header.format.code(), ntracks, q.value() as u16) == Ok::<Header, ErrorKind>(
        header,
    ));
    assert(c.expect_tag(header_tag()) == (Parsed {
        cursor: advanced(c, 4),
        result: Ok::<(), ErrorKind>(()),
    }));
    assert(advanced(c, 4).read_u32() == (Parsed {
        cursor: advanced(c, 8),
        result: Ok::<u32, ErrorKind>(6),
    }));
    assert(advanced(c, 8).read_u16() == (Parsed {
        cursor: advanced(c, 10),
        result: Ok::<u16, ErrorKind>(header.format.code()),
    }));
    assert(advanced(c, 10).read_u16() == (Parsed {
        cursor: advanced(c, 12),
        result: Ok::<u16, ErrorKind>(ntracks),
    }));
    assert(advanced(c, 12).read_u16() == (Parsed {
        cursor: advanced(c, 14),
        result: Ok::<u16, ErrorKind>(q.value() as u16),
    }));
}

/// Reading after writing, and writing after reading. A file that is as
/// reading makes it, and that can be written, is read back from its bytes
/// with the same header and the same tracks, whether it was written with
/// running status or without; and writing what was read gives the same
/// bytes again.
pub proof fn theorem_read_after_write(file: MidiFileView)
    requires
        file.wf(),
        canonical_file(file),
        file.wire() is Ok,
        file.wire()->Ok_0.len() <= u64::MAX,
    ensures
        spec_parse_file(file.wire()->Ok_0) matches Ok(read) && read.header == file.header
            && read.tracks == file.tracks && read.wire() == file.wire(),
        !file.running_status ==> spec_parse_file(file.wire()->Ok_0) == Ok::<
            MidiFileView,
            ErrorKind,
        >(file),
{
    let bytes = file.wire()->Ok_0;
    let ntracks = file.tracks.len() as u16;
    let header = file.header.wire(ntracks)->Ok_0;
    let chunks = tracks_wire(file.tracks, file.running_status)->Ok_0;
    assert(bytes == header + chunks);
    let c = Cursor::start(bytes);
    assert(bytes.subrange(0, bytes.len() as int) =~= bytes);
    assert(holds(c, bytes));
    lemma_holds_split(c, header, chunks);
    lemma_reads_header(c, file.header, ntracks);
    let behind = advanced(c, 14);
    assert(file.tracks.subrange(0, 0) =~= Seq::<Seq<TrackEventView>>::empty());
    assert(chunks.subrange(0, chunks.len() as int) =~= chunks);
    lemma_reads_tracks(behind, file.tracks, file.running_status, 0, chunks);
    let read = spec_parse_file(bytes)->Ok_0;
    if read.running_status != file.running_status {
        lemma_same_chunks(file.tracks, file.running_status);
    }
}

/// Events that can be written are no longer with running status than
/// without.
pub proof fn lemma_running_status_saves(events: Seq<TrackEventView>)
    requires
        events_written_to(events, Written::fresh(false)) is Ok,
    ensures
        events_written_to(events, Written::fresh(true)) matches Ok(short) && events_written_to(
            events,
            Written::fresh(false),
        ) matches Ok(long) && short.bytes.len() <= long.bytes.len() && !long.running_status
            && short.running_status,
    decreases events.len(),
{
    lemma_writable_either_way(events, Written::fresh(false), Written::fresh(true));
    if events.len() > 0 {
        let front = events.drop_last();
        lemma_running_status_saves(front);
        let short = events_written_to(front, Written::fresh(true))->Ok_0;
        let long = events_written_to(front, Written::fresh(false))->Ok_0;
        lemma_writes_track_event(short, events.last());
        lemma_writes_track_event(long, events.last());
    }
}

/// The chunks of tracks are no longer with running status than without.
pub proof fn lemma_running_status_saves_chunks(tracks: Seq<Seq<TrackEventView>>)
    requires
        tracks_wire(tracks, false) is Ok,
    ensures
        tracks_wire(tracks, true) matches Ok(short) && tracks_wire(tracks, false) matches Ok(long)
            && short.len() <= long.len(),
    decreases tracks.len(),
{
    if tracks.len() > 0 {
        lemma_running_status_saves_chunks(tracks.drop_last());
        lemma_running_status_saves(tracks.last());
    }
}

/// Running status. A file that is as reading makes it, and that can be
/// written without running status, can be written with it; the bytes are
/// no more with it than without; and both are read back as the same
/// tracks under the same header.
pub proof fn theorem_running_status(file: MidiFileView)
    requires
        file.wf(),
        canonical_file(file),
        (MidiFileView { running_status: false, ..file }).wire() is Ok,
        (MidiFileView { running_status: false, ..file }).wire()->Ok_0.len() <= u64::MAX,
    ensures
        ({
            let plain = MidiFileView { running_status: false, ..file };
            let compressed = MidiFileView { running_status: true, ..file };
            &&& plain.wire() matches Ok(long)
            &&& compressed.wire() matches Ok(short)
            &&& short.len() <= long.len()
            &&& spec_parse_file(long) matches Ok(from_long)
            &&& spec_parse_file(short) matches Ok(from_short)
            &&& from_long.tracks == from_short.tracks
            &&& from_long.header == from_short.header
        }),
{
    let plain = MidiFileView { running_status: false, ..file };
    let compressed = MidiFileView { running_status: true, ..file };
    lemma_running_status_saves_chunks(file.tracks);
    theorem_read_after_write(plain);
    theorem_read_after_write(compressed);
}

/// The numbers that reading makes lie in their ranges.
proof fn lemma_numbers_read_are_in_range()
    ensures
        forall|v: u8| (#[trigger] Channel::spec_new(v)).in_range(),
        forall|v: u8| (#[trigger] NoteNumber::spec_new(v)).in_range(),
        forall|v: u8| (#[trigger] Velocity::spec_new(v)).in_range(),
        forall|v: u8| (#[trigger] ControlValue::spec_new(v)).in_range(),
        forall|v: u8| (#[trigger] Program::spec_new(v)).in_range(),
        forall|v: u8| (#[trigger] MonoModeChannels::spec_new(v)).in_range(),
        forall|v: u8| (#[trigger] PortValue::spec_new(v)).in_range(),
        forall|v: i8| (#[trigger] KeyAccidentals::spec_new(v)).in_range(),
        forall|v: u32| (#[trigger] MicrosecondsPerQuarter::spec_new(v)).in_range(),
        forall|v: u16| (#[trigger] QuarterNoteDivision::spec_new(v)).in_range(),
{
    assert forall|v: u8| (#[trigger] Channel::spec_new(v)).in_range() by {
        Channel::lemma_spec_new(v);
    }
    assert forall|v: u8| (#[trigger] NoteNumber::spec_new(v)).in_range() by {
        NoteNumber::lemma_spec_new(v);
    }
    assert forall|v: u8| (#[trigger] Velocity::spec_new(v)).in_range() by {
        Velocity::lemma_spec_new(v);
    }
    assert forall|v: u8| (#[trigger] ControlValue::spec_new(v)).in_range() by {
        ControlValue::lemma_spec_new(v);
    }
    assert forall|v: u8| (#[trigger] Program::spec_new(v)).in_range() by {
        Program::lemma_spec_new(v);
    }
    assert forall|v: u8| (#[trigger] MonoModeChannels::spec_new(v)).in_range() by {
        MonoModeChannels::lemma_spec_new(v);
    }
    assert forall|v: u8| (#[trigger] PortValue::spec_new(v)).in_range() by {
        PortValue::lemma_spec_new(v);
    }
    assert forall|v: i8| (#[trigger] KeyAccidentals::spec_new(v)).in_range() by {
        KeyAccidentals::lemma_spec_new(v);
    }
    assert forall|v: u32| (#[trigger] MicrosecondsPerQuarter::spec_new(v)).in_range() by {
        MicrosecondsPerQuarter::lemma_spec_new(v);
    }
    assert forall|v: u16| (#[trigger] QuarterNoteDivision::spec_new(v)).in_range() by {
        QuarterNoteDivision::lemma_spec_new(v);
    }
}

/// A message that is read is as reading makes it.
pub proof fn lemma_message_read_is_canonical(c: Cursor)
    ensures
        spec_parse_message(c).result matches Ok(m) ==> canonical_message(m),
{
    reveal(spec_parse_message);
    lemma_numbers_read_are_in_range();
}

/// A meta-event that is read is as reading makes it.
pub proof fn lemma_meta_read_is_canonical(c: Cursor)
    ensures
        spec_parse_meta(c).result matches Ok(m) ==> canonical_meta(m),
{
    reveal(spec_parse_meta);
    lemma_numbers_read_are_in_range();
    assert forall|v: u8| (#[trigger] Clocks::of_count(v)).resolved() by {
        Clocks::lemma_of_count(v);
    }
}

/// A track event that is read is as reading makes it.
pub proof fn lemma_track_event_read_is_canonical(c: Cursor)
    ensures
        spec_parse_track_event(c).result matches Ok(e) ==> canonical_event(e.event),
{
    reveal(spec_parse_track_event);
    reveal(spec_parse_event);
    let delta = c.read_vlq_u32();
    lemma_message_read_is_canonical(delta.cursor);
    lemma_meta_read_is_canonical(delta.cursor);
}

/// The events of a track that are read are as reading makes them, and the
/// track is closed once.
pub proof fn lemma_events_read_are_canonical(c: Cursor, so_far: Seq<TrackEventView>)
    requires
        forall|i: int| 0 <= i < so_far.len() ==> canonical_event((#[trigger] so_far[i]).event),
        forall|i: int| 0 <= i < so_far.len() ==> !(#[trigger] so_far[i]).is_end(),
    ensures
        spec_parse_events(c, so_far).result matches Ok(events) ==> canonical_track(events),
    decreases c.data.len() - c.taken,
{
    if !c.is_end() {
        lemma_parse_track_event_follows(c);
        lemma_track_event_read_is_canonical(c);
        let next = spec_parse_track_event(c);
        if let Ok(event) = next.result {
            if !event.is_end() {
                lemma_events_read_are_canonical(next.cursor, so_far.push(event));
            }
        }
    }
}

/// The tracks that are read are as reading makes them.
pub proof fn lemma_tracks_read_are_canonical(
    c: Cursor,
    so_far: Seq<Seq<TrackEventView>>,
    remaining: nat,
)
    requires
        canonical_tracks(so_far),
    ensures
        spec_parse_tracks(c, so_far, remaining).result matches Ok(tracks) ==> canonical_tracks(
            tracks,
        ),
    decreases remaining,
{
    if remaining > 0 {
        let track = spec_parse_track(c);
        let tag = c.expect_tag(track_tag());
        if tag.result is Ok {
            let length = tag.cursor.read_u32();
            if let Ok(chunk_length) = length.result {
                lemma_events_read_are_canonical(
                    length.cursor.set_size_limit(chunk_length as u64),
                    Seq::empty(),
                );
            }
        }
        if let Ok(events) = track.result {
            lemma_tracks_read_are_canonical(
                track.cursor,
                so_far.push(events),
                (remaining - 1) as nat,
            );
        }
    }
}

/// A file that is read is as reading makes it.
pub proof fn lemma_file_read_is_canonical(data: Seq<u8>)
    ensures
        spec_parse_file(data) matches Ok(file) ==> canonical_file(file) && file.wf(),
{
    lemma_numbers_read_are_in_range();
    crate::lemma_a_file_that_is_read_is_well_formed(data);
    let header = spec_parse_header(Cursor::start(data));
    if let Ok((h, count)) = header.result {
        lemma_tracks_read_are_canonical(header.cursor, Seq::empty(), count as nat);
    }
}

/// Writing is settled after one reading. Whatever bytes a file is read
/// from: where the file can be written, its bytes are read back as the
/// same header and tracks, and what is read back is written as the same
/// bytes again.
pub proof fn theorem_write_after_read(data: Seq<u8>)
    requires
        spec_parse_file(data) is Ok,
        spec_parse_file(data)->Ok_0.wire() is Ok,
        spec_parse_file(data)->Ok_0.wire()->Ok_0.len() <= u64::MAX,
    ensures
        ({
            let file = spec_parse_file(data)->Ok_0;
            let written = file.wire()->Ok_0;
            &&& spec_parse_file(written) matches Ok(again)
            &&& again.header == file.header
            &&& again.tracks == file.tracks
            &&& again.wire() == Ok::<Seq<u8>, ErrorKind>(written)
        }),
{
    lemma_file_read_is_canonical(data);
    theorem_read_after_write(spec_parse_file(data)->Ok_0);
}

} // verus!
