//! Types and concepts that belong to MIDI *files*, apart from those that
//! realtime MIDI shares.

pub mod division;
pub mod header;
pub mod meta_event;
pub mod numbers;
pub mod sysex;
pub mod track;
pub mod track_event;

pub use division::{Division, FrameRate, SmpteRate};
pub use header::{Format, Header};
pub use meta_event::{KeyMode, KeySignatureValue, MetaEvent, SmpteOffsetValue, TimeSignatureValue};
pub use numbers::{KeyAccidentals, MicrosecondsPerQuarter, QuarterNoteDivision, QuartersPerMinute};
pub use sysex::{SysexEvent, SysexEventType};
pub use track::{ensure_end_of_track, Track};
pub use track_event::{Event, TrackEvent};
