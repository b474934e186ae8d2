//! Types and concepts that are not tied to MIDI *files* and would serve
//! realtime MIDI as well.

pub mod bits;
pub mod clocks;
pub mod control;
pub mod duration_name;
pub mod general_midi;
pub mod message;
pub mod numbers;
pub mod status_type;

pub use clocks::Clocks;
pub use control::Control;
pub use duration_name::DurationName;
pub use general_midi::GeneralMidi;
pub use message::{
    ChannelPressureMessage, ControlChangeValue, LocalControlValue, Message,
    MidiTimeCodeQuarterFrameMessage, ModeMessage, MonoModeOnValue, NoteMessage, OnOff,
    PitchBendMessage, ProgramChangeValue, SongPositionPointerMessage, SongSelectMessage,
    SystemCommonMessage, SystemMessage, SystemRealtimeMessage,
};
pub use numbers::{
    Channel, ControlValue, MonoModeChannels, NoteNumber, PitchBendValue, PortValue, Program,
    Velocity,
};
pub use status_type::StatusType;
