//! Audio engine core: MIDI translation, routing and voice allocation, buffer
//! shapes, sample formats, transport clock and error reporting.

pub mod fbits;
pub mod text;

pub mod error;

pub use error::NadaError;
pub mod midi;
pub mod analysis;
pub mod buffer;
pub mod dsp;
pub mod clock;
pub mod capture;

pub use buffer::{BufferShape, Layout, SampleFormat};
pub use capture::{AudioDevice, DeviceType};
pub use clock::AudioClock;
pub use error::Result;
pub use midi::routing::{MidiRoute, VelocityCurve};
pub use midi::voice::{Voice, VoiceManager, VoiceState, VoiceStealMode};
pub use midi::{ControlChange, ControlChangeV2, FramePos, NoteEvent, NoteOnV2};
