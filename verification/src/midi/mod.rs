//! MIDI: event types, MIDI 1.0 ↔ 2.0 translation, routing and voice allocation.

pub mod routing;
pub mod translate;
pub mod voice;

use vstd::prelude::*;

verus! {

/// Position or length on the timeline, in frames.
pub type FramePos = u64;

/// A MIDI 1.0 note with a start position and a duration.
#[derive(Debug, Clone, Copy, PartialEq, Eq, Structural)]
pub struct NoteEvent {
    /// Start position in frames.
    pub position: FramePos,
    /// Length of the note in frames.
    pub duration: FramePos,
    /// MIDI note number (0–127).
    pub note: u8,
    /// 7-bit velocity (0–127).
    pub velocity: u8,
    /// MIDI channel (0–15).
    pub channel: u8,
}

/// A MIDI 1.0 control change.
#[derive(Debug, Clone, Copy, PartialEq, Eq, Structural)]
pub struct ControlChange {
    /// Position in frames.
    pub position: FramePos,
    /// Controller number (0–127).
    pub controller: u8,
    /// 7-bit controller value (0–127).
    pub value: u8,
    /// MIDI channel (0–15).
    pub channel: u8,
}

/// A MIDI 2.0 note-on with 16-bit velocity and an attribute.
#[derive(Debug, Clone, Copy, PartialEq, Eq, Structural)]
pub struct NoteOnV2 {
    /// Position in frames.
    pub position: FramePos,
    /// MIDI note number (0–127).
    pub note: u8,
    /// 16-bit velocity.
    pub velocity: u16,
    /// MIDI channel (0–15).
    pub channel: u8,
    /// Attribute type (0 = none).
    pub attribute_type: u8,
    /// Attribute payload.
    pub attribute_data: u16,
}

/// A MIDI 2.0 control change with a 32-bit value.
#[derive(Debug, Clone, Copy, PartialEq, Eq, Structural)]
pub struct ControlChangeV2 {
    /// Position in frames.
    pub position: FramePos,
    /// Controller number (0–127).
    pub controller: u8,
    /// 32-bit controller value.
    pub value: u32,
    /// MIDI channel (0–15).
    pub channel: u8,
}

} // verus!
