//! MIDI 1.0 ↔ 2.0 translation — velocity, CC, pitch bend conversion.
//!
//! Upscaling repeats the source bit pattern into the wider field (MIDI 2.0
//! "bit replication"), so zero maps to zero and full scale to full scale.
//! Downscaling keeps the most significant bits.

use vstd::prelude::*;
use super::{ControlChange, ControlChangeV2, FramePos, NoteEvent, NoteOnV2};

verus! {

/// Pitch bend center value in MIDI 2.0 (32-bit).
pub const PITCH_BEND_CENTER: u32 = 0x80000000;

/// 7-bit velocity scaled to 16 bits: `v << 9 | v << 2 | v >> 5` (0 stays 0).
pub open spec fn spec_velocity_7_to_16(v: u8) -> u16 {
    if v == 0 {
        0
    } else {
        ((v as u16) << 9u16) | ((v as u16) << 2u16) | ((v as u16) >> 5u16)
    }
}

/// 16-bit velocity reduced to its top 7 bits.
pub open spec fn spec_velocity_16_to_7(v: u16) -> u8 {
    (v >> 9u16) as u8
}

/// 7-bit CC value scaled to 32 bits: `v << 25 | v << 18 | v << 11 | v << 4 | v >> 3`.
pub open spec fn spec_cc_7_to_32(v: u8) -> u32 {
    ((v as u32) << 25u32) | ((v as u32) << 18u32) | ((v as u32) << 11u32) | ((v as u32) << 4u32)
        | ((v as u32) >> 3u32)
}

/// 32-bit CC value reduced to its top 7 bits.
pub open spec fn spec_cc_32_to_7(v: u32) -> u8 {
    (v >> 25u32) as u8
}

/// 14-bit pitch bend scaled to 32 bits: `v << 18 | v << 4 | v >> 10`.
pub open spec fn spec_pitch_bend_14_to_32(v: u16) -> u32 {
    ((v as u32) << 18u32) | ((v as u32) << 4u32) | ((v as u32) >> 10u32)
}

/// 32-bit pitch bend reduced to its top 14 bits.
pub open spec fn spec_pitch_bend_32_to_14(v: u32) -> u16 {
    (v >> 18u32) as u16
}

/// Scale 7-bit MIDI 1.0 velocity to 16-bit MIDI 2.0.
///
/// Uses the MIDI 2.0 spec scaling: `v << 9 | v << 2 | v >> 5`. On 7-bit
/// input the three fields do not overlap, so the result is `516 * v + v / 32`.
pub fn velocity_7_to_16(v: u8) -> (r: u16)
    ensures
        r == spec_velocity_7_to_16(v),
        v <= 127 ==> r == 516 * v + v / 32,
{
    if v == 0 {
        return 0;
    }
    let w = v as u16;
    let r = (w << 9) | (w << 2) | (w >> 5);
    proof {
        if v <= 127 {
            assert(((w << 9u16) | (w << 2u16) | (w >> 5u16)) == 516 * w + w / 32) by (bit_vector)
                requires
                    w <= 127,
            ;
        }
    }
    r
}

/// Scale 16-bit MIDI 2.0 velocity to 7-bit MIDI 1.0 (lossy): `v / 512`.
pub fn velocity_16_to_7(v: u16) -> (r: u8)
    ensures
        r == spec_velocity_16_to_7(v),
        r == v / 512,
{
    proof {
        assert(v >> 9u16 == v / 512) by (bit_vector);
    }
    (v >> 9) as u8
}

/// Scale 7-bit CC value to 32-bit MIDI 2.0.
///
/// On 7-bit input the result is `33818640 * v + v / 8`.
pub fn cc_7_to_32(v: u8) -> (r: u32)
    ensures
        r == spec_cc_7_to_32(v),
        v <= 127 ==> r == 33818640 * v + v / 8,
{
    let w = v as u32;
    let r = (w << 25) | (w << 18) | (w << 11) | (w << 4) | (w >> 3);
    proof {
        if v <= 127 {
            assert(((w << 25u32) | (w << 18u32) | (w << 11u32) | (w << 4u32) | (w >> 3u32))
                == 33818640 * w + w / 8) by (bit_vector)
                requires
                    w <= 127,
            ;
        }
    }
    r
}

/// Scale 32-bit CC value to 7-bit MIDI 1.0 (lossy): `v / 2^25`.
pub fn cc_32_to_7(v: u32) -> (r: u8)
    ensures
        r == spec_cc_32_to_7(v),
        r == v / 0x2000000,
{
    proof {
        assert(v >> 25u32 == v / 0x2000000) by (bit_vector);
    }
    (v >> 25) as u8
}

/// Convert 14-bit MIDI 1.0 pitch bend to 32-bit MIDI 2.0.
///
/// On 14-bit input the result is `262160 * v + v / 1024`.
pub fn pitch_bend_14_to_32(v: u16) -> (r: u32)
    ensures
        r == spec_pitch_bend_14_to_32(v),
        v <= 16383 ==> r == 262160 * v + v / 1024,
{
    let w = v as u32;
    let r = (w << 18) | (w << 4) | (w >> 10);
    proof {
        if v <= 16383 {
            assert(((w << 18u32) | (w << 4u32) | (w >> 10u32)) == 262160 * w + w / 1024)
                by (bit_vector)
                requires
                    w <= 16383,
            ;
        }
    }
    r
}

/// Convert 32-bit MIDI 2.0 pitch bend to 14-bit MIDI 1.0 (lossy): `v / 2^18`.
pub fn pitch_bend_32_to_14(v: u32) -> (r: u16)
    ensures
        r == spec_pitch_bend_32_to_14(v),
        r == v / 0x40000,
{
    proof {
        assert(v >> 18u32 == v / 0x40000) by (bit_vector);
    }
    (v >> 18) as u16
}

/// The MIDI 2.0 note-on that a MIDI 1.0 note event translates to.
pub open spec fn spec_note_event_to_v2(event: NoteEvent) -> NoteOnV2 {
    NoteOnV2 {
        position: event.position,
        note: event.note,
        velocity: spec_velocity_7_to_16(event.velocity),
        channel: event.channel,
        attribute_type: 0,
        attribute_data: 0,
    }
}

/// The MIDI 1.0 note event that a MIDI 2.0 note-on translates to.
pub open spec fn spec_note_on_v2_to_event(event: NoteOnV2, duration: FramePos) -> NoteEvent {
    NoteEvent {
        position: event.position,
        duration,
        note: event.note,
        velocity: spec_velocity_16_to_7(event.velocity),
        channel: event.channel,
    }
}

/// The MIDI 2.0 control change that a MIDI 1.0 control change translates to.
pub open spec fn spec_cc_to_v2(cc: ControlChange) -> ControlChangeV2 {
    ControlChangeV2 {
        position: cc.position,
        controller: cc.controller,
        value: spec_cc_7_to_32(cc.value),
        channel: cc.channel,
    }
}

/// The MIDI 1.0 control change that a MIDI 2.0 control change translates to.
pub open spec fn spec_cc_v2_to_cc(cc: ControlChangeV2) -> ControlChange {
    ControlChange {
        position: cc.position,
        controller: cc.controller,
        value: spec_cc_32_to_7(cc.value),
        channel: cc.channel,
    }
}

/// Convert a MIDI 1.0 NoteEvent to a MIDI 2.0 NoteOnV2.
pub fn note_event_to_v2(event: &NoteEvent) -> (r: NoteOnV2)
    ensures
        r == spec_note_event_to_v2(*event),
{
    NoteOnV2 {
        position: event.position,
        note: event.note,
        velocity: velocity_7_to_16(event.velocity),
        channel: event.channel,
        attribute_type: 0,
        attribute_data: 0,
    }
}

/// Convert a MIDI 2.0 NoteOnV2 back to a MIDI 1.0 NoteEvent (lossy).
///
/// Requires a duration since NoteOnV2 doesn't carry duration.
pub fn note_on_v2_to_event(event: &NoteOnV2, duration: FramePos) -> (r: NoteEvent)
    ensures
        r == spec_note_on_v2_to_event(*event, duration),
{
    NoteEvent {
        position: event.position,
        duration,
        note: event.note,
        velocity: velocity_16_to_7(event.velocity),
        channel: event.channel,
    }
}

/// Convert a MIDI 1.0 ControlChange to MIDI 2.0 ControlChangeV2.
pub fn cc_to_v2(cc: &ControlChange) -> (r: ControlChangeV2)
    ensures
        r == spec_cc_to_v2(*cc),
{
    ControlChangeV2 {
        position: cc.position,
        controller: cc.controller,
        value: cc_7_to_32(cc.value),
        channel: cc.channel,
    }
}

/// Convert a MIDI 2.0 ControlChangeV2 to MIDI 1.0 ControlChange (lossy).
pub fn cc_v2_to_cc(cc: &ControlChangeV2) -> (r: ControlChange)
    ensures
        r == spec_cc_v2_to_cc(*cc),
{
    ControlChange {
        position: cc.position,
        controller: cc.controller,
        value: cc_32_to_7(cc.value),
        channel: cc.channel,
    }
}

/// Upscaling a 7-bit velocity and reducing it again gives the original velocity.
pub proof fn lemma_velocity_roundtrip(v: u8)
    requires
        v <= 127,
    ensures
        spec_velocity_16_to_7(spec_velocity_7_to_16(v)) == v,
{
    if v != 0 {
        assert(((((v as u16) << 9u16) | ((v as u16) << 2u16) | ((v as u16) >> 5u16)) >> 9u16) as u8
            == v) by (bit_vector)
            requires
                v <= 127,
        ;
    } else {
        assert((0u16 >> 9u16) as u8 == 0u8) by (bit_vector);
    }
}

/// Velocity upscaling maps silence to silence and full scale to full scale,
/// and preserves order on 7-bit input.
pub proof fn lemma_velocity_scaling_bounds(a: u8, b: u8)
    requires
        a <= b <= 127,
    ensures
        spec_velocity_7_to_16(0) == 0,
        spec_velocity_7_to_16(127) == 0xFFFF,
        spec_velocity_7_to_16(a) <= spec_velocity_7_to_16(b),
{
    assert(((127u16 << 9u16) | (127u16 << 2u16) | (127u16 >> 5u16)) == 0xFFFFu16) by (bit_vector);
    lemma_velocity_arith(a);
    lemma_velocity_arith(b);
    assert(a / 32 <= b / 32) by (nonlinear_arith)
        requires
            a <= b,
    ;
}

proof fn lemma_velocity_arith(v: u8)
    requires
        v <= 127,
    ensures
        spec_velocity_7_to_16(v) == 516 * v + v / 32,
{
    let w = v as u16;
    assert(((w << 9u16) | (w << 2u16) | (w >> 5u16)) == 516 * w + w / 32) by (bit_vector)
        requires
            w <= 127,
    ;
}

/// Upscaling a 7-bit CC value and reducing it again gives the original value.
pub proof fn lemma_cc_roundtrip(v: u8)
    requires
        v <= 127,
    ensures
        spec_cc_32_to_7(spec_cc_7_to_32(v)) == v,
{
    assert(((((v as u32) << 25u32) | ((v as u32) << 18u32) | ((v as u32) << 11u32) | ((v as u32)
        << 4u32) | ((v as u32) >> 3u32)) >> 25u32) as u8 == v) by (bit_vector)
        requires
            v <= 127,
    ;
}

/// CC upscaling maps 0 to 0 and 127 to `u32::MAX`, and preserves order on 7-bit input.
pub proof fn lemma_cc_scaling_bounds(a: u8, b: u8)
    requires
        a <= b <= 127,
    ensures
        spec_cc_7_to_32(0) == 0,
        spec_cc_7_to_32(127) == 0xFFFF_FFFF,
        spec_cc_7_to_32(a) <= spec_cc_7_to_32(b),
{
    assert(((0u32 << 25u32) | (0u32 << 18u32) | (0u32 << 11u32) | (0u32 << 4u32) | (0u32 >> 3u32))
        == 0u32) by (bit_vector);
    assert(((127u32 << 25u32) | (127u32 << 18u32) | (127u32 << 11u32) | (127u32 << 4u32) | (127u32
        >> 3u32)) == 0xFFFF_FFFFu32) by (bit_vector);
    lemma_cc_arith(a);
    lemma_cc_arith(b);
    assert(a / 8 <= b / 8) by (nonlinear_arith)
        requires
            a <= b,
    ;
}

proof fn lemma_cc_arith(v: u8)
    requires
        v <= 127,
    ensures
        spec_cc_7_to_32(v) == 33818640 * v + v / 8,
{
    let w = v as u32;
    assert(((w << 25u32) | (w << 18u32) | (w << 11u32) | (w << 4u32) | (w >> 3u32)) == 33818640 * w
        + w / 8) by (bit_vector)
        requires
            w <= 127,
    ;
}

/// Upscaling a 14-bit pitch bend and reducing it again gives the original value.
pub proof fn lemma_pitch_bend_roundtrip(v: u16)
    requires
        v <= 16383,
    ensures
        spec_pitch_bend_32_to_14(spec_pitch_bend_14_to_32(v)) == v,
{
    assert(((((v as u32) << 18u32) | ((v as u32) << 4u32) | ((v as u32) >> 10u32)) >> 18u32) as u16
        == v) by (bit_vector)
        requires
            v <= 16383,
    ;
}

/// Pitch bend upscaling maps 0 to 0 and 16383 to `u32::MAX`, preserves order on
/// 14-bit input, and the 32-bit center reduces to the 14-bit center 8192.
pub proof fn lemma_pitch_bend_scaling_bounds(a: u16, b: u16)
    requires
        a <= b <= 16383,
    ensures
        spec_pitch_bend_14_to_32(0) == 0,
        spec_pitch_bend_14_to_32(16383) == 0xFFFF_FFFF,
        spec_pitch_bend_14_to_32(a) <= spec_pitch_bend_14_to_32(b),
        spec_pitch_bend_32_to_14(PITCH_BEND_CENTER) == 8192,
{
    assert(((0u32 << 18u32) | (0u32 << 4u32) | (0u32 >> 10u32)) == 0u32) by (bit_vector);
    assert(((16383u32 << 18u32) | (16383u32 << 4u32) | (16383u32 >> 10u32)) == 0xFFFF_FFFFu32)
        by (bit_vector);
    assert((0x80000000u32 >> 18u32) as u16 == 8192u16) by (bit_vector);
    lemma_pitch_bend_arith(a);
    lemma_pitch_bend_arith(b);
    assert(a / 1024 <= b / 1024) by (nonlinear_arith)
        requires
            a <= b,
    ;
}

proof fn lemma_pitch_bend_arith(v: u16)
    requires
        v <= 16383,
    ensures
        spec_pitch_bend_14_to_32(v) == 262160 * v + v / 1024,
{
    let w = v as u32;
    assert(((w << 18u32) | (w << 4u32) | (w >> 10u32)) == 262160 * w + w / 1024) by (bit_vector)
        requires
            w <= 16383,
    ;
}

/// A MIDI 1.0 note with a 7-bit velocity survives the trip to MIDI 2.0 and back
/// (given back its duration).
pub proof fn lemma_note_event_roundtrip(event: NoteEvent)
    requires
        event.velocity <= 127,
    ensures
        spec_note_on_v2_to_event(spec_note_event_to_v2(event), event.duration) == event,
{
    lemma_velocity_roundtrip(event.velocity);
}

/// A MIDI 1.0 control change with a 7-bit value survives the trip to MIDI 2.0 and back.
pub proof fn lemma_control_change_roundtrip(cc: ControlChange)
    requires
        cc.value <= 127,
    ensures
        spec_cc_v2_to_cc(spec_cc_to_v2(cc)) == cc,
{
    lemma_cc_roundtrip(cc.value);
}

} // verus!
