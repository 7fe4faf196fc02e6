use dhvani::midi::translate::{
    cc_32_to_7, cc_7_to_32, cc_to_v2, cc_v2_to_cc, note_event_to_v2, note_on_v2_to_event,
    pitch_bend_14_to_32, pitch_bend_32_to_14, velocity_16_to_7, velocity_7_to_16,
    PITCH_BEND_CENTER,
};
use dhvani::midi::{ControlChange, NoteEvent};

#[test]
fn velocity_7_to_16_zero() {
    assert_eq!(velocity_7_to_16(0), 0);
}

#[test]
fn velocity_7_to_16_max() {
    let v16 = velocity_7_to_16(127);
    assert!(v16 > 65000, "max velocity should be near 65535, got {v16}");
}

#[test]
fn velocity_roundtrip() {
    for v in 0..=127u8 {
        let v16 = velocity_7_to_16(v);
        let back = velocity_16_to_7(v16);
        assert_eq!(back, v, "roundtrip failed for velocity {v}");
    }
}

#[test]
fn cc_roundtrip() {
    for v in 0..=127u8 {
        let v32 = cc_7_to_32(v);
        let back = cc_32_to_7(v32);
        assert_eq!(back, v, "roundtrip failed for CC value {v}");
    }
}

#[test]
fn pitch_bend_roundtrip() {
    for v in [0u16, 1, 8192, 16383] {
        let v32 = pitch_bend_14_to_32(v);
        let back = pitch_bend_32_to_14(v32);
        assert_eq!(back, v, "roundtrip failed for pitch bend {v}");
    }
}

#[test]
fn pitch_bend_center() {
    let center_14 = 8192u16;
    let v32 = pitch_bend_14_to_32(center_14);
    let back = pitch_bend_32_to_14(v32);
    assert_eq!(back, center_14);
}

#[test]
fn note_event_to_v2_and_back() {
    let event = NoteEvent {
        position: 1000,
        duration: 500,
        note: 60,
        velocity: 100,
        channel: 0,
    };
    let v2 = note_event_to_v2(&event);
    assert_eq!(v2.note, 60);
    assert_eq!(v2.channel, 0);

    let back = note_on_v2_to_event(&v2, 500);
    assert_eq!(back.note, 60);
    assert_eq!(back.velocity, 100);
    assert_eq!(back.duration, 500);
}

#[test]
fn cc_to_v2_and_back() {
    let cc = ControlChange {
        position: 0,
        controller: 7,
        value: 100,
        channel: 0,
    };
    let v2 = cc_to_v2(&cc);
    assert_eq!(v2.controller, 7);

    let back = cc_v2_to_cc(&v2);
    assert_eq!(back.controller, 7);
    assert_eq!(back.value, 100);
}

#[test]
fn cc_7_to_32_max() {
    let v32 = cc_7_to_32(127);
    assert!(
        v32 > 4_000_000_000,
        "max CC should be near u32::MAX, got {v32}"
    );
}

#[test]
fn pitch_bend_center_constant() {
    assert_eq!(PITCH_BEND_CENTER, 0x80000000);
}

// ── exact values of the scaling formulas ─────────────────────────────

#[test]
fn velocity_scaling_exact_values() {
    assert_eq!(velocity_7_to_16(1), 516);
    assert_eq!(velocity_7_to_16(64), 33026);
    assert_eq!(velocity_7_to_16(127), 0xFFFF);
    // Outside 7 bits the shifted fields wrap within 16 bits.
    assert_eq!(velocity_7_to_16(128), 516);
    assert_eq!(velocity_16_to_7(0xFFFF), 127);
    assert_eq!(velocity_16_to_7(511), 0);
    assert_eq!(velocity_16_to_7(512), 1);
}

#[test]
fn cc_scaling_exact_values() {
    assert_eq!(cc_7_to_32(0), 0);
    assert_eq!(cc_7_to_32(1), 33818640);
    assert_eq!(cc_7_to_32(127), u32::MAX);
    assert_eq!(cc_32_to_7(u32::MAX), 127);
    assert_eq!(cc_32_to_7(0x01FF_FFFF), 0);
    assert_eq!(cc_32_to_7(0x0200_0000), 1);
}

#[test]
fn pitch_bend_scaling_exact_values() {
    assert_eq!(pitch_bend_14_to_32(0), 0);
    assert_eq!(pitch_bend_14_to_32(8192), 0x8002_0008);
    assert_eq!(pitch_bend_14_to_32(16383), u32::MAX);
    assert_eq!(pitch_bend_32_to_14(PITCH_BEND_CENTER), 8192);
}

#[test]
fn scaling_is_monotone_on_full_range() {
    for v in 0..127u8 {
        assert!(velocity_7_to_16(v) < velocity_7_to_16(v + 1));
        assert!(cc_7_to_32(v) < cc_7_to_32(v + 1));
    }
    for v in 0..16383u16 {
        assert!(pitch_bend_14_to_32(v) < pitch_bend_14_to_32(v + 1));
        assert_eq!(pitch_bend_32_to_14(pitch_bend_14_to_32(v)), v);
    }
}

#[test]
fn translated_events_keep_their_fields() {
    let event = NoteEvent { position: 7, duration: 9, note: 61, velocity: 127, channel: 3 };
    let v2 = note_event_to_v2(&event);
    assert_eq!(v2.position, 7);
    assert_eq!(v2.velocity, 0xFFFF);
    assert_eq!(v2.attribute_type, 0);
    assert_eq!(v2.attribute_data, 0);
    assert_eq!(note_on_v2_to_event(&v2, 9), event);

    let cc = ControlChange { position: 5, controller: 74, value: 127, channel: 9 };
    let v2 = cc_to_v2(&cc);
    assert_eq!(v2.value, u32::MAX);
    assert_eq!(v2.channel, 9);
    assert_eq!(cc_v2_to_cc(&v2), cc);
}
