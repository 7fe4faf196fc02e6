use dhvani::midi::routing::{MidiRoute, VelocityCurve};
use dhvani::midi::NoteEvent;

#[test]
fn velocity_curve_linear() {
    assert_eq!(VelocityCurve::Linear.apply(0), 0);
    assert_eq!(VelocityCurve::Linear.apply(64), 64);
    assert_eq!(VelocityCurve::Linear.apply(127), 127);
}

#[test]
fn velocity_curve_soft() {
    // Soft (sqrt) should map mid-range higher than linear
    let soft_64 = VelocityCurve::Soft.apply(64);
    assert!(
        soft_64 > 64,
        "Soft curve at 64 should be > 64, got {soft_64}"
    );
    assert_eq!(VelocityCurve::Soft.apply(0), 0);
    assert_eq!(VelocityCurve::Soft.apply(127), 127);
}

#[test]
fn velocity_curve_hard() {
    // Hard (square) should map mid-range lower than linear
    let hard_64 = VelocityCurve::Hard.apply(64);
    assert!(
        hard_64 < 64,
        "Hard curve at 64 should be < 64, got {hard_64}"
    );
    assert_eq!(VelocityCurve::Hard.apply(0), 0);
    assert_eq!(VelocityCurve::Hard.apply(127), 127);
}

#[test]
fn velocity_curve_fixed() {
    assert_eq!(VelocityCurve::Fixed(100).apply(0), 100);
    assert_eq!(VelocityCurve::Fixed(100).apply(127), 100);
}

#[test]
fn route_passthrough() {
    let route = MidiRoute::passthrough();
    let event = NoteEvent {
        position: 0,
        duration: 100,
        note: 60,
        velocity: 100,
        channel: 0,
    };
    let result = route.filter_event(&event).unwrap();
    assert_eq!(result.velocity, 100);
    assert_eq!(result.note, 60);
}

#[test]
fn route_channel_filter() {
    let route = MidiRoute::new(Some(5), VelocityCurve::Linear, (0, 127));
    let event_ch5 = NoteEvent {
        position: 0,
        duration: 100,
        note: 60,
        velocity: 100,
        channel: 5,
    };
    let event_ch0 = NoteEvent {
        channel: 0,
        ..event_ch5.clone()
    };

    assert!(route.filter_event(&event_ch5).is_some());
    assert!(route.filter_event(&event_ch0).is_none());
}

#[test]
fn route_note_range() {
    let route = MidiRoute::new(None, VelocityCurve::Linear, (36, 96));
    let event_in = NoteEvent {
        position: 0,
        duration: 100,
        note: 60,
        velocity: 100,
        channel: 0,
    };
    let event_below = NoteEvent {
        note: 20,
        ..event_in.clone()
    };
    let event_above = NoteEvent {
        note: 120,
        ..event_in.clone()
    };

    assert!(route.filter_event(&event_in).is_some());
    assert!(route.filter_event(&event_below).is_none());
    assert!(route.filter_event(&event_above).is_none());
}

#[test]
fn route_velocity_curve_applied() {
    let route = MidiRoute::new(None, VelocityCurve::Fixed(80), (0, 127));
    let event = NoteEvent {
        position: 0,
        duration: 100,
        note: 60,
        velocity: 127,
        channel: 0,
    };
    let result = route.filter_event(&event).unwrap();
    assert_eq!(result.velocity, 80);
}

// ── the integer curves agree with the single-precision formulas ──────

fn soft_by_float(velocity: u8) -> u8 {
    let normalized = velocity as f32 / 127.0;
    (normalized.sqrt() * 127.0) as u8
}

fn hard_by_float(velocity: u8) -> u8 {
    let normalized = velocity as f32 / 127.0;
    (normalized * normalized * 127.0) as u8
}

#[test]
fn soft_curve_matches_float_formula_everywhere() {
    for v in 0..=255u8 {
        assert_eq!(VelocityCurve::Soft.apply(v), soft_by_float(v), "soft curve at {v}");
    }
}

#[test]
fn hard_curve_matches_float_formula_everywhere() {
    for v in 0..=255u8 {
        assert_eq!(VelocityCurve::Hard.apply(v), hard_by_float(v), "hard curve at {v}");
    }
}

#[test]
fn curve_exact_values() {
    assert_eq!(VelocityCurve::Soft.apply(64), 90);
    assert_eq!(VelocityCurve::Hard.apply(64), 32);
    assert_eq!(VelocityCurve::Soft.apply(1), 11);
    assert_eq!(VelocityCurve::Hard.apply(255), 255);
    assert_eq!(VelocityCurve::Soft.apply(255), 179);
}

#[test]
fn curve_shape_on_seven_bits() {
    for v in 0..=127u8 {
        assert!(VelocityCurve::Soft.apply(v) >= v);
        assert!(VelocityCurve::Hard.apply(v) <= v);
        if v < 127 {
            assert!(VelocityCurve::Soft.apply(v) <= VelocityCurve::Soft.apply(v + 1));
            assert!(VelocityCurve::Hard.apply(v) <= VelocityCurve::Hard.apply(v + 1));
        }
    }
}

#[test]
fn route_settings_are_clamped() {
    let route = MidiRoute::new(Some(40), VelocityCurve::Soft, (200, 100));
    assert_eq!(route.channel_filter(), Some(15));
    assert_eq!(route.note_range(), (127, 127));
    assert_eq!(route.velocity_curve(), &VelocityCurve::Soft);

    let mut route = MidiRoute::passthrough();
    route.set_note_range(90, 30);
    assert_eq!(route.note_range(), (90, 90));
    route.set_note_range(10, 250);
    assert_eq!(route.note_range(), (10, 127));
    route.set_channel_filter(Some(16));
    assert_eq!(route.channel_filter(), Some(15));
    route.set_channel_filter(None);
    assert_eq!(route.channel_filter(), None);
    route.set_velocity_curve(VelocityCurve::Fixed(7));
    assert_eq!(route.velocity_curve(), &VelocityCurve::Fixed(7));
}

#[test]
fn passthrough_keeps_midi_notes_and_drops_others() {
    let route = MidiRoute::default();
    for note in 0..=255u8 {
        let event = NoteEvent { position: 3, duration: 4, note, velocity: 99, channel: 12 };
        let out = route.filter_event(&event);
        if note <= 127 {
            assert_eq!(out, Some(event));
        } else {
            assert_eq!(out, None);
        }
    }
}

#[test]
fn filtered_event_changes_only_velocity() {
    let route = MidiRoute::new(Some(2), VelocityCurve::Hard, (40, 80)).clone();
    let event = NoteEvent { position: 11, duration: 22, note: 40, velocity: 100, channel: 2 };
    let out = route.filter_event(&event).unwrap();
    assert_eq!(out, NoteEvent { velocity: 78, ..event });
    assert_eq!(route.filter_event(&NoteEvent { note: 81, ..event }), None);
    assert_eq!(route.filter_event(&NoteEvent { channel: 3, ..event }), None);
}
