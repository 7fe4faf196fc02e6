use dhvani::midi::voice::{Voice, VoiceManager, VoiceState, VoiceStealMode};

#[test]
fn voice_state() {
    let voice = Voice::new();
    assert!(voice.is_idle());
    assert!(!voice.is_active());
}

#[test]
fn voice_per_note_cc() {
    let mut voice = Voice::new();
    voice.apply_per_note_cc(74, 0.8f32.to_bits());
    assert!((f32::from_bits(voice.brightness_bits()) - 0.8).abs() < f32::EPSILON);

    // Non-74 CC should not affect brightness
    voice.apply_per_note_cc(1, 0.5f32.to_bits());
    assert!((f32::from_bits(voice.brightness_bits()) - 0.8).abs() < f32::EPSILON);
}

#[test]
fn voice_manager_basic() {
    let mut mgr = VoiceManager::new(4, VoiceStealMode::Oldest);
    assert_eq!(mgr.active_count(), 0);

    let idx = mgr.note_on(60, 100, 0);
    assert_eq!(idx, Some(0));
    assert_eq!(mgr.active_count(), 1);

    mgr.note_off(60, 0);
    assert_eq!(mgr.voice(0).unwrap().state(), VoiceState::Releasing);

    mgr.free_voice(0);
    assert_eq!(mgr.active_count(), 0);
}

#[test]
fn voice_stealing_oldest() {
    let mut mgr = VoiceManager::new(2, VoiceStealMode::Oldest);
    mgr.note_on(60, 100, 0); // slot 0, age 0
    mgr.tick_age(); // slot 0 age = 1
    mgr.note_on(62, 100, 0); // slot 1, age 0
    mgr.tick_age(); // slot 0 age = 2, slot 1 age = 1

    // All voices full, should steal oldest (slot 0)
    let idx = mgr.note_on(64, 100, 0);
    assert_eq!(idx, Some(0));
    assert_eq!(mgr.voice(0).unwrap().note(), 64);
}

#[test]
fn voice_stealing_quietest() {
    let mut mgr = VoiceManager::new(2, VoiceStealMode::Quietest);
    mgr.note_on(60, 100, 0);
    mgr.voice_mut(0).unwrap().set_envelope_level_bits(0.8f32.to_bits());
    mgr.note_on(62, 100, 0);
    mgr.voice_mut(1).unwrap().set_envelope_level_bits(0.2f32.to_bits());

    // Should steal quietest (slot 1)
    let idx = mgr.note_on(64, 100, 0);
    assert_eq!(idx, Some(1));
}

#[test]
fn voice_stealing_lowest() {
    let mut mgr = VoiceManager::new(2, VoiceStealMode::Lowest);
    mgr.note_on(72, 100, 0); // high note
    mgr.note_on(48, 100, 0); // low note

    // Should steal lowest (48)
    let idx = mgr.note_on(60, 100, 0);
    assert_eq!(idx, Some(1));
    assert_eq!(mgr.voice(1).unwrap().note(), 60);
}

#[test]
fn voice_stealing_none() {
    let mut mgr = VoiceManager::new(2, VoiceStealMode::NoStealing);
    mgr.note_on(60, 100, 0);
    mgr.note_on(62, 100, 0);

    let idx = mgr.note_on(64, 100, 0);
    assert_eq!(idx, None);
}

#[test]
fn voice_manager_reset() {
    let mut mgr = VoiceManager::new(4, VoiceStealMode::Oldest);
    mgr.note_on(60, 100, 0);
    mgr.note_on(62, 90, 0);
    assert_eq!(mgr.active_count(), 2);

    mgr.reset();
    assert_eq!(mgr.active_count(), 0);
}

#[test]
fn voice_reuse_after_free() {
    let mut mgr = VoiceManager::new(2, VoiceStealMode::NoStealing);
    let _idx0 = mgr.note_on(60, 100, 0).unwrap();
    let idx1 = mgr.note_on(62, 100, 0).unwrap();
    assert_eq!(mgr.note_on(64, 100, 0), None); // full

    mgr.free_voice(idx1);
    let idx2 = mgr.note_on(64, 100, 0);
    assert_eq!(idx2, Some(idx1)); // reuses freed slot
}

#[test]
fn tick_age_only_active() {
    let mut mgr = VoiceManager::new(2, VoiceStealMode::Oldest);
    mgr.note_on(60, 100, 0);
    mgr.tick_age();
    mgr.tick_age();
    assert_eq!(mgr.voice(0).unwrap().age(), 2);
    assert_eq!(mgr.voice(1).unwrap().age(), 0); // idle, not ticked
}

// ── further behaviour of the pool ────────────────────────────────────

#[test]
fn oldest_ties_go_to_last_slot() {
    let mut mgr = VoiceManager::new(3, VoiceStealMode::Oldest);
    mgr.note_on(60, 100, 0);
    mgr.note_on(61, 100, 0);
    mgr.note_on(62, 100, 0);
    // all ages equal (0): the last of the oldest is stolen
    assert_eq!(mgr.note_on(63, 100, 0), Some(2));
}

#[test]
fn lowest_and_quietest_ties_go_to_first_slot() {
    let mut mgr = VoiceManager::new(3, VoiceStealMode::Lowest);
    mgr.note_on(50, 100, 0);
    mgr.note_on(40, 100, 0);
    mgr.note_on(40, 100, 0);
    assert_eq!(mgr.note_on(70, 100, 0), Some(1));

    let mut mgr = VoiceManager::new(3, VoiceStealMode::Quietest);
    for n in 0..3u8 {
        mgr.note_on(60 + n, 100, 0);
    }
    // all levels 0.0: the first slot is stolen
    assert_eq!(mgr.note_on(70, 100, 0), Some(0));
    mgr.voice_mut(0).unwrap().set_envelope_level_bits(0.5f32.to_bits());
    mgr.voice_mut(1).unwrap().set_envelope_level_bits((-0.0f32).to_bits());
    mgr.voice_mut(2).unwrap().set_envelope_level_bits(0.0f32.to_bits());
    // -0.0 == 0.0: the first of them is stolen
    assert_eq!(mgr.note_on(71, 100, 0), Some(1));
}

#[test]
fn activation_resets_voice() {
    let mut mgr = VoiceManager::new(1, VoiceStealMode::Oldest);
    mgr.note_on(60, 100, 3);
    {
        let v = mgr.voice_mut(0).unwrap();
        v.set_envelope_level_bits(0.7f32.to_bits());
        v.apply_per_note_cc(74, 2.0f32.to_bits());
    }
    assert_eq!(f32::from_bits(mgr.voice(0).unwrap().brightness_bits()), 1.0);
    mgr.tick_age();
    assert_eq!(mgr.note_on(61, 90, 4), Some(0));
    let v = mgr.voice(0).unwrap();
    assert_eq!((v.note(), v.velocity(), v.channel()), (61, 90, 4));
    assert_eq!(v.age(), 0);
    assert_eq!(v.envelope_level_bits(), 0);
    assert_eq!(v.brightness_bits(), 0);
    assert_eq!(v.pitch_bend_bits(), 0);
    assert_eq!(v.pressure_bits(), 0);
    assert_eq!(v.state(), VoiceState::Active);
}

#[test]
fn note_off_releases_first_matching_active_voice_only() {
    let mut mgr = VoiceManager::new(3, VoiceStealMode::Oldest);
    mgr.note_on(60, 100, 0);
    mgr.note_on(60, 100, 1);
    mgr.note_on(60, 100, 0);
    mgr.note_off(60, 0);
    assert_eq!(mgr.voice(0).unwrap().state(), VoiceState::Releasing);
    assert_eq!(mgr.voice(1).unwrap().state(), VoiceState::Active);
    assert_eq!(mgr.voice(2).unwrap().state(), VoiceState::Active);
    mgr.note_off(60, 0);
    assert_eq!(mgr.voice(2).unwrap().state(), VoiceState::Releasing);
    // releasing voices still count and still age
    assert_eq!(mgr.active_count(), 3);
    mgr.tick_age();
    assert_eq!(mgr.voice(0).unwrap().age(), 1);
    // no match: nothing changes
    mgr.note_off(61, 0);
    assert_eq!(mgr.voice(1).unwrap().state(), VoiceState::Active);
}

#[test]
fn out_of_range_indices_change_nothing() {
    let mut mgr = VoiceManager::new(2, VoiceStealMode::Oldest);
    mgr.note_on(60, 100, 0);
    mgr.free_voice(5);
    assert_eq!(mgr.active_count(), 1);
    assert!(mgr.voice(2).is_none());
    assert!(mgr.voice_mut(2).is_none());
    assert_eq!(mgr.capacity(), 2);
    assert_eq!(mgr.steal_mode(), VoiceStealMode::Oldest);
}

#[test]
fn empty_pool_refuses_notes() {
    let mut mgr = VoiceManager::new(0, VoiceStealMode::Oldest);
    assert_eq!(mgr.note_on(60, 100, 0), None);
    assert_eq!(mgr.active_count(), 0);
}

#[test]
fn stealing_keeps_active_count() {
    let mut mgr = VoiceManager::new(2, VoiceStealMode::Lowest);
    mgr.note_on(60, 100, 0);
    mgr.note_on(61, 100, 0);
    assert_eq!(mgr.active_count(), 2);
    mgr.note_on(62, 100, 0);
    assert_eq!(mgr.active_count(), 2);
}

#[test]
fn default_voice_is_idle() {
    let v = Voice::default();
    assert!(v.is_idle());
    assert_eq!(v.clone().note(), 0);
}
