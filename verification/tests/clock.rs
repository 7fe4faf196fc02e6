use dhvani::clock::AudioClock;

#[test]
fn clock_no_advance_when_stopped() {
    let mut clock = AudioClock::new(44100);
    clock.advance(44100);
    assert_eq!(clock.position_samples(), 0);
}

#[test]
fn clock_reset() {
    let mut clock = AudioClock::new(44100);
    clock.start();
    clock.advance(44100);
    clock.reset();
    assert_eq!(clock.position_samples(), 0);
}

#[test]
fn clock_getters() {
    let clock = AudioClock::with_tempo(48000, 120.0f64.to_bits());
    assert_eq!(clock.sample_rate(), 48000);
    assert_eq!(clock.position_samples(), 0);
    assert!((f64::from_bits(clock.tempo_bpm_bits()) - 120.0).abs() < f64::EPSILON);
    assert!(!clock.is_running());
}

#[test]
fn clock_set_tempo() {
    let mut clock = AudioClock::with_tempo(44100, 120.0f64.to_bits());
    clock.set_tempo(140.0f64.to_bits());
    assert!((f64::from_bits(clock.tempo_bpm_bits()) - 140.0).abs() < f64::EPSILON);
}

#[test]
fn clock_rejects_bad_tempo() {
    let mut clock = AudioClock::new(44100);
    for bad in [0.0f64, -0.0, -1.0, f64::INFINITY, f64::NEG_INFINITY, f64::NAN] {
        clock.set_tempo(120.0f64.to_bits());
        clock.set_tempo(bad.to_bits());
        assert_eq!(clock.tempo_bpm_bits(), 0, "tempo {bad}");
    }
    for good in [f64::MIN_POSITIVE, 1e-310, 0.5, 300.0, f64::MAX] {
        clock.set_tempo(good.to_bits());
        assert_eq!(f64::from_bits(clock.tempo_bpm_bits()), good);
    }
}

#[test]
fn clock_advance_composes() {
    let mut a = AudioClock::new(48000);
    a.start();
    a.advance(100);
    a.advance(250);
    let mut b = AudioClock::new(48000);
    b.start();
    b.advance(350);
    assert_eq!(a.position_samples(), b.position_samples());
    a.stop();
    a.advance(1000);
    assert_eq!(a.position_samples(), 350);
    a.seek_samples(120000);
    assert_eq!(a.position_samples(), 120000);
}

#[test]
fn clock_basic() {
    let mut clock = AudioClock::new(44100);
    assert_eq!(clock.position_samples(), 0);
    assert!(!clock.is_running());
    clock.start();
    clock.advance(44100);
    let position_secs = clock.position_samples() as f64 / clock.sample_rate() as f64;
    assert!((position_secs - 1.0).abs() < 0.001);
}

#[test]
fn clock_clone_is_the_same_clock() {
    let mut clock = AudioClock::with_tempo(48000, 120.0f64.to_bits());
    clock.start();
    clock.advance(512);
    let copy = clock.clone();
    assert_eq!(copy.position_samples(), 512);
    assert_eq!(copy.sample_rate(), 48000);
    assert_eq!(copy.tempo_bpm_bits(), 120.0f64.to_bits());
    assert!(copy.is_running());
}
