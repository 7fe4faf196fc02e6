use dhvani::capture::{
    capture_chunk, device_from_properties, DeviceType, PlaybackQueue, DEFAULT_DEVICE_CHANNELS,
    DEFAULT_DEVICE_RATE,
};
use dhvani::text::{parse_u32, str_contains};

fn le(samples: &[f32]) -> Vec<u8> {
    samples.iter().flat_map(|s| s.to_le_bytes()).collect()
}

fn bits(samples: &[f32]) -> Vec<u32> {
    samples.iter().map(|s| s.to_bits()).collect()
}

#[test]
fn parse_u32_agrees_with_std() {
    let cases = [
        "0", "7", "007", "+7", "+", "", "-1", "-0", "12a", "a12", " 1", "1 ", "4294967295",
        "4294967296", "99999999999999999999", "00000000000000000000042", "48000", "+0",
        "++1", "٣",
    ];
    for c in cases {
        assert_eq!(parse_u32(c), c.parse::<u32>().ok(), "input {c:?}");
    }
}

#[test]
fn str_contains_agrees_with_std() {
    let cases = [
        ("Audio/Source", "Source"),
        ("Audio/Source", "Audio"),
        ("Audio/Sink", "Source"),
        ("", ""),
        ("abc", ""),
        ("", "a"),
        ("Stream/Output/Audio", "Output"),
        ("aaab", "aab"),
        ("ab", "abc"),
        ("Ünïcödé Sink", "Sink"),
    ];
    for (h, n) in cases {
        assert_eq!(str_contains(h, n), h.contains(n), "{h:?} contains {n:?}");
    }
}

#[test]
fn audio_source_node_becomes_source_device() {
    let d = device_from_properties(
        42,
        Some("Audio/Source"),
        Some("Built-in Microphone"),
        Some("alsa_input.pci"),
        Some("1"),
        Some("44100"),
    )
    .unwrap();
    assert_eq!(d.id, 42);
    assert_eq!(d.name, "Built-in Microphone");
    assert_eq!(d.device_type, DeviceType::Source);
    assert_eq!(d.channels, 1);
    assert_eq!(d.sample_rate, 44100);
}

#[test]
fn audio_sink_node_becomes_sink_device() {
    let d = device_from_properties(7, Some("Audio/Sink"), None, Some("alsa_output"), None, None)
        .unwrap();
    assert_eq!(d.device_type, DeviceType::Sink);
    assert_eq!(d.name, "alsa_output");
    assert_eq!(d.channels, DEFAULT_DEVICE_CHANNELS);
    assert_eq!(d.sample_rate, DEFAULT_DEVICE_RATE);
    assert_eq!(d.channels, 2);
    assert_eq!(d.sample_rate, 48000);
}

#[test]
fn input_and_output_classes_count_as_directions() {
    let i = device_from_properties(1, Some("Stream/Input/Audio"), None, None, None, None).unwrap();
    assert_eq!(i.device_type, DeviceType::Source);
    assert_eq!(i.name, "Unknown");
    let o = device_from_properties(2, Some("Stream/Output/Audio"), None, None, None, None).unwrap();
    assert_eq!(o.device_type, DeviceType::Sink);
}

#[test]
fn source_wins_over_sink_in_the_class() {
    let d = device_from_properties(3, Some("Audio/Sink/Source"), None, None, None, None).unwrap();
    assert_eq!(d.device_type, DeviceType::Source);
}

#[test]
fn non_audio_or_undirected_nodes_are_skipped() {
    assert!(device_from_properties(1, Some("Video/Source"), None, None, None, None).is_none());
    assert!(device_from_properties(1, Some("Audio/Duplex"), None, None, None, None).is_none());
    assert!(device_from_properties(1, Some("Midi/Bridge"), None, None, None, None).is_none());
    assert!(device_from_properties(1, None, Some("x"), None, None, None).is_none());
}

#[test]
fn unreadable_numbers_fall_back_to_defaults() {
    let d = device_from_properties(
        9,
        Some("Audio/Sink"),
        Some("Speakers"),
        None,
        Some("two"),
        Some("-44100"),
    )
    .unwrap();
    assert_eq!(d.channels, 2);
    assert_eq!(d.sample_rate, 48000);
    let e = device_from_properties(9, Some("Audio/Sink"), None, None, Some("+6"), Some("96000"))
        .unwrap();
    assert_eq!(e.channels, 6);
    assert_eq!(e.sample_rate, 96000);
}

#[test]
fn captured_chunk_decodes_whole_samples() {
    let raw = le(&[0.5, -0.25, 1.0, 0.0]);
    let w = capture_chunk(&raw, 16, 2, 48000).unwrap();
    assert_eq!(w, bits(&[0.5, -0.25, 1.0, 0.0]));
    let f: Vec<f32> = w.iter().map(|b| f32::from_bits(*b)).collect();
    assert_eq!(f, vec![0.5, -0.25, 1.0, 0.0]);
}

#[test]
fn captured_chunk_keeps_only_announced_and_mapped_samples() {
    let raw = le(&[0.5, -0.25, 1.0, 0.0]);
    // Announced 8 bytes of 16 mapped: two samples.
    assert_eq!(capture_chunk(&raw, 8, 2, 48000).unwrap(), bits(&[0.5, -0.25]));
    // Announced more than mapped, with a torn trailing sample: four samples.
    let mut torn = raw.clone();
    torn.push(0xAB);
    assert_eq!(capture_chunk(&torn, 64, 1, 48000).unwrap(), bits(&[0.5, -0.25, 1.0, 0.0]));
    // A partial sample in the announcement is ignored.
    assert_eq!(capture_chunk(&raw, 11, 1, 48000).unwrap(), bits(&[0.5, -0.25]));
}

#[test]
fn captured_chunk_is_dropped_without_a_whole_valid_frame() {
    let raw = le(&[0.5, -0.25, 1.0]);
    assert!(capture_chunk(&raw, 0, 2, 48000).is_none());
    assert!(capture_chunk(&raw, 4, 2, 48000).is_none());
    // Three samples are not whole stereo frames.
    assert!(capture_chunk(&raw, 12, 2, 48000).is_none());
    // Unsupported sample rates.
    assert!(capture_chunk(&raw, 12, 1, 0).is_none());
    assert!(capture_chunk(&raw, 12, 1, 768001).is_none());
    // No negotiated channel count frames as mono.
    assert_eq!(capture_chunk(&raw, 12, 0, 48000).unwrap(), bits(&[0.5, -0.25, 1.0]));
}

#[test]
fn playback_queue_plays_queued_samples_then_silence() {
    let mut q = PlaybackQueue::new(2);
    assert!(q.needs_refill());
    assert!(q.offer(bits(&[0.1, 0.2, 0.3])));
    assert!(!q.needs_refill());
    let c = q.render(19);
    assert_eq!(c.stride, 8);
    assert_eq!(c.frames, 2);
    assert_eq!(c.bytes, le(&[0.1, 0.2, 0.3, 0.0]));
    assert!(q.needs_refill());
    let silent = q.render(8);
    assert_eq!(silent.bytes, le(&[0.0, 0.0]));
}

#[test]
fn playback_queue_continues_where_it_stopped() {
    let mut q = PlaybackQueue::new(1);
    assert!(q.offer(bits(&[1.0, 2.0, 3.0, 4.0, 5.0])));
    let a = q.render(8);
    assert_eq!(a.bytes, le(&[1.0, 2.0]));
    let b = q.render(12);
    assert_eq!(b.bytes, le(&[3.0, 4.0, 5.0]));
    assert!(q.needs_refill());
    let small = q.render(3);
    assert_eq!(small.frames, 0);
    assert!(small.bytes.is_empty());
}

#[test]
fn rendered_bytes_capture_back_to_the_same_samples() {
    let samples = [0.75f32, -1.0, 0.125, f32::MIN_POSITIVE, -0.0, 3.5];
    let mut q = PlaybackQueue::new(2);
    assert!(q.offer(bits(&samples)));
    let c = q.render(24);
    let back = capture_chunk(&c.bytes, c.bytes.len(), 2, 48000).unwrap();
    assert_eq!(back, bits(&samples));
}

#[test]
fn offered_buffer_waits_until_the_queue_is_played_out() {
    let mut q = PlaybackQueue::new(1);
    assert!(q.offer(bits(&[1.0, 2.0, 3.0])));
    // Not taken while samples remain: nothing is dropped.
    assert!(!q.offer(bits(&[9.0])));
    let a = q.render(8);
    assert_eq!(a.bytes, le(&[1.0, 2.0]));
    assert!(!q.offer(bits(&[9.0])));
    let b = q.render(8);
    assert_eq!(b.bytes, le(&[3.0, 0.0]));
    assert!(q.offer(bits(&[4.0, 5.0])));
    let c = q.render(12);
    assert_eq!(c.bytes, le(&[4.0, 5.0, 0.0]));
}

#[test]
fn buffers_play_back_to_back_across_callbacks() {
    let buffers = [vec![1.0f32, 2.0, 3.0], vec![4.0], vec![5.0, 6.0]];
    let mut q = PlaybackQueue::new(2);
    let mut next = 0;
    let mut played: Vec<u8> = Vec::new();
    for _ in 0..6 {
        if q.needs_refill() && next < buffers.len() {
            assert!(q.offer(bits(&buffers[next])));
            next += 1;
        }
        played.extend(q.render(8).bytes);
    }
    let expected = le(&[1.0, 2.0, 3.0, 0.0, 4.0, 0.0, 5.0, 6.0, 0.0, 0.0, 0.0, 0.0]);
    assert_eq!(played, expected);
}

#[test]
fn device_clone_keeps_every_field() {
    let d = device_from_properties(5, Some("Audio/Sink"), Some("Desk"), None, Some("6"), Some("96000"))
        .unwrap();
    let c = d.clone();
    assert_eq!(c.id, 5);
    assert_eq!(c.name, "Desk");
    assert_eq!(c.device_type, DeviceType::Sink);
    assert_eq!(c.channels, 6);
    assert_eq!(c.sample_rate, 96000);
}
