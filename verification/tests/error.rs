use dhvani::text::push_decimal;
use dhvani::NadaError;

#[test]
fn error_display() {
    let errors = [
        NadaError::FormatMismatch {
            expected: "44100Hz".into(),
            actual: "48000Hz".into(),
        },
        NadaError::LengthMismatch {
            expected: 1024,
            actual: 512,
        },
        NadaError::InvalidSampleRate(0),
        NadaError::InvalidChannels(0),
        NadaError::Dsp("test".into()),
        NadaError::Capture("test".into()),
        NadaError::InvalidParameter {
            name: "ratio".into(),
            value: "-1".into(),
            reason: "must be positive".into(),
        },
        NadaError::Conversion("test".into()),
    ];
    for e in &errors {
        let msg = e.to_string();
        assert!(!msg.is_empty());
    }
}

#[test]
fn error_from_boxed() {
    let err: Box<dyn std::error::Error + Send + Sync> = "test error".into();
    let nada: NadaError = NadaError::Other(err.to_string());
    assert!(nada.to_string().contains("test error"));
}

#[test]
fn error_messages_exact() {
    let cases = [
        (
            NadaError::FormatMismatch { expected: "44100Hz".into(), actual: "48000Hz".into() },
            "buffer format mismatch: expected 44100Hz, got 48000Hz",
        ),
        (
            NadaError::LengthMismatch { expected: 1024, actual: 512 },
            "buffer length mismatch: expected 1024 samples, got 512",
        ),
        (NadaError::InvalidSampleRate(0), "invalid sample rate: 0 Hz"),
        (NadaError::InvalidSampleRate(4294967295), "invalid sample rate: 4294967295 Hz"),
        (NadaError::InvalidChannels(10), "invalid channel count: 10"),
        (NadaError::Dsp("test".into()), "DSP error: test"),
        (NadaError::Capture("x".into()), "capture error: x"),
        (
            NadaError::InvalidParameter {
                name: "ratio".into(),
                value: "-1".into(),
                reason: "must be positive".into(),
            },
            "invalid parameter: ratio = -1 (must be positive)",
        ),
        (NadaError::Conversion("c".into()), "conversion error: c"),
        (NadaError::Other("boom".into()), "boom"),
    ];
    for (e, want) in cases {
        assert_eq!(e.to_string(), want);
    }
}

#[test]
fn decimal_text_matches_std_formatting() {
    for n in [0u64, 1, 9, 10, 99, 100, 12345, 4294967296, u64::MAX] {
        let mut s = String::from("n=");
        push_decimal(&mut s, n);
        assert_eq!(s, format!("n={n}"));
    }
}
