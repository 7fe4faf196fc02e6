use dhvani::buffer::ops::{crossfade_shape, CrossfadeType, FadeCurve};
use dhvani::buffer::resample::{plan_resample_linear, plan_resample_sinc, ResamplePlan, ResampleQuality};
use dhvani::buffer::{frames_in, mix_shape, validate_interleaved, BufferShape, Layout, SampleFormat};
use dhvani::NadaError;

#[test]
fn sample_format_bytes() {
    assert_eq!(SampleFormat::F32.bytes_per_sample(), 4);
    assert_eq!(SampleFormat::I16.bytes_per_sample(), 2);
    assert_eq!(SampleFormat::I32.bytes_per_sample(), 4);
}

#[test]
fn sample_format_display() {
    assert_eq!(SampleFormat::F32.to_string(), "f32");
    assert_eq!(SampleFormat::I16.to_string(), "i16");
}

#[test]
fn sample_format_all_sizes_and_names() {
    let all = [
        (SampleFormat::F32, 4, "f32"),
        (SampleFormat::I16, 2, "i16"),
        (SampleFormat::I32, 4, "i32"),
        (SampleFormat::I24, 3, "i24"),
        (SampleFormat::F64, 8, "f64"),
        (SampleFormat::U8, 1, "u8"),
    ];
    for (f, bytes, name) in all {
        assert_eq!(f.bytes_per_sample(), bytes);
        assert_eq!(f.to_string(), name);
    }
    assert_ne!(Layout::Interleaved, Layout::Planar);
    assert_ne!(CrossfadeType::Linear, CrossfadeType::EqualPower);
    assert_ne!(FadeCurve::Linear, FadeCurve::Exponential);
}

#[test]
fn interleaved_shape_accepts_whole_frames() {
    assert_eq!(validate_interleaved(4, 2, 44100).unwrap(), 2);
    assert_eq!(validate_interleaved(0, 2, 44100).unwrap(), 0);
    assert_eq!(validate_interleaved(9, 3, 768000).unwrap(), 3);
}

#[test]
fn interleaved_shape_rejections() {
    assert!(matches!(validate_interleaved(1, 0, 44100), Err(NadaError::InvalidChannels(0))));
    assert!(matches!(validate_interleaved(2, 1, 0), Err(NadaError::InvalidSampleRate(0))));
    assert!(matches!(validate_interleaved(2, 1, 768001), Err(NadaError::InvalidSampleRate(768001))));
    assert!(matches!(
        validate_interleaved(7, 2, 48000),
        Err(NadaError::LengthMismatch { expected: 6, actual: 7 })
    ));
    // channels are checked before the sample rate
    assert!(matches!(validate_interleaved(7, 0, 0), Err(NadaError::InvalidChannels(0))));
}

#[test]
fn frames_of_a_view() {
    assert_eq!(frames_in(10, 2), 5);
    assert_eq!(frames_in(11, 2), 5);
    assert_eq!(frames_in(10, 0), 0);
}

fn shape(channels: u32, sample_rate: u32, frames: usize) -> BufferShape {
    BufferShape { channels, sample_rate, frames }
}

#[test]
fn mix_shape_of_nothing_is_stereo_silence() {
    let r = mix_shape(&vec![]).unwrap();
    assert_eq!(r, shape(2, 44100, 0));
}

#[test]
fn mix_shape_takes_longest() {
    let r = mix_shape(&vec![shape(1, 44100, 2), shape(1, 44100, 5), shape(1, 44100, 3)]).unwrap();
    assert_eq!(r, shape(1, 44100, 5));
}

#[test]
fn mix_shape_channel_mismatch() {
    let r = mix_shape(&vec![shape(1, 44100, 100), shape(2, 44100, 100)]);
    match r {
        Err(NadaError::FormatMismatch { expected, actual }) => {
            assert_eq!(expected, "1 ch");
            assert_eq!(actual, "2 ch");
        }
        other => panic!("unexpected {other:?}"),
    }
}

#[test]
fn mix_shape_rate_mismatch_and_order() {
    let r = mix_shape(&vec![shape(2, 44100, 1), shape(2, 48000, 1), shape(1, 44100, 1)]);
    assert!(matches!(r, Err(NadaError::InvalidSampleRate(48000))));
    // a buffer wrong in both is reported as a channel mismatch
    let r = mix_shape(&vec![shape(2, 44100, 1), shape(6, 96000, 1)]);
    assert!(matches!(r, Err(NadaError::FormatMismatch { .. })));
}

#[test]
fn crossfade_shape_checks() {
    let a = shape(2, 44100, 100);
    assert_eq!(crossfade_shape(a, a).unwrap(), a);
    match crossfade_shape(a, shape(1, 44100, 100)) {
        Err(NadaError::FormatMismatch { expected, actual }) => {
            assert_eq!(expected, "2 ch");
            assert_eq!(actual, "1 ch");
        }
        other => panic!("unexpected {other:?}"),
    }
    assert!(matches!(
        crossfade_shape(a, shape(2, 48000, 100)),
        Err(NadaError::InvalidSampleRate(48000))
    ));
    assert!(matches!(
        crossfade_shape(a, shape(2, 44100, 50)),
        Err(NadaError::LengthMismatch { expected: 100, actual: 50 })
    ));
}

#[test]
fn resample_kernel_widths() {
    assert_eq!(ResampleQuality::Draft.kernel_half_width(), 2);
    assert_eq!(ResampleQuality::Good.kernel_half_width(), 8);
    assert_eq!(ResampleQuality::Best.kernel_half_width(), 32);
}

#[test]
fn resample_plans() {
    assert_eq!(plan_resample_linear(44100, 100, 48000).unwrap(), ResamplePlan::Interpolate);
    assert_eq!(plan_resample_linear(44100, 100, 44100).unwrap(), ResamplePlan::Unchanged);
    assert_eq!(plan_resample_linear(44100, 0, 48000).unwrap(), ResamplePlan::Silence);
    assert_eq!(plan_resample_linear(44100, 0, 44100).unwrap(), ResamplePlan::Unchanged);
    assert!(matches!(plan_resample_linear(44100, 10, 0), Err(NadaError::InvalidSampleRate(0))));
    assert!(matches!(
        plan_resample_linear(44100, 10, 768001),
        Err(NadaError::InvalidSampleRate(768001))
    ));
    assert_eq!(plan_resample_linear(44100, 10, 768000).unwrap(), ResamplePlan::Interpolate);
    assert!(matches!(plan_resample_sinc(44100, 10, 0), Err(NadaError::InvalidSampleRate(0))));
    assert_eq!(plan_resample_sinc(44100, 10, 1_000_000).unwrap(), ResamplePlan::Interpolate);
    assert_eq!(plan_resample_sinc(48000, 0, 96000).unwrap(), ResamplePlan::Silence);
    assert_eq!(plan_resample_sinc(48000, 7, 48000).unwrap(), ResamplePlan::Unchanged);
}
