use dhvani::dsp::reverb::scale_delay;
use dhvani::dsp::svf::SvfMode;

fn scale_by_float(base: usize, sample_rate: u32) -> usize {
    ((base as f64 * sample_rate as f64 / 44100.0).round() as usize).max(1)
}

#[test]
fn scale_delay_matches_float_formula() {
    let rates = [1u32, 8000, 22050, 44100, 48000, 88200, 96000, 192000, 768000];
    for &rate in &rates {
        for base in (0usize..5000).chain([1116, 1188, 1277, 1356, 1422, 1491, 1557, 1617, 556, 441, 341, 225]) {
            assert_eq!(scale_delay(base, rate), scale_by_float(base, rate), "base {base} at {rate}");
        }
    }
}

#[test]
fn scale_delay_exact_values() {
    assert_eq!(scale_delay(1116, 44100), 1116);
    assert_eq!(scale_delay(1116, 48000), 1215);
    assert_eq!(scale_delay(0, 48000), 1);
    assert_eq!(scale_delay(1, 22050), 1); // 0.5 rounds up
    assert_eq!(scale_delay(3, 22050), 2); // 1.5 rounds up
    assert_eq!(scale_delay(usize::MAX, u32::MAX), usize::MAX);
}

#[test]
fn svf_modes_distinct() {
    assert_ne!(SvfMode::LowPass, SvfMode::HighPass);
    assert_eq!(SvfMode::Peak, SvfMode::Peak);
}
