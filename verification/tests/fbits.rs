use dhvani::fbits::{f32_bits_clamp_unit, f32_bits_lt};

fn samples() -> Vec<f32> {
    vec![
        0.0, -0.0, 1.0, -1.0, 0.5, -0.5, 0.2, 0.8, 2.0, -2.0, 1e-40, -1e-40, f32::MIN_POSITIVE,
        f32::MAX, f32::MIN, f32::INFINITY, f32::NEG_INFINITY, f32::NAN, -f32::NAN, 1.0000001,
        0.99999994,
    ]
}

#[test]
fn bit_order_matches_float_order() {
    for &a in &samples() {
        for &b in &samples() {
            assert_eq!(f32_bits_lt(a.to_bits(), b.to_bits()), a < b, "{a} < {b}");
        }
    }
}

#[test]
fn bit_clamp_matches_float_clamp() {
    for &x in &samples() {
        let got = f32::from_bits(f32_bits_clamp_unit(x.to_bits()));
        let want = x.clamp(0.0, 1.0);
        assert!(
            got.to_bits() == want.to_bits() || (got.is_nan() && want.is_nan()),
            "clamp {x}: {got} vs {want}"
        );
    }
}
