use jxl_bridge::quantize::quantize_sample_bits;

fn q(sample: f32) -> u8 {
    quantize_sample_bits(sample.to_bits())
}

#[test]
fn quantize_anchor_values() {
    assert_eq!(q(0.0), 0);
    assert_eq!(q(1.0), 255);
    // 0.5 * 255 + 0.5 == 128.25, truncated to 128
    assert_eq!(q(0.5), 128);
    assert_eq!(q(0.25), 64);
    assert_eq!(q(0.75), 191);
}

#[test]
fn quantize_saturates_negative_to_zero() {
    assert_eq!(q(-0.0), 0);
    assert_eq!(q(-1.0e-6), 0);
    assert_eq!(q(-1.0), 0);
    assert_eq!(q(-1.0e30), 0);
    assert_eq!(q(f32::NEG_INFINITY), 0);
}

#[test]
fn quantize_saturates_above_one_to_255() {
    assert_eq!(q(1.0000001), 255);
    assert_eq!(q(1.5), 255);
    assert_eq!(q(2.0), 255);
    assert_eq!(q(1.0e30), 255);
    assert_eq!(q(f32::INFINITY), 255);
}

#[test]
fn quantize_nan_is_zero() {
    assert_eq!(q(f32::NAN), 0);
    assert_eq!(q(-f32::NAN), 0);
}

#[test]
fn quantize_tiny_positive_is_zero() {
    assert_eq!(q(f32::from_bits(1)), 0);
    assert_eq!(q(f32::MIN_POSITIVE), 0);
    assert_eq!(q(0.0009), 0);
}

#[test]
fn quantize_small_rounds_up() {
    // 0.002 * 255 + 0.5 is just above 1
    assert_eq!(q(0.002), 1);
}

#[test]
fn quantize_matches_formula_on_exact_fractions() {
    // For k/256, every step of sample * 255 + 1/2 is exact, so the bytes can
    // be predicted with integer arithmetic alone.
    for k in 0u32..=256 {
        let sample = k as f32 / 256.0;
        let expected = ((k * 255 + 128) / 256).min(255) as u8;
        assert_eq!(q(sample), expected, "sample {k}/256");
    }
}
