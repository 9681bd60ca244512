use proto_ae::binary32::{
    clamped_at_zero, positive, zero, POSITIVE_INFINITY, SIGN_MASK, TWO, ZERO,
};

#[test]
fn constants_are_the_patterns_of_their_values() {
    assert_eq!(ZERO, 0.0f32.to_bits());
    assert_eq!(TWO, 2.0f32.to_bits());
    assert_eq!(POSITIVE_INFINITY, f32::INFINITY.to_bits());
    assert_eq!(SIGN_MASK, (-0.0f32).to_bits());
}

#[test]
fn positive_agrees_with_comparison_against_zero() {
    let samples = [
        0.0f32,
        -0.0,
        1.0,
        -1.0,
        f32::MIN_POSITIVE,
        -f32::MIN_POSITIVE,
        f32::from_bits(1),
        f32::from_bits(0x8000_0001),
        f32::MAX,
        f32::MIN,
        f32::INFINITY,
        f32::NEG_INFINITY,
        f32::NAN,
        f32::from_bits(0x7F80_0001),
        f32::from_bits(0xFFC0_0000),
        f32::from_bits(0x7FFF_FFFF),
    ];
    for x in samples {
        assert_eq!(positive(x.to_bits()), x > 0.0);
    }
}

#[test]
fn positive_at_the_edges_of_its_range() {
    assert!(!positive(0));
    assert!(positive(1));
    assert!(positive(0x7F80_0000));
    assert!(!positive(0x7F80_0001));
    assert!(!positive(0x8000_0000));
    assert!(!positive(0xFFFF_FFFF));
}

#[test]
fn zero_accepts_both_signs_only() {
    assert!(zero(0));
    assert!(zero(0x8000_0000));
    assert!(!zero(1));
    assert!(!zero(0x8000_0001));
    assert!(!zero(0x7F80_0000));
    assert!(!zero(0x3F80_0000));
}

#[test]
fn clamp_keeps_strictly_positive_values() {
    for x in [f32::from_bits(1), f32::MIN_POSITIVE, 0.3, 1.0, f32::MAX, f32::INFINITY] {
        assert_eq!(clamped_at_zero(x.to_bits()), x.to_bits());
    }
}

#[test]
fn clamp_sends_everything_else_to_positive_zero() {
    for x in [0.0f32, -0.0, -f32::MIN_POSITIVE, -0.3, f32::MIN, f32::NEG_INFINITY, f32::NAN] {
        assert_eq!(clamped_at_zero(x.to_bits()), 0);
    }
    assert_eq!(clamped_at_zero(0x7F80_0001), 0);
    assert_eq!(clamped_at_zero(0xFFFF_FFFF), 0);
}
