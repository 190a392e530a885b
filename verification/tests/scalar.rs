use skia_safe::Rect;
use skia_safe::Scalar;

fn s(v: f32) -> Scalar {
    Scalar::from_bits(v.to_bits())
}

fn samples() -> Vec<f32> {
    vec![
        0.0,
        -0.0,
        1.0,
        -1.0,
        0.5,
        -0.5,
        2.0,
        1.0e-40,
        -1.0e-40,
        f32::MIN_POSITIVE,
        f32::MAX,
        f32::MIN,
        f32::INFINITY,
        f32::NEG_INFINITY,
        f32::NAN,
        -f32::NAN,
        f32::EPSILON,
        3.25,
        -1234.5,
    ]
}

#[test]
fn encodings_round_trip() {
    assert_eq!(Scalar::from_bits(0x3f80_0000).to_bits(), 0x3f80_0000);
    assert_eq!(Scalar::zero().to_bits(), 0.0f32.to_bits());
    assert_eq!(Scalar::one().to_bits(), 1.0f32.to_bits());
    assert_eq!(Scalar::max_value().to_bits(), f32::MAX.to_bits());
}

#[test]
fn classes_agree_with_the_numbers() {
    for v in samples() {
        assert_eq!(s(v).is_zero(), v == 0.0, "{v}");
        assert_eq!(s(v).is_one(), v == 1.0, "{v}");
        assert_eq!(s(v).is_nan(), v.is_nan(), "{v}");
        assert_eq!(s(v).is_finite(), v.is_finite(), "{v}");
        assert_eq!(s(v).is_sign_negative(), v.is_sign_negative(), "{v}");
    }
}

#[test]
fn negation_flips_the_sign_only() {
    for v in samples() {
        assert_eq!(s(v).neg().to_bits(), (-v).to_bits(), "{v}");
    }
    assert_eq!(s(1.5).neg().to_bits(), (-1.5f32).to_bits());
    assert_eq!(s(0.0).neg().to_bits(), 0x8000_0000);
}

#[test]
fn comparisons_agree_with_the_numbers() {
    for a in samples() {
        for b in samples() {
            assert_eq!(s(a) == s(b), a == b, "{a} == {b}");
            assert_eq!(s(a).lt(s(b)), a < b, "{a} < {b}");
            assert_eq!(s(a).le(s(b)), a <= b, "{a} <= {b}");
            assert_eq!(s(a).same_bits(s(b)), a.to_bits() == b.to_bits(), "{a} {b}");
        }
    }
}

#[test]
fn zeros_are_equal_but_not_the_same_bits() {
    assert!(s(0.0) == s(-0.0));
    assert!(!s(0.0).same_bits(s(-0.0)));
    assert!(!s(-0.0).lt(s(0.0)));
    assert!(s(-0.0).le(s(0.0)));
}

#[test]
fn nan_is_unordered() {
    let n = s(f32::NAN);
    assert!(n != n);
    assert!(n.same_bits(n));
    assert!(!n.lt(s(1.0)));
    assert!(!s(1.0).lt(n));
    assert!(!n.le(n));
}

#[test]
fn empty_rectangles() {
    let r = |l: f32, t: f32, r: f32, b: f32| Rect::new(s(l), s(t), s(r), s(b));
    assert!(!r(0.0, 0.0, 10.0, 10.0).is_empty());
    assert!(r(0.0, 0.0, 0.0, 10.0).is_empty());
    assert!(r(0.0, 0.0, 10.0, 0.0).is_empty());
    assert!(r(5.0, 0.0, 1.0, 10.0).is_empty());
    assert!(r(0.0, 0.0, f32::NAN, 10.0).is_empty());
    assert!(!r(-1.0, -1.0, -0.5, 0.0).is_empty());
    assert!(r(-0.0, 0.0, 0.0, 1.0).is_empty());
}
