use raytracer::scalar::Scalar;

fn s(x: f32) -> Scalar {
    Scalar::from_bits(x.to_bits())
}

fn samples() -> Vec<f32> {
    vec![
        f32::NEG_INFINITY,
        f32::MIN,
        -100.0,
        -10.0,
        -1.54,
        -1.0,
        -0.4,
        -f32::MIN_POSITIVE,
        -1.0e-45,
        -0.0,
        0.0,
        1.0e-45,
        f32::MIN_POSITIVE,
        0.00015,
        0.4,
        1.0,
        1.54,
        2.5,
        9.9,
        10.0,
        f32::MAX,
        f32::INFINITY,
        f32::NAN,
        -f32::NAN,
    ]
}

#[test]
fn order_agrees_with_the_order_of_floats() {
    for a in samples() {
        for b in samples() {
            assert_eq!(s(a).le(s(b)), a <= b, "{a} <= {b}");
            assert_eq!(s(a).lt(s(b)), a < b, "{a} < {b}");
        }
    }
}

#[test]
fn nan_and_finite_agree_with_floats() {
    for a in samples() {
        assert_eq!(s(a).is_nan(), a.is_nan(), "{a}");
        assert_eq!(s(a).is_finite(), a.is_finite(), "{a}");
    }
}

#[test]
fn keys_of_known_values() {
    assert_eq!(s(0.0).ordering_key(), 0);
    assert_eq!(s(-0.0).ordering_key(), 0);
    assert_eq!(s(1.0).ordering_key(), 0x3F80_0000);
    assert_eq!(s(-1.0).ordering_key(), -0x3F80_0000);
    assert_eq!(s(f32::INFINITY).ordering_key(), 0x7F80_0000);
    assert_eq!(s(-2.0).abs_bits(), 2.0f32.to_bits());
}

#[test]
fn clamp_agrees_with_floats() {
    let bounds = [(-1.54f32, 1.54f32), (0.0, 1.0), (-0.0, 0.0), (2.0, 2.0), (-10.0, -1.0)];
    for (lo, hi) in bounds {
        for a in samples() {
            let got = s(a).clamp(s(lo), s(hi));
            let want = a.clamp(lo, hi);
            assert_eq!(got.to_bits(), want.to_bits(), "{a} in {lo}..{hi}");
        }
    }
}

#[test]
fn clamp_gives_exact_values() {
    assert_eq!(s(5.0).clamp(s(0.0), s(1.0)), s(1.0));
    assert_eq!(s(-5.0).clamp(s(0.0), s(1.0)), s(0.0));
    assert_eq!(s(0.25).clamp(s(0.0), s(1.0)), s(0.25));
}

#[test]
fn neg_flips_the_sign() {
    for a in samples() {
        assert_eq!(s(a).neg().to_bits(), (-a).to_bits(), "{a}");
        assert_eq!(s(a).neg().neg(), s(a));
    }
    assert_eq!(s(1.5).neg(), s(-1.5));
}

#[test]
fn bits_pass_through() {
    assert_eq!(Scalar::from_bits(0x3F80_0000).to_bits(), 0x3F80_0000);
    assert_eq!(Scalar::from_bits(0x3F80_0000), s(1.0));
    assert_eq!(raytracer::scalar::ONE_BITS, 1.0f32.to_bits());
    assert_eq!(raytracer::scalar::ZERO_BITS, 0.0f32.to_bits());
    assert_eq!(raytracer::scalar::INFINITY_BITS, f32::INFINITY.to_bits());
    assert_eq!(raytracer::scalar::SIGN_BIT, (-0.0f32).to_bits());
}
