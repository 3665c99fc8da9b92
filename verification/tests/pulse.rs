// The pulse shapes: Ricker wavelet values and symmetry, and the Gaussian
// pulse against the closed-form formula.
use fdtd::ricker::{exp_bits, gaussian, ricker};

fn rel_err(a: f64, b: f64) -> f64 {
    if b == 0.0 {
        a.abs()
    } else {
        ((a - b) / b).abs()
    }
}

#[test]
fn ricker_at_zero_matches_closed_form() {
    let r = f64::from_bits(ricker(
        0.0f64.to_bits(),
        0.0f64.to_bits(),
        1.0f64.to_bits(),
        20.0f64.to_bits(),
    ));
    let arg = std::f64::consts::PI * ((1.0 * 0.0 - 0.0) / 20.0 - 1.0);
    let arg2 = arg * arg;
    let expected = (1.0 - 2.0 * arg2) * (-arg2).exp();
    assert!(r > -1.0 && r < 1.0);
    assert!(r < 0.0);
    assert!(rel_err(r, expected) < 1e-9);
}

#[test]
fn ricker_peak_is_one() {
    // With cdtds = 1, location 0 and ppw = 20, the peak argument is t = 20.
    let r = f64::from_bits(ricker(
        20.0f64.to_bits(),
        0.0f64.to_bits(),
        1.0f64.to_bits(),
        20.0f64.to_bits(),
    ));
    assert_eq!(r, 1.0);
}

#[test]
fn ricker_symmetric_about_peak() {
    let loc = 0.0f64.to_bits();
    let cdtds = 1.0f64.to_bits();
    let ppw = 20.0f64.to_bits();
    // The peak sits at t = ppw/cdtds = 20; offsets with exact arguments give
    // bit-identical values on both sides.
    for off in [5.0f64, 10.0, 15.0, 20.0] {
        let lo = ricker((20.0 - off).to_bits(), loc, cdtds, ppw);
        let hi = ricker((20.0 + off).to_bits(), loc, cdtds, ppw);
        assert_eq!(lo, hi);
    }
}

#[test]
fn gaussian_matches_closed_form() {
    // At the delay the pulse peaks at exactly 1.
    let peak = gaussian(30.0f64.to_bits(), 30.0f64.to_bits(), 100.0f64.to_bits());
    assert_eq!(f64::from_bits(peak), 1.0);

    // Away from the delay it matches exp(-(t - d)^2 / w^2) closely.
    for t in [0.0f64, 10.0, 25.0, 35.0, 60.0] {
        let got = f64::from_bits(gaussian(t.to_bits(), 30.0f64.to_bits(), 100.0f64.to_bits()));
        let expected = (-(t - 30.0) * (t - 30.0) / 100.0).exp();
        assert!(rel_err(got, expected) < 1e-11, "t={}", t);
    }
}

#[test]
fn exp_bits_matches_std_exp() {
    for x in [
        -700.0f64, -88.0, -9.0, -1.0, -0.125, -1e-18, 0.0, 1e-18, 0.125, 1.0, 2.5, 9.0, 88.0,
        700.0,
    ] {
        let got = f64::from_bits(exp_bits(x.to_bits()));
        let expected = x.exp();
        assert!(rel_err(got, expected) < 1e-11, "x={}", x);
    }
    // Saturation and special values.
    assert_eq!(f64::from_bits(exp_bits(f64::INFINITY.to_bits())), f64::INFINITY);
    assert_eq!(f64::from_bits(exp_bits(f64::NEG_INFINITY.to_bits())), 0.0);
    assert_eq!(f64::from_bits(exp_bits(800.0f64.to_bits())), f64::INFINITY);
    assert_eq!(f64::from_bits(exp_bits((-800.0f64).to_bits())), 0.0);
    assert_eq!(f64::from_bits(exp_bits((-0.0f64).to_bits())), 1.0);
    assert!(f64::from_bits(exp_bits(f64::NAN.to_bits())).is_nan());
}
