use keplerian::eccentricity::{classify_conic, ConicRegime};

fn classify(e: f64, eps: f64) -> ConicRegime {
    classify_conic((e - 1.0).abs() <= eps, e < 1.0)
}

#[test]
fn classify_uses_tolerance_band() {
    assert_eq!(classify(0.5, 1e-10), ConicRegime::Elliptic);
    assert_eq!(classify(1.0, 1e-10), ConicRegime::Parabolic);
    assert_eq!(classify(1.0 + 5e-11, 1e-10), ConicRegime::Parabolic);
    assert_eq!(classify(1.5, 1e-10), ConicRegime::Hyperbolic);
}

#[test]
fn parabolic_band_takes_precedence() {
    assert_eq!(classify_conic(true, true), ConicRegime::Parabolic);
    assert_eq!(classify_conic(true, false), ConicRegime::Parabolic);
    assert_eq!(classify_conic(false, true), ConicRegime::Elliptic);
    assert_eq!(classify_conic(false, false), ConicRegime::Hyperbolic);
}

#[test]
fn just_outside_band_is_not_parabolic() {
    assert_eq!(classify(1.0 - 2e-10, 1e-10), ConicRegime::Elliptic);
    assert_eq!(classify(1.0 + 2e-10, 1e-10), ConicRegime::Hyperbolic);
}
