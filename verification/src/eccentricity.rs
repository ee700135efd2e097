//! Conic regime of an orbit and its classification rule.
//!
//! The comparisons of an eccentricity `e` against `1` and against the
//! parabolic tolerance band `|e − 1| ≤ ε` are floating-point work done by the
//! caller; [`classify_conic`] is the rule that turns their outcome into a
//! [`ConicRegime`]. Both `Eccentricity::classify` and the element-level
//! `conic_kind` go through it.

use vstd::prelude::*;

verus! {

/// Conic regime classified by eccentricity.
#[derive(Debug, Clone, Copy, PartialEq, Eq, Structural)]
pub enum ConicRegime {
    /// Bounded ellipse, `0 ≤ e < 1 − ε`.
    Elliptic,
    /// Parabola, `|e − 1| ≤ ε`.
    Parabolic,
    /// Unbounded hyperbola, `e > 1 + ε`.
    Hyperbolic,
}

/// The regime of an eccentricity `e`, given whether `|e − 1| ≤ ε`
/// (`within_parabolic_band`) and whether `e < 1` (`below_one`).
///
/// The parabolic band takes precedence; outside it, `e < 1` is elliptic and
/// everything else hyperbolic.
pub open spec fn conic_regime(within_parabolic_band: bool, below_one: bool) -> ConicRegime {
    if within_parabolic_band {
        ConicRegime::Parabolic
    } else if below_one {
        ConicRegime::Elliptic
    } else {
        ConicRegime::Hyperbolic
    }
}

/// Classifies an eccentricity from the outcome of its two comparisons.
pub fn classify_conic(within_parabolic_band: bool, below_one: bool) -> (regime: ConicRegime)
    ensures
        regime == conic_regime(within_parabolic_band, below_one),
        (regime == ConicRegime::Parabolic) <==> within_parabolic_band,
        (regime == ConicRegime::Elliptic) <==> (!within_parabolic_band && below_one),
        (regime == ConicRegime::Hyperbolic) <==> (!within_parabolic_band && !below_one),
{
    if within_parabolic_band {
        ConicRegime::Parabolic
    } else if below_one {
        ConicRegime::Elliptic
    } else {
        ConicRegime::Hyperbolic
    }
}

} // verus!
