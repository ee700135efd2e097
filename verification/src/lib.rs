//! Verified control logic of two-body Keplerian dynamics.

pub mod eccentricity;
pub mod iteration;
pub mod search;
pub mod validation;
