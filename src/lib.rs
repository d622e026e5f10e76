//! Riemann-sum approximation of a one-variable expression over a visible domain.
//!
//! Positions and values are measured in thousandths of a unit, the resolution at
//! which the curve is sampled. Function values reach the engine as [`riemann::Sample`]s,
//! so that an undefined value (not a number, or infinite) is data, not an error.
pub mod curve;
pub mod cycle;
pub mod expression;
pub mod riemann;
