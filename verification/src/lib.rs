//! How likely is the boss's homing goop to strike a stationary target?
//!
//! The crate reproduces one console boss encounter bit for bit: the
//! fixed-point trigonometry behind the vertical oscillation, the exact
//! interleaving of pseudo-random draws with motion and timer updates, and
//! the side-dependent ballistic model of the fired goop. On top of the
//! frame loop it sweeps every supplied generator seed and every starting
//! timer phase to turn per-trial outcomes into hit probabilities. The
//! generator itself comes from the smrng crate, through contracts stated
//! from its source.

pub mod rng;
pub mod sim;
pub mod sweep;
pub mod trig;
