//! Procedurally sampled terrain: a fixed lattice of tiles whose elevations are
//! read from a coherent-noise field, and the policies that classify them.
//!
//! All quantities are fixed-point integers so that every step of the sampling
//! is exact: lengths are counted in thousandths of a world unit, the sampling
//! scale in millionths, noise-space coordinates in billionths, and elevations
//! (and the sea level) in millionths.
pub mod grid;
pub mod laws;
pub mod params;
pub mod policy;
pub mod terrain;
