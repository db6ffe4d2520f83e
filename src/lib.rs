//! Decision logic and exact sampling for a Monte Carlo sphere path tracer.
//!
//! The arithmetic on colours and directions is carried by the caller's own
//! numeric types; this crate decides which root, which object, which bounce and
//! which pixel, and draws exact lattice points inside the unit ball and disc.
pub mod sampling;
pub mod vec;
pub mod hitable;
pub mod material;
pub mod integrator;
pub mod raster;
