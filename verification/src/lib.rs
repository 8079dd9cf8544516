//! A verified point-mass particle simulator.
//!
//! One particle moves under a caller-supplied force, integrated with
//! semi-implicit Euler steps over fixed-point coordinates (micro-units).
//! The particle optionally ages toward a lifespan and records a bounded
//! trail of its most recent positions.

pub mod fixed;
pub mod laws;
pub mod particle;
