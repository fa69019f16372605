//! An offline Monte Carlo path tracer built on fixed-point arithmetic.
//!
//! Scalars throughout the crate are signed 16.16 fixed-point numbers held in
//! `i64`: the integer `v` stands for the real number `v / 65536`. All
//! arithmetic saturates at a large bound instead of overflowing, so every
//! operation is total and its exact result is stated in its contract.

pub mod aabb;
pub mod bsdf;
pub mod hittable;
pub mod fx;
pub mod integrator;
pub mod interval;
pub mod ray;
pub mod rng;
pub mod texture;
pub mod vec3;

pub use fx::FX_ONE;
