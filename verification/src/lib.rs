//! Procedural noise-volume synthesis: a deterministic, seed-driven generator
//! that bakes a cubic 3D density field from random feature points using
//! periodically tiled cellular (Worley) distance noise, together with the
//! dirty-flag rebuild coordination that keeps the baked volume consistent
//! with the live generation parameters.
//!
//! All quantities are held in fixed-point integer form: unit-cube coordinates
//! in 1/65536ths, frequencies in 1/256ths, densities in 1/16777216ths.

pub mod math;
pub mod points;
pub mod field;
pub mod volume;
pub mod settings;
