//! Samplers.

pub mod params;
