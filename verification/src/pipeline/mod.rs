//! Pipelines: layouts, fixed-function parameters and the dynamic state they imply.

pub mod error;
pub mod layout;
pub mod params;
