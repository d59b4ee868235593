//! Properties reported by a physical device.

pub mod enumerate;
