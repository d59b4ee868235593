//! Descriptor set layouts, pools, sets, samplers and descriptor updates.

pub mod error;
pub mod layout;
pub mod pool;
pub mod sampler;
pub mod set;
