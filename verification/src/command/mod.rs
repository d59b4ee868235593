//! Command pools and command buffers: the parameters of their Vulkan calls.

pub mod buffer;
pub mod error;
pub mod pool;
