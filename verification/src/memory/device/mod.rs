//! Device memory allocations and their host mappings.

pub mod allocation;
pub mod map;
pub mod mapped;
pub mod naive;
