//! Device memory (allocations, mappings, memory type selection) and host
//! memory allocation bookkeeping.

pub mod device;
pub mod host;
