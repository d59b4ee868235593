//! Descriptor sets and their updates.

pub mod error;
pub mod update;
