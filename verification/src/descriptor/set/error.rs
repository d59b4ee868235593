//! Errors of descriptor updates.

use vstd::prelude::*;

verus! {

/// Errors of describing an image for a descriptor update.
#[derive(Clone, Copy, Debug, PartialEq, Eq, Structural)]
pub enum DescriptorImageInfoError {
    /// Sampler and image view must come from the same device.
    SamplerImageViewDeviceMismatch,
}

/// Errors of describing an inline uniform block for a descriptor update.
#[derive(Clone, Copy, Debug, PartialEq, Eq, Structural)]
pub enum DescriptorInlineUniformBlockInfoError {
    /// Data must not be empty.
    DataEmpty,
    /// Data size must be a multiple of four.
    SizeNotMultipleOfFour,
}

/// Errors of describing a descriptor set write.
#[derive(Clone, Copy, Debug, PartialEq, Eq, Structural)]
pub enum DescriptorSetWriteError {
    /// The write must update at least one descriptor.
    ZeroCount,
}

} // verus!
