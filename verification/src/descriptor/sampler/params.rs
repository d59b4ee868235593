//! Sampler parameters.

use vstd::prelude::*;

verus! {

/// `vk::SamplerAddressMode::CLAMP_TO_EDGE`.
pub const SAMPLER_ADDRESS_MODE_CLAMP_TO_EDGE: i32 = 2;

/// `vk::SamplerAddressMode::CLAMP_TO_BORDER`.
pub const SAMPLER_ADDRESS_MODE_CLAMP_TO_BORDER: i32 = 3;

/// Sampler address mode containing only clamp modes.
#[allow(non_camel_case_types)]
#[derive(Clone, Copy, Debug, PartialEq, Eq, Structural)]
pub enum AddressModeClamp {
    CLAMP_TO_EDGE,
    CLAMP_TO_BORDER,
}

impl AddressModeClamp {
    pub open spec fn spec_into(self) -> i32 {
        match self {
            AddressModeClamp::CLAMP_TO_EDGE => SAMPLER_ADDRESS_MODE_CLAMP_TO_EDGE,
            AddressModeClamp::CLAMP_TO_BORDER => SAMPLER_ADDRESS_MODE_CLAMP_TO_BORDER,
        }
    }

    /// The `vk::SamplerAddressMode` this value stands for.
    pub fn into(self) -> (r: i32)
        ensures
            r == self.spec_into(),
            self == AddressModeClamp::CLAMP_TO_EDGE ==> r == 2,
            self == AddressModeClamp::CLAMP_TO_BORDER ==> r == 3,
    {
        match self {
            AddressModeClamp::CLAMP_TO_EDGE => SAMPLER_ADDRESS_MODE_CLAMP_TO_EDGE,
            AddressModeClamp::CLAMP_TO_BORDER => SAMPLER_ADDRESS_MODE_CLAMP_TO_BORDER,
        }
    }
}

} // verus!
