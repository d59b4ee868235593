//! Pipeline layouts: push constant ranges and their checks.

use vstd::prelude::*;

use super::error::PipelineLayoutError;

verus! {

/// A push constant range, in bytes.
#[derive(Clone, Copy, Debug, PartialEq, Eq, Structural)]
pub struct PushConstantRange {
    /// Raw `vk::ShaderStageFlags` bits.
    pub stage_flags: u32,
    pub offset: u32,
    pub size: u32,
}

impl PushConstantRange {
    /// A range of `size_div_four` four-byte words starting at word `offset_div_four`.
    pub fn new(stage_flags: u32, offset_div_four: u32, size_div_four: u32) -> (r: Self)
        requires
            offset_div_four * 4 <= u32::MAX,
            size_div_four * 4 <= u32::MAX,
        ensures
            r.stage_flags == stage_flags,
            r.offset == offset_div_four * 4,
            r.size == size_div_four * 4,
    {
        PushConstantRange { stage_flags, offset: offset_div_four * 4, size: size_div_four * 4 }
    }
}

/// The check made before creating a pipeline layout: every push constant range
/// must name at least one shader stage.
pub fn validate_push_constant_ranges(ranges: &[PushConstantRange]) -> (r: Result<(), PipelineLayoutError>)
    ensures
        (exists|i: int| 0 <= i < ranges@.len() && ranges@[i].stage_flags == 0) ==> r
            == Err::<(), PipelineLayoutError>(PipelineLayoutError::StageFlagsEmpty),
        (forall|i: int| 0 <= i < ranges@.len() ==> ranges@[i].stage_flags != 0) ==> r is Ok,
{
    let mut i: usize = 0;
    while i < ranges.len()
        invariant
            i <= ranges@.len(),
            forall|j: int| 0 <= j < i ==> ranges@[j].stage_flags != 0,
        decreases ranges.len() - i,
    {
        if ranges[i].stage_flags == 0 {
            return Err(PipelineLayoutError::StageFlagsEmpty);
        }
        i = i + 1;
    }
    Ok(())
}

} // verus!
