//! Descriptor pools: pool sizes and the checks made before allocating sets.

use vstd::prelude::*;

use super::error::DescriptorSetError;

verus! {

/// The number of descriptors of one type a pool provides.
#[derive(Clone, Copy, Debug, PartialEq, Eq, Structural)]
pub struct DescriptorPoolSize {
    /// Raw `vk::DescriptorType`.
    pub descriptor_type: i32,
    pub count: u32,
}

/// The check made before allocating descriptor sets for `layout_count` layouts:
/// at least one layout must be specified.
pub fn validate_set_layouts(layout_count: usize) -> (r: Result<(), DescriptorSetError>)
    ensures
        layout_count == 0 <==> r == Err::<(), DescriptorSetError>(DescriptorSetError::LayoutsEmpty),
        layout_count != 0 <==> r is Ok,
{
    if layout_count == 0 {
        Err(DescriptorSetError::LayoutsEmpty)
    } else {
        Ok(())
    }
}

} // verus!
