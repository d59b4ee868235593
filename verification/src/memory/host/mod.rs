//! Host memory allocators handed to Vulkan.

use ash::vk::AllocationCallbacks;
use vstd::prelude::*;

pub mod rust;

verus! {

#[verifier::external_type_specification]
#[verifier::external_body]
pub struct ExAllocationCallbacks(AllocationCallbacks);

/// The host memory allocator Vulkan uses for an object.
#[derive(Clone, Copy, Debug)]
pub enum HostMemoryAllocator {
    /// The Vulkan implementation-dependent allocator will be used.
    Unspecified(),
    /// A custom allocator will be used.
    ///
    /// The callbacks must follow
    /// <https://www.khronos.org/registry/vulkan/specs/1.2-extensions/html/vkspec.html#VkAllocationCallbacks>.
    Custom(&'static AllocationCallbacks),
}

impl HostMemoryAllocator {
    /// The callbacks to pass to Vulkan: none for the implementation's allocator.
    pub fn as_ref(&self) -> (r: Option<&AllocationCallbacks>)
        ensures
            match *self {
                HostMemoryAllocator::Unspecified() => r.is_none(),
                HostMemoryAllocator::Custom(callbacks) => r == Some(callbacks),
            },
    {
        match self {
            HostMemoryAllocator::Unspecified() => None,
            HostMemoryAllocator::Custom(callbacks) => Some(*callbacks),
        }
    }

    /// The callbacks by value: none for the implementation's allocator.
    pub fn into(self) -> (r: Option<AllocationCallbacks>)
        ensures
            match self {
                HostMemoryAllocator::Unspecified() => r.is_none(),
                HostMemoryAllocator::Custom(callbacks) => r == Some(*callbacks),
            },
    {
        match self {
            HostMemoryAllocator::Unspecified() => None,
            HostMemoryAllocator::Custom(callbacks) => Some(*callbacks),
        }
    }
}

impl Default for HostMemoryAllocator {
    fn default() -> (r: Self)
        ensures
            r matches HostMemoryAllocator::Unspecified(),
    {
        HostMemoryAllocator::Unspecified()
    }
}

} // verus!
