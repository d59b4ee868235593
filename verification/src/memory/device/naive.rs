//! A device memory allocator that makes one allocation per resource.

use vstd::prelude::*;

use crate::physical_device::enumerate::{MemoryType, PhysicalDeviceMemoryProperties};
use crate::util::{
    ERROR_INVALID_EXTERNAL_HANDLE, ERROR_INVALID_OPAQUE_CAPTURE_ADDRESS, ERROR_OUT_OF_DEVICE_MEMORY,
    ERROR_OUT_OF_HOST_MEMORY, ERROR_TOO_MANY_OBJECTS,
};

verus! {

/// Errors of [`NaiveDeviceMemoryAllocator`].
#[allow(non_camel_case_types)]
#[derive(Clone, Copy, Debug, PartialEq, Eq, Structural)]
pub enum AllocationError {
    ERROR_OUT_OF_HOST_MEMORY,
    ERROR_OUT_OF_DEVICE_MEMORY,
    ERROR_TOO_MANY_OBJECTS,
    ERROR_INVALID_EXTERNAL_HANDLE,
    ERROR_INVALID_OPAQUE_CAPTURE_ADDRESS,
    /// Suitable memory type could not be found.
    NoSuitableMemoryType,
}

impl AllocationError {
    /// The error that a `vk::Result` code stands for, if it is one this error lists.
    pub open spec fn spec_from_vk_result(code: i32) -> Option<AllocationError> {
        if code == ERROR_OUT_OF_HOST_MEMORY {
            Some(AllocationError::ERROR_OUT_OF_HOST_MEMORY)
        } else if code == ERROR_OUT_OF_DEVICE_MEMORY {
            Some(AllocationError::ERROR_OUT_OF_DEVICE_MEMORY)
        } else if code == ERROR_TOO_MANY_OBJECTS {
            Some(AllocationError::ERROR_TOO_MANY_OBJECTS)
        } else if code == ERROR_INVALID_EXTERNAL_HANDLE {
            Some(AllocationError::ERROR_INVALID_EXTERNAL_HANDLE)
        } else if code == ERROR_INVALID_OPAQUE_CAPTURE_ADDRESS {
            Some(AllocationError::ERROR_INVALID_OPAQUE_CAPTURE_ADDRESS)
        } else {
            None
        }
    }

    /// Converts a `vk::Result` code; `None` for codes this error does not list.
    pub fn from_vk_result(code: i32) -> (r: Option<AllocationError>)
        ensures
            r == Self::spec_from_vk_result(code),
    {
        if code == ERROR_OUT_OF_HOST_MEMORY {
            Some(AllocationError::ERROR_OUT_OF_HOST_MEMORY)
        } else if code == ERROR_OUT_OF_DEVICE_MEMORY {
            Some(AllocationError::ERROR_OUT_OF_DEVICE_MEMORY)
        } else if code == ERROR_TOO_MANY_OBJECTS {
            Some(AllocationError::ERROR_TOO_MANY_OBJECTS)
        } else if code == ERROR_INVALID_EXTERNAL_HANDLE {
            Some(AllocationError::ERROR_INVALID_EXTERNAL_HANDLE)
        } else if code == ERROR_INVALID_OPAQUE_CAPTURE_ADDRESS {
            Some(AllocationError::ERROR_INVALID_OPAQUE_CAPTURE_ADDRESS)
        } else {
            None
        }
    }
}

/// Memory requirements of a resource, as `vkGet*MemoryRequirements` reports them.
#[derive(Clone, Copy, Debug, PartialEq, Eq, Structural)]
pub struct MemoryRequirements {
    pub size: u64,
    pub alignment: u64,
    /// Bit `i` is set when memory type `i` may back the resource.
    pub memory_type_bits: u32,
}

/// The parameters of one `vkAllocateMemory` call.
#[derive(Clone, Copy, Debug, PartialEq, Eq, Structural)]
pub struct MemoryAllocateInfo {
    pub allocation_size: u64,
    pub memory_type_index: u32,
}

/// Whether the flag bits `flags` include every bit of `required`.
pub open spec fn flags_contain(flags: u32, required: u32) -> bool {
    flags & required == required
}

/// Whether memory type `index` of `types` is allowed by `memory_type_bits` and
/// has every flag of `required_flags`.
pub open spec fn memory_type_suitable(
    types: Seq<MemoryType>,
    memory_type_bits: u32,
    required_flags: u32,
    index: int,
) -> bool {
    &&& 0 <= index < types.len()
    &&& index < 32
    &&& memory_type_bits & (1u32 << (index as u32)) != 0
    &&& flags_contain(types[index].property_flags, required_flags)
}

/// Simple device memory allocator.
///
/// Allocates new memory for each request. This allocator is useful when prototyping or debugging,
/// but not in bigger production applications.
pub struct NaiveDeviceMemoryAllocator<D> {
    device: D,
    properties: PhysicalDeviceMemoryProperties,
}

impl<D> NaiveDeviceMemoryAllocator<D> {
    /// The memory types this allocator chooses from.
    pub open spec fn memory_types_view(&self) -> Seq<MemoryType> {
        self.properties_view().types_view()
    }

    pub closed spec fn properties_view(&self) -> PhysicalDeviceMemoryProperties {
        self.properties
    }

    pub closed spec fn device_view(&self) -> D {
        self.device
    }

    /// Creates an allocator for `device`, whose physical device reports `properties`.
    pub fn new(device: D, properties: PhysicalDeviceMemoryProperties) -> (r: Self)
        ensures
            r.device_view() == device,
            r.properties_view() == properties,
    {
        NaiveDeviceMemoryAllocator { device, properties }
    }

    /// Finds the first memory type that `memory_type_bits` allows and that has all of
    /// `required_flags`.
    pub fn find_memory_index(&self, memory_type_bits: u32, required_flags: u32) -> (r: Result<
        u32,
        AllocationError,
    >)
        ensures
            match r {
                Ok(index) => memory_type_suitable(
                    self.memory_types_view(),
                    memory_type_bits,
                    required_flags,
                    index as int,
                ) && forall|j: int|
                    0 <= j < index ==> !memory_type_suitable(
                        self.memory_types_view(),
                        memory_type_bits,
                        required_flags,
                        j,
                    ),
                Err(e) => e == AllocationError::NoSuitableMemoryType && forall|j: int|
                    !memory_type_suitable(
                        self.memory_types_view(),
                        memory_type_bits,
                        required_flags,
                        j,
                    ),
            },
    {
        let types = self.properties.memory_types();
        let mut index: usize = 0;
        while index < types.len()
            invariant
                types@ == self.memory_types_view(),
                types@.len() <= 32,
                index <= types@.len(),
                forall|j: int|
                    0 <= j < index ==> !memory_type_suitable(
                        types@,
                        memory_type_bits,
                        required_flags,
                        j,
                    ),
            decreases types.len() - index,
        {
            let bit = 1u32 << (index as u32);
            if memory_type_bits & bit != 0 {
                if types[index].property_flags & required_flags == required_flags {
                    return Ok(index as u32);
                }
            }
            index = index + 1;
        }
        Err(AllocationError::NoSuitableMemoryType)
    }

    /// The allocation a resource with `requirements` gets: its full size, from the
    /// first suitable memory type.
    pub fn allocation_info(&self, requirements: MemoryRequirements, required_flags: u32) -> (r:
        Result<MemoryAllocateInfo, AllocationError>)
        ensures
            match r {
                Ok(info) => info.allocation_size == requirements.size && memory_type_suitable(
                    self.memory_types_view(),
                    requirements.memory_type_bits,
                    required_flags,
                    info.memory_type_index as int,
                ) && forall|j: int|
                    0 <= j < info.memory_type_index ==> !memory_type_suitable(
                        self.memory_types_view(),
                        requirements.memory_type_bits,
                        required_flags,
                        j,
                    ),
                Err(e) => e == AllocationError::NoSuitableMemoryType && forall|j: int|
                    !memory_type_suitable(
                        self.memory_types_view(),
                        requirements.memory_type_bits,
                        required_flags,
                        j,
                    ),
            },
    {
        let memory_type_index = self.find_memory_index(requirements.memory_type_bits, required_flags)?;
        Ok(MemoryAllocateInfo { allocation_size: requirements.size, memory_type_index })
    }

    /// The device this allocator allocates from.
    pub fn device(&self) -> (r: &D)
        ensures
            *r == self.device_view(),
    {
        &self.device
    }

    /// The memory properties this allocator chooses memory types from.
    pub fn properties(&self) -> (r: &PhysicalDeviceMemoryProperties)
        ensures
            *r == self.properties_view(),
    {
        &self.properties
    }
}

/// The `vk::Result` codes that are an `AllocationError`: each listed code is the error of the
/// same name (ERROR_OUT_OF_HOST_MEMORY (-1), ERROR_OUT_OF_DEVICE_MEMORY (-2), ERROR_TOO_MANY_OBJECTS (-10), ERROR_INVALID_EXTERNAL_HANDLE (-1000072003), ERROR_INVALID_OPAQUE_CAPTURE_ADDRESS (-1000257000)); success (0) and every other code is none.
pub proof fn lemma_allocation_error_codes()
    ensures
        AllocationError::spec_from_vk_result(-1i32) == Some(AllocationError::ERROR_OUT_OF_HOST_MEMORY),
        AllocationError::spec_from_vk_result(-2i32) == Some(AllocationError::ERROR_OUT_OF_DEVICE_MEMORY),
        AllocationError::spec_from_vk_result(-10i32) == Some(AllocationError::ERROR_TOO_MANY_OBJECTS),
        AllocationError::spec_from_vk_result(-1000072003i32) == Some(AllocationError::ERROR_INVALID_EXTERNAL_HANDLE),
        AllocationError::spec_from_vk_result(-1000257000i32) == Some(AllocationError::ERROR_INVALID_OPAQUE_CAPTURE_ADDRESS),
        AllocationError::spec_from_vk_result(0i32) is None,
        forall|code: i32| #[trigger] AllocationError::spec_from_vk_result(code) is Some ==> (code == -1i32 || code == -2i32 || code == -10i32 || code == -1000072003i32 || code == -1000257000i32),
{
}

} // verus!
