//! Errors of mapping device memory.

use vstd::prelude::*;

use crate::util::{ERROR_MEMORY_MAP_FAILED, ERROR_OUT_OF_DEVICE_MEMORY, ERROR_OUT_OF_HOST_MEMORY};

verus! {

/// A region of device memory mapped into the host address space.
#[derive(Debug)]
pub struct MappedMemory {}

/// Errors of `vkMapMemory`.
#[allow(non_camel_case_types)]
#[derive(Clone, Copy, Debug, PartialEq, Eq, Structural)]
pub enum MappingError {
    ERROR_OUT_OF_HOST_MEMORY,
    ERROR_OUT_OF_DEVICE_MEMORY,
    ERROR_MEMORY_MAP_FAILED,
}

impl MappingError {
    pub open spec fn spec_from_vk_result(code: i32) -> Option<MappingError> {
        if code == ERROR_OUT_OF_HOST_MEMORY {
            Some(MappingError::ERROR_OUT_OF_HOST_MEMORY)
        } else if code == ERROR_OUT_OF_DEVICE_MEMORY {
            Some(MappingError::ERROR_OUT_OF_DEVICE_MEMORY)
        } else if code == ERROR_MEMORY_MAP_FAILED {
            Some(MappingError::ERROR_MEMORY_MAP_FAILED)
        } else {
            None
        }
    }

    /// Converts a `vk::Result` code; `None` for codes this error does not list.
    pub fn from_vk_result(code: i32) -> (r: Option<MappingError>)
        ensures
            r == Self::spec_from_vk_result(code),
    {
        if code == ERROR_OUT_OF_HOST_MEMORY {
            Some(MappingError::ERROR_OUT_OF_HOST_MEMORY)
        } else if code == ERROR_OUT_OF_DEVICE_MEMORY {
            Some(MappingError::ERROR_OUT_OF_DEVICE_MEMORY)
        } else if code == ERROR_MEMORY_MAP_FAILED {
            Some(MappingError::ERROR_MEMORY_MAP_FAILED)
        } else {
            None
        }
    }
}

/// The `vk::Result` codes that are a `MappingError`: each listed code is the error of the
/// same name (ERROR_OUT_OF_HOST_MEMORY (-1), ERROR_OUT_OF_DEVICE_MEMORY (-2), ERROR_MEMORY_MAP_FAILED (-5)); success (0) and every other code is none.
pub proof fn lemma_mapping_error_codes()
    ensures
        MappingError::spec_from_vk_result(-1i32) == Some(MappingError::ERROR_OUT_OF_HOST_MEMORY),
        MappingError::spec_from_vk_result(-2i32) == Some(MappingError::ERROR_OUT_OF_DEVICE_MEMORY),
        MappingError::spec_from_vk_result(-5i32) == Some(MappingError::ERROR_MEMORY_MAP_FAILED),
        MappingError::spec_from_vk_result(0i32) is None,
        forall|code: i32| #[trigger] MappingError::spec_from_vk_result(code) is Some ==> (code == -1i32 || code == -2i32 || code == -5i32),
{
}

} // verus!
