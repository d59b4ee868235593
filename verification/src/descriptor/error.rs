//! Errors of descriptor set layouts, pools and sets.

use vstd::prelude::*;

use crate::util::{
    ERROR_FRAGMENTATION_EXT, ERROR_OUT_OF_DEVICE_MEMORY, ERROR_OUT_OF_HOST_MEMORY,
    ERROR_OUT_OF_POOL_MEMORY,
};

verus! {

/// Errors of creating a descriptor set layout.
#[allow(non_camel_case_types)]
#[derive(Clone, Copy, Debug, PartialEq, Eq, Structural)]
pub enum DescriptorSetLayoutError {
    ERROR_OUT_OF_HOST_MEMORY,
    ERROR_OUT_OF_DEVICE_MEMORY,
}

impl DescriptorSetLayoutError {
    pub open spec fn spec_from_vk_result(code: i32) -> Option<DescriptorSetLayoutError> {
        if code == ERROR_OUT_OF_HOST_MEMORY {
            Some(DescriptorSetLayoutError::ERROR_OUT_OF_HOST_MEMORY)
        } else if code == ERROR_OUT_OF_DEVICE_MEMORY {
            Some(DescriptorSetLayoutError::ERROR_OUT_OF_DEVICE_MEMORY)
        } else {
            None
        }
    }

    /// Converts a `vk::Result` code; `None` for codes this error does not list.
    pub fn from_vk_result(code: i32) -> (r: Option<DescriptorSetLayoutError>)
        ensures
            r == Self::spec_from_vk_result(code),
    {
        if code == ERROR_OUT_OF_HOST_MEMORY {
            Some(DescriptorSetLayoutError::ERROR_OUT_OF_HOST_MEMORY)
        } else if code == ERROR_OUT_OF_DEVICE_MEMORY {
            Some(DescriptorSetLayoutError::ERROR_OUT_OF_DEVICE_MEMORY)
        } else {
            None
        }
    }
}

/// Errors of creating a descriptor pool.
#[allow(non_camel_case_types)]
#[derive(Clone, Copy, Debug, PartialEq, Eq, Structural)]
pub enum DescriptorPoolError {
    ERROR_OUT_OF_HOST_MEMORY,
    ERROR_OUT_OF_DEVICE_MEMORY,
    ERROR_FRAGMENTATION_EXT,
}

impl DescriptorPoolError {
    pub open spec fn spec_from_vk_result(code: i32) -> Option<DescriptorPoolError> {
        if code == ERROR_OUT_OF_HOST_MEMORY {
            Some(DescriptorPoolError::ERROR_OUT_OF_HOST_MEMORY)
        } else if code == ERROR_OUT_OF_DEVICE_MEMORY {
            Some(DescriptorPoolError::ERROR_OUT_OF_DEVICE_MEMORY)
        } else if code == ERROR_FRAGMENTATION_EXT {
            Some(DescriptorPoolError::ERROR_FRAGMENTATION_EXT)
        } else {
            None
        }
    }

    /// Converts a `vk::Result` code; `None` for codes this error does not list.
    pub fn from_vk_result(code: i32) -> (r: Option<DescriptorPoolError>)
        ensures
            r == Self::spec_from_vk_result(code),
    {
        if code == ERROR_OUT_OF_HOST_MEMORY {
            Some(DescriptorPoolError::ERROR_OUT_OF_HOST_MEMORY)
        } else if code == ERROR_OUT_OF_DEVICE_MEMORY {
            Some(DescriptorPoolError::ERROR_OUT_OF_DEVICE_MEMORY)
        } else if code == ERROR_FRAGMENTATION_EXT {
            Some(DescriptorPoolError::ERROR_FRAGMENTATION_EXT)
        } else {
            None
        }
    }
}

/// Errors of allocating descriptor sets.
#[allow(non_camel_case_types)]
#[derive(Clone, Copy, Debug, PartialEq, Eq, Structural)]
pub enum DescriptorSetError {
    ERROR_OUT_OF_HOST_MEMORY,
    ERROR_OUT_OF_DEVICE_MEMORY,
    ERROR_FRAGMENTATION_EXT,
    ERROR_OUT_OF_POOL_MEMORY,
    /// At least one descriptor set layout must be specified.
    LayoutsEmpty,
    /// The descriptor pool and all descriptor layouts must come from the same device.
    DescriptorPoolLayoutsDeviceMismatch,
}

impl DescriptorSetError {
    pub open spec fn spec_from_vk_result(code: i32) -> Option<DescriptorSetError> {
        if code == ERROR_OUT_OF_HOST_MEMORY {
            Some(DescriptorSetError::ERROR_OUT_OF_HOST_MEMORY)
        } else if code == ERROR_OUT_OF_DEVICE_MEMORY {
            Some(DescriptorSetError::ERROR_OUT_OF_DEVICE_MEMORY)
        } else if code == ERROR_FRAGMENTATION_EXT {
            Some(DescriptorSetError::ERROR_FRAGMENTATION_EXT)
        } else if code == ERROR_OUT_OF_POOL_MEMORY {
            Some(DescriptorSetError::ERROR_OUT_OF_POOL_MEMORY)
        } else {
            None
        }
    }

    /// Converts a `vk::Result` code; `None` for codes this error does not list.
    pub fn from_vk_result(code: i32) -> (r: Option<DescriptorSetError>)
        ensures
            r == Self::spec_from_vk_result(code),
    {
        if code == ERROR_OUT_OF_HOST_MEMORY {
            Some(DescriptorSetError::ERROR_OUT_OF_HOST_MEMORY)
        } else if code == ERROR_OUT_OF_DEVICE_MEMORY {
            Some(DescriptorSetError::ERROR_OUT_OF_DEVICE_MEMORY)
        } else if code == ERROR_FRAGMENTATION_EXT {
            Some(DescriptorSetError::ERROR_FRAGMENTATION_EXT)
        } else if code == ERROR_OUT_OF_POOL_MEMORY {
            Some(DescriptorSetError::ERROR_OUT_OF_POOL_MEMORY)
        } else {
            None
        }
    }
}

/// The `vk::Result` codes that are a `DescriptorSetLayoutError`: each listed code is the error of the
/// same name (ERROR_OUT_OF_HOST_MEMORY (-1), ERROR_OUT_OF_DEVICE_MEMORY (-2)); success (0) and every other code is none.
pub proof fn lemma_descriptor_set_layout_error_codes()
    ensures
        DescriptorSetLayoutError::spec_from_vk_result(-1i32) == Some(DescriptorSetLayoutError::ERROR_OUT_OF_HOST_MEMORY),
        DescriptorSetLayoutError::spec_from_vk_result(-2i32) == Some(DescriptorSetLayoutError::ERROR_OUT_OF_DEVICE_MEMORY),
        DescriptorSetLayoutError::spec_from_vk_result(0i32) is None,
        forall|code: i32| #[trigger] DescriptorSetLayoutError::spec_from_vk_result(code) is Some ==> (code == -1i32 || code == -2i32),
{
}

/// The `vk::Result` codes that are a `DescriptorPoolError`: each listed code is the error of the
/// same name (ERROR_OUT_OF_HOST_MEMORY (-1), ERROR_OUT_OF_DEVICE_MEMORY (-2), ERROR_FRAGMENTATION_EXT (-1000161000)); success (0) and every other code is none.
pub proof fn lemma_descriptor_pool_error_codes()
    ensures
        DescriptorPoolError::spec_from_vk_result(-1i32) == Some(DescriptorPoolError::ERROR_OUT_OF_HOST_MEMORY),
        DescriptorPoolError::spec_from_vk_result(-2i32) == Some(DescriptorPoolError::ERROR_OUT_OF_DEVICE_MEMORY),
        DescriptorPoolError::spec_from_vk_result(-1000161000i32) == Some(DescriptorPoolError::ERROR_FRAGMENTATION_EXT),
        DescriptorPoolError::spec_from_vk_result(0i32) is None,
        forall|code: i32| #[trigger] DescriptorPoolError::spec_from_vk_result(code) is Some ==> (code == -1i32 || code == -2i32 || code == -1000161000i32),
{
}

/// The `vk::Result` codes that are a `DescriptorSetError`: each listed code is the error of the
/// same name (ERROR_OUT_OF_HOST_MEMORY (-1), ERROR_OUT_OF_DEVICE_MEMORY (-2), ERROR_FRAGMENTATION_EXT (-1000161000), ERROR_OUT_OF_POOL_MEMORY (-1000069000)); success (0) and every other code is none.
pub proof fn lemma_descriptor_set_error_codes()
    ensures
        DescriptorSetError::spec_from_vk_result(-1i32) == Some(DescriptorSetError::ERROR_OUT_OF_HOST_MEMORY),
        DescriptorSetError::spec_from_vk_result(-2i32) == Some(DescriptorSetError::ERROR_OUT_OF_DEVICE_MEMORY),
        DescriptorSetError::spec_from_vk_result(-1000161000i32) == Some(DescriptorSetError::ERROR_FRAGMENTATION_EXT),
        DescriptorSetError::spec_from_vk_result(-1000069000i32) == Some(DescriptorSetError::ERROR_OUT_OF_POOL_MEMORY),
        DescriptorSetError::spec_from_vk_result(0i32) is None,
        forall|code: i32| #[trigger] DescriptorSetError::spec_from_vk_result(code) is Some ==> (code == -1i32 || code == -2i32 || code == -1000161000i32 || code == -1000069000i32),
{
}

} // verus!
