//! Errors of instance creation and physical device enumeration.

use vstd::prelude::*;

use crate::util::{
    ERROR_EXTENSION_NOT_PRESENT, ERROR_INCOMPATIBLE_DRIVER, ERROR_INITIALIZATION_FAILED,
    ERROR_LAYER_NOT_PRESENT, ERROR_OUT_OF_DEVICE_MEMORY, ERROR_OUT_OF_HOST_MEMORY,
};

verus! {

/// Errors of creating an instance.
#[allow(non_camel_case_types)]
#[derive(Clone, Copy, Debug, PartialEq, Eq, Structural)]
pub enum InstanceError {
    ERROR_OUT_OF_HOST_MEMORY,
    ERROR_OUT_OF_DEVICE_MEMORY,
    ERROR_INITIALIZATION_FAILED,
    ERROR_LAYER_NOT_PRESENT,
    ERROR_EXTENSION_NOT_PRESENT,
    ERROR_INCOMPATIBLE_DRIVER,
    /// Instance layer and/or extension strings could not be converted into CStr:
    /// a nul byte stands at `position`.
    NulError { position: usize },
}

impl InstanceError {
    pub open spec fn spec_from_vk_result(code: i32) -> Option<InstanceError> {
        if code == ERROR_OUT_OF_HOST_MEMORY {
            Some(InstanceError::ERROR_OUT_OF_HOST_MEMORY)
        } else if code == ERROR_OUT_OF_DEVICE_MEMORY {
            Some(InstanceError::ERROR_OUT_OF_DEVICE_MEMORY)
        } else if code == ERROR_INITIALIZATION_FAILED {
            Some(InstanceError::ERROR_INITIALIZATION_FAILED)
        } else if code == ERROR_LAYER_NOT_PRESENT {
            Some(InstanceError::ERROR_LAYER_NOT_PRESENT)
        } else if code == ERROR_EXTENSION_NOT_PRESENT {
            Some(InstanceError::ERROR_EXTENSION_NOT_PRESENT)
        } else if code == ERROR_INCOMPATIBLE_DRIVER {
            Some(InstanceError::ERROR_INCOMPATIBLE_DRIVER)
        } else {
            None
        }
    }

    /// Converts a `vk::Result` code; `None` for codes this error does not list.
    pub fn from_vk_result(code: i32) -> (r: Option<InstanceError>)
        ensures
            r == Self::spec_from_vk_result(code),
    {
        if code == ERROR_OUT_OF_HOST_MEMORY {
            Some(InstanceError::ERROR_OUT_OF_HOST_MEMORY)
        } else if code == ERROR_OUT_OF_DEVICE_MEMORY {
            Some(InstanceError::ERROR_OUT_OF_DEVICE_MEMORY)
        } else if code == ERROR_INITIALIZATION_FAILED {
            Some(InstanceError::ERROR_INITIALIZATION_FAILED)
        } else if code == ERROR_LAYER_NOT_PRESENT {
            Some(InstanceError::ERROR_LAYER_NOT_PRESENT)
        } else if code == ERROR_EXTENSION_NOT_PRESENT {
            Some(InstanceError::ERROR_EXTENSION_NOT_PRESENT)
        } else if code == ERROR_INCOMPATIBLE_DRIVER {
            Some(InstanceError::ERROR_INCOMPATIBLE_DRIVER)
        } else {
            None
        }
    }
}

/// Errors of enumerating physical devices.
#[allow(non_camel_case_types)]
#[derive(Clone, Copy, Debug, PartialEq, Eq, Structural)]
pub enum PhysicalDeviceEnumerationError {
    ERROR_OUT_OF_HOST_MEMORY,
    ERROR_OUT_OF_DEVICE_MEMORY,
    ERROR_INITIALIZATION_FAILED,
}

impl PhysicalDeviceEnumerationError {
    pub open spec fn spec_from_vk_result(code: i32) -> Option<PhysicalDeviceEnumerationError> {
        if code == ERROR_OUT_OF_HOST_MEMORY {
            Some(PhysicalDeviceEnumerationError::ERROR_OUT_OF_HOST_MEMORY)
        } else if code == ERROR_OUT_OF_DEVICE_MEMORY {
            Some(PhysicalDeviceEnumerationError::ERROR_OUT_OF_DEVICE_MEMORY)
        } else if code == ERROR_INITIALIZATION_FAILED {
            Some(PhysicalDeviceEnumerationError::ERROR_INITIALIZATION_FAILED)
        } else {
            None
        }
    }

    /// Converts a `vk::Result` code; `None` for codes this error does not list.
    pub fn from_vk_result(code: i32) -> (r: Option<PhysicalDeviceEnumerationError>)
        ensures
            r == Self::spec_from_vk_result(code),
    {
        if code == ERROR_OUT_OF_HOST_MEMORY {
            Some(PhysicalDeviceEnumerationError::ERROR_OUT_OF_HOST_MEMORY)
        } else if code == ERROR_OUT_OF_DEVICE_MEMORY {
            Some(PhysicalDeviceEnumerationError::ERROR_OUT_OF_DEVICE_MEMORY)
        } else if code == ERROR_INITIALIZATION_FAILED {
            Some(PhysicalDeviceEnumerationError::ERROR_INITIALIZATION_FAILED)
        } else {
            None
        }
    }
}

/// The `vk::Result` codes that are an `InstanceError`: each listed code is the error of the
/// same name (ERROR_OUT_OF_HOST_MEMORY (-1), ERROR_OUT_OF_DEVICE_MEMORY (-2), ERROR_INITIALIZATION_FAILED (-3), ERROR_LAYER_NOT_PRESENT (-6), ERROR_EXTENSION_NOT_PRESENT (-7), ERROR_INCOMPATIBLE_DRIVER (-9)); success (0) and every other code is none.
pub proof fn lemma_instance_error_codes()
    ensures
        InstanceError::spec_from_vk_result(-1i32) == Some(InstanceError::ERROR_OUT_OF_HOST_MEMORY),
        InstanceError::spec_from_vk_result(-2i32) == Some(InstanceError::ERROR_OUT_OF_DEVICE_MEMORY),
        InstanceError::spec_from_vk_result(-3i32) == Some(InstanceError::ERROR_INITIALIZATION_FAILED),
        InstanceError::spec_from_vk_result(-6i32) == Some(InstanceError::ERROR_LAYER_NOT_PRESENT),
        InstanceError::spec_from_vk_result(-7i32) == Some(InstanceError::ERROR_EXTENSION_NOT_PRESENT),
        InstanceError::spec_from_vk_result(-9i32) == Some(InstanceError::ERROR_INCOMPATIBLE_DRIVER),
        InstanceError::spec_from_vk_result(0i32) is None,
        forall|code: i32| #[trigger] InstanceError::spec_from_vk_result(code) is Some ==> (code == -1i32 || code == -2i32 || code == -3i32 || code == -6i32 || code == -7i32 || code == -9i32),
{
}

/// The `vk::Result` codes that are a `PhysicalDeviceEnumerationError`: each listed code is the error of the
/// same name (ERROR_OUT_OF_HOST_MEMORY (-1), ERROR_OUT_OF_DEVICE_MEMORY (-2), ERROR_INITIALIZATION_FAILED (-3)); success (0) and every other code is none.
pub proof fn lemma_physical_device_enumeration_error_codes()
    ensures
        PhysicalDeviceEnumerationError::spec_from_vk_result(-1i32) == Some(PhysicalDeviceEnumerationError::ERROR_OUT_OF_HOST_MEMORY),
        PhysicalDeviceEnumerationError::spec_from_vk_result(-2i32) == Some(PhysicalDeviceEnumerationError::ERROR_OUT_OF_DEVICE_MEMORY),
        PhysicalDeviceEnumerationError::spec_from_vk_result(-3i32) == Some(PhysicalDeviceEnumerationError::ERROR_INITIALIZATION_FAILED),
        PhysicalDeviceEnumerationError::spec_from_vk_result(0i32) is None,
        forall|code: i32| #[trigger] PhysicalDeviceEnumerationError::spec_from_vk_result(code) is Some ==> (code == -1i32 || code == -2i32 || code == -3i32),
{
}

} // verus!
