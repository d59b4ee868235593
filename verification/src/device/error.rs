//! Errors of device creation.

use vstd::prelude::*;

use crate::util::{
    ERROR_DEVICE_LOST, ERROR_EXTENSION_NOT_PRESENT, ERROR_FEATURE_NOT_PRESENT,
    ERROR_INITIALIZATION_FAILED, ERROR_OUT_OF_DEVICE_MEMORY, ERROR_OUT_OF_HOST_MEMORY,
    ERROR_TOO_MANY_OBJECTS,
};

verus! {

/// Errors of creating a device.
#[allow(non_camel_case_types)]
#[derive(Clone, Copy, Debug, PartialEq, Eq, Structural)]
pub enum DeviceError {
    ERROR_OUT_OF_HOST_MEMORY,
    ERROR_OUT_OF_DEVICE_MEMORY,
    ERROR_INITIALIZATION_FAILED,
    ERROR_EXTENSION_NOT_PRESENT,
    ERROR_FEATURE_NOT_PRESENT,
    ERROR_TOO_MANY_OBJECTS,
    ERROR_DEVICE_LOST,
    /// Device layer and/or extension strings could not be converted into CStr: a
    /// nul byte stands at `position`.
    NulError { position: usize },
    /// Queue create info array must contain at least one element.
    QueuesEmpty,
    /// Queue create info `queue_priorities` array must contain at least one element.
    QueuePrioritiesEmpty,
}

impl DeviceError {
    pub open spec fn spec_from_vk_result(code: i32) -> Option<DeviceError> {
        if code == ERROR_OUT_OF_HOST_MEMORY {
            Some(DeviceError::ERROR_OUT_OF_HOST_MEMORY)
        } else if code == ERROR_OUT_OF_DEVICE_MEMORY {
            Some(DeviceError::ERROR_OUT_OF_DEVICE_MEMORY)
        } else if code == ERROR_INITIALIZATION_FAILED {
            Some(DeviceError::ERROR_INITIALIZATION_FAILED)
        } else if code == ERROR_EXTENSION_NOT_PRESENT {
            Some(DeviceError::ERROR_EXTENSION_NOT_PRESENT)
        } else if code == ERROR_FEATURE_NOT_PRESENT {
            Some(DeviceError::ERROR_FEATURE_NOT_PRESENT)
        } else if code == ERROR_TOO_MANY_OBJECTS {
            Some(DeviceError::ERROR_TOO_MANY_OBJECTS)
        } else if code == ERROR_DEVICE_LOST {
            Some(DeviceError::ERROR_DEVICE_LOST)
        } else {
            None
        }
    }

    /// Converts a `vk::Result` code; `None` for codes this error does not list.
    pub fn from_vk_result(code: i32) -> (r: Option<DeviceError>)
        ensures
            r == Self::spec_from_vk_result(code),
    {
        if code == ERROR_OUT_OF_HOST_MEMORY {
            Some(DeviceError::ERROR_OUT_OF_HOST_MEMORY)
        } else if code == ERROR_OUT_OF_DEVICE_MEMORY {
            Some(DeviceError::ERROR_OUT_OF_DEVICE_MEMORY)
        } else if code == ERROR_INITIALIZATION_FAILED {
            Some(DeviceError::ERROR_INITIALIZATION_FAILED)
        } else if code == ERROR_EXTENSION_NOT_PRESENT {
            Some(DeviceError::ERROR_EXTENSION_NOT_PRESENT)
        } else if code == ERROR_FEATURE_NOT_PRESENT {
            Some(DeviceError::ERROR_FEATURE_NOT_PRESENT)
        } else if code == ERROR_TOO_MANY_OBJECTS {
            Some(DeviceError::ERROR_TOO_MANY_OBJECTS)
        } else if code == ERROR_DEVICE_LOST {
            Some(DeviceError::ERROR_DEVICE_LOST)
        } else {
            None
        }
    }
}

/// The `vk::Result` codes that are a `DeviceError`: each listed code is the error of the
/// same name (ERROR_OUT_OF_HOST_MEMORY (-1), ERROR_OUT_OF_DEVICE_MEMORY (-2), ERROR_INITIALIZATION_FAILED (-3), ERROR_EXTENSION_NOT_PRESENT (-7), ERROR_FEATURE_NOT_PRESENT (-8), ERROR_TOO_MANY_OBJECTS (-10), ERROR_DEVICE_LOST (-4)); success (0) and every other code is none.
pub proof fn lemma_device_error_codes()
    ensures
        DeviceError::spec_from_vk_result(-1i32) == Some(DeviceError::ERROR_OUT_OF_HOST_MEMORY),
        DeviceError::spec_from_vk_result(-2i32) == Some(DeviceError::ERROR_OUT_OF_DEVICE_MEMORY),
        DeviceError::spec_from_vk_result(-3i32) == Some(DeviceError::ERROR_INITIALIZATION_FAILED),
        DeviceError::spec_from_vk_result(-7i32) == Some(DeviceError::ERROR_EXTENSION_NOT_PRESENT),
        DeviceError::spec_from_vk_result(-8i32) == Some(DeviceError::ERROR_FEATURE_NOT_PRESENT),
        DeviceError::spec_from_vk_result(-10i32) == Some(DeviceError::ERROR_TOO_MANY_OBJECTS),
        DeviceError::spec_from_vk_result(-4i32) == Some(DeviceError::ERROR_DEVICE_LOST),
        DeviceError::spec_from_vk_result(0i32) is None,
        forall|code: i32| #[trigger] DeviceError::spec_from_vk_result(code) is Some ==> (code == -1i32 || code == -2i32 || code == -3i32 || code == -7i32 || code == -8i32 || code == -10i32 || code == -4i32),
{
}

} // verus!
