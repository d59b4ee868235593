//! Errors of command pools and command buffers.

use vstd::prelude::*;

use crate::util::{ERROR_OUT_OF_DEVICE_MEMORY, ERROR_OUT_OF_HOST_MEMORY};

verus! {

/// Errors of command pool operations.
#[allow(non_camel_case_types)]
#[derive(Clone, Copy, Debug, PartialEq, Eq, Structural)]
pub enum CommandPoolError {
    ERROR_OUT_OF_HOST_MEMORY,
    ERROR_OUT_OF_DEVICE_MEMORY,
}

impl CommandPoolError {
    pub open spec fn spec_from_vk_result(code: i32) -> Option<CommandPoolError> {
        if code == ERROR_OUT_OF_HOST_MEMORY {
            Some(CommandPoolError::ERROR_OUT_OF_HOST_MEMORY)
        } else if code == ERROR_OUT_OF_DEVICE_MEMORY {
            Some(CommandPoolError::ERROR_OUT_OF_DEVICE_MEMORY)
        } else {
            None
        }
    }

    /// Converts a `vk::Result` code; `None` for codes this error does not list.
    pub fn from_vk_result(code: i32) -> (r: Option<CommandPoolError>)
        ensures
            r == Self::spec_from_vk_result(code),
    {
        if code == ERROR_OUT_OF_HOST_MEMORY {
            Some(CommandPoolError::ERROR_OUT_OF_HOST_MEMORY)
        } else if code == ERROR_OUT_OF_DEVICE_MEMORY {
            Some(CommandPoolError::ERROR_OUT_OF_DEVICE_MEMORY)
        } else {
            None
        }
    }
}

/// Errors of command buffer operations.
#[allow(non_camel_case_types)]
#[derive(Clone, Copy, Debug, PartialEq, Eq, Structural)]
pub enum CommandBufferError {
    ERROR_OUT_OF_HOST_MEMORY,
    ERROR_OUT_OF_DEVICE_MEMORY,
}

impl CommandBufferError {
    pub open spec fn spec_from_vk_result(code: i32) -> Option<CommandBufferError> {
        if code == ERROR_OUT_OF_HOST_MEMORY {
            Some(CommandBufferError::ERROR_OUT_OF_HOST_MEMORY)
        } else if code == ERROR_OUT_OF_DEVICE_MEMORY {
            Some(CommandBufferError::ERROR_OUT_OF_DEVICE_MEMORY)
        } else {
            None
        }
    }

    /// Converts a `vk::Result` code; `None` for codes this error does not list.
    pub fn from_vk_result(code: i32) -> (r: Option<CommandBufferError>)
        ensures
            r == Self::spec_from_vk_result(code),
    {
        if code == ERROR_OUT_OF_HOST_MEMORY {
            Some(CommandBufferError::ERROR_OUT_OF_HOST_MEMORY)
        } else if code == ERROR_OUT_OF_DEVICE_MEMORY {
            Some(CommandBufferError::ERROR_OUT_OF_DEVICE_MEMORY)
        } else {
            None
        }
    }
}

/// The `vk::Result` codes that are a `CommandPoolError`: each listed code is the error of the
/// same name (ERROR_OUT_OF_HOST_MEMORY (-1), ERROR_OUT_OF_DEVICE_MEMORY (-2)); success (0) and every other code is none.
pub proof fn lemma_command_pool_error_codes()
    ensures
        CommandPoolError::spec_from_vk_result(-1i32) == Some(CommandPoolError::ERROR_OUT_OF_HOST_MEMORY),
        CommandPoolError::spec_from_vk_result(-2i32) == Some(CommandPoolError::ERROR_OUT_OF_DEVICE_MEMORY),
        CommandPoolError::spec_from_vk_result(0i32) is None,
        forall|code: i32| #[trigger] CommandPoolError::spec_from_vk_result(code) is Some ==> (code == -1i32 || code == -2i32),
{
}

/// The `vk::Result` codes that are a `CommandBufferError`: each listed code is the error of the
/// same name (ERROR_OUT_OF_HOST_MEMORY (-1), ERROR_OUT_OF_DEVICE_MEMORY (-2)); success (0) and every other code is none.
pub proof fn lemma_command_buffer_error_codes()
    ensures
        CommandBufferError::spec_from_vk_result(-1i32) == Some(CommandBufferError::ERROR_OUT_OF_HOST_MEMORY),
        CommandBufferError::spec_from_vk_result(-2i32) == Some(CommandBufferError::ERROR_OUT_OF_DEVICE_MEMORY),
        CommandBufferError::spec_from_vk_result(0i32) is None,
        forall|code: i32| #[trigger] CommandBufferError::spec_from_vk_result(code) is Some ==> (code == -1i32 || code == -2i32),
{
}

} // verus!
