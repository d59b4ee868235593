//! Errors of framebuffer creation.

use vstd::prelude::*;

use crate::util::{ERROR_OUT_OF_DEVICE_MEMORY, ERROR_OUT_OF_HOST_MEMORY};

verus! {

/// Errors of creating a framebuffer.
#[allow(non_camel_case_types)]
#[derive(Clone, Copy, Debug, PartialEq, Eq, Structural)]
pub enum FramebufferError {
    ERROR_OUT_OF_HOST_MEMORY,
    ERROR_OUT_OF_DEVICE_MEMORY,
    /// The device render pass was created with must match with the device all
    /// attachments were created on.
    RenderPassAttachmentsDeviceMismatch,
}

impl FramebufferError {
    pub open spec fn spec_from_vk_result(code: i32) -> Option<FramebufferError> {
        if code == ERROR_OUT_OF_HOST_MEMORY {
            Some(FramebufferError::ERROR_OUT_OF_HOST_MEMORY)
        } else if code == ERROR_OUT_OF_DEVICE_MEMORY {
            Some(FramebufferError::ERROR_OUT_OF_DEVICE_MEMORY)
        } else {
            None
        }
    }

    /// Converts a `vk::Result` code; `None` for codes this error does not list.
    pub fn from_vk_result(code: i32) -> (r: Option<FramebufferError>)
        ensures
            r == Self::spec_from_vk_result(code),
    {
        if code == ERROR_OUT_OF_HOST_MEMORY {
            Some(FramebufferError::ERROR_OUT_OF_HOST_MEMORY)
        } else if code == ERROR_OUT_OF_DEVICE_MEMORY {
            Some(FramebufferError::ERROR_OUT_OF_DEVICE_MEMORY)
        } else {
            None
        }
    }
}

/// The `vk::Result` codes that are a `FramebufferError`: each listed code is the error of the
/// same name (ERROR_OUT_OF_HOST_MEMORY (-1), ERROR_OUT_OF_DEVICE_MEMORY (-2)); success (0) and every other code is none.
pub proof fn lemma_framebuffer_error_codes()
    ensures
        FramebufferError::spec_from_vk_result(-1i32) == Some(FramebufferError::ERROR_OUT_OF_HOST_MEMORY),
        FramebufferError::spec_from_vk_result(-2i32) == Some(FramebufferError::ERROR_OUT_OF_DEVICE_MEMORY),
        FramebufferError::spec_from_vk_result(0i32) is None,
        forall|code: i32| #[trigger] FramebufferError::spec_from_vk_result(code) is Some ==> (code == -1i32 || code == -2i32),
{
}

} // verus!
