//! Errors of pipeline and pipeline layout creation.

use vstd::prelude::*;

use crate::util::{
    ERROR_INVALID_SHADER_NV, ERROR_OUT_OF_DEVICE_MEMORY, ERROR_OUT_OF_HOST_MEMORY,
    ERROR_PIPELINE_COMPILE_REQUIRED_EXT,
};

verus! {

/// Errors of creating a pipeline layout.
#[allow(non_camel_case_types)]
#[derive(Clone, Copy, Debug, PartialEq, Eq, Structural)]
pub enum PipelineLayoutError {
    ERROR_OUT_OF_HOST_MEMORY,
    ERROR_OUT_OF_DEVICE_MEMORY,
    /// Stage flags field of push constant range must not be empty.
    StageFlagsEmpty,
}

impl PipelineLayoutError {
    pub open spec fn spec_from_vk_result(code: i32) -> Option<PipelineLayoutError> {
        if code == ERROR_OUT_OF_HOST_MEMORY {
            Some(PipelineLayoutError::ERROR_OUT_OF_HOST_MEMORY)
        } else if code == ERROR_OUT_OF_DEVICE_MEMORY {
            Some(PipelineLayoutError::ERROR_OUT_OF_DEVICE_MEMORY)
        } else {
            None
        }
    }

    /// Converts a `vk::Result` code; `None` for codes this error does not list.
    pub fn from_vk_result(code: i32) -> (r: Option<PipelineLayoutError>)
        ensures
            r == Self::spec_from_vk_result(code),
    {
        if code == ERROR_OUT_OF_HOST_MEMORY {
            Some(PipelineLayoutError::ERROR_OUT_OF_HOST_MEMORY)
        } else if code == ERROR_OUT_OF_DEVICE_MEMORY {
            Some(PipelineLayoutError::ERROR_OUT_OF_DEVICE_MEMORY)
        } else {
            None
        }
    }
}

/// Errors of creating a graphics pipeline.
#[allow(non_camel_case_types)]
#[derive(Clone, Copy, Debug, PartialEq, Eq, Structural)]
pub enum GraphicsPipelineError {
    ERROR_PIPELINE_COMPILE_REQUIRED_EXT,
    ERROR_OUT_OF_HOST_MEMORY,
    ERROR_OUT_OF_DEVICE_MEMORY,
    ERROR_INVALID_SHADER_NV,
    /// Stage flags field of push constant range must not be empty.
    StageFlagsEmpty,
}

impl GraphicsPipelineError {
    pub open spec fn spec_from_vk_result(code: i32) -> Option<GraphicsPipelineError> {
        if code == ERROR_PIPELINE_COMPILE_REQUIRED_EXT {
            Some(GraphicsPipelineError::ERROR_PIPELINE_COMPILE_REQUIRED_EXT)
        } else if code == ERROR_OUT_OF_HOST_MEMORY {
            Some(GraphicsPipelineError::ERROR_OUT_OF_HOST_MEMORY)
        } else if code == ERROR_OUT_OF_DEVICE_MEMORY {
            Some(GraphicsPipelineError::ERROR_OUT_OF_DEVICE_MEMORY)
        } else if code == ERROR_INVALID_SHADER_NV {
            Some(GraphicsPipelineError::ERROR_INVALID_SHADER_NV)
        } else {
            None
        }
    }

    /// Converts a `vk::Result` code; `None` for codes this error does not list.
    pub fn from_vk_result(code: i32) -> (r: Option<GraphicsPipelineError>)
        ensures
            r == Self::spec_from_vk_result(code),
    {
        if code == ERROR_PIPELINE_COMPILE_REQUIRED_EXT {
            Some(GraphicsPipelineError::ERROR_PIPELINE_COMPILE_REQUIRED_EXT)
        } else if code == ERROR_OUT_OF_HOST_MEMORY {
            Some(GraphicsPipelineError::ERROR_OUT_OF_HOST_MEMORY)
        } else if code == ERROR_OUT_OF_DEVICE_MEMORY {
            Some(GraphicsPipelineError::ERROR_OUT_OF_DEVICE_MEMORY)
        } else if code == ERROR_INVALID_SHADER_NV {
            Some(GraphicsPipelineError::ERROR_INVALID_SHADER_NV)
        } else {
            None
        }
    }
}

/// The `vk::Result` codes that are a `PipelineLayoutError`: each listed code is the error of the
/// same name (ERROR_OUT_OF_HOST_MEMORY (-1), ERROR_OUT_OF_DEVICE_MEMORY (-2)); success (0) and every other code is none.
pub proof fn lemma_pipeline_layout_error_codes()
    ensures
        PipelineLayoutError::spec_from_vk_result(-1i32) == Some(PipelineLayoutError::ERROR_OUT_OF_HOST_MEMORY),
        PipelineLayoutError::spec_from_vk_result(-2i32) == Some(PipelineLayoutError::ERROR_OUT_OF_DEVICE_MEMORY),
        PipelineLayoutError::spec_from_vk_result(0i32) is None,
        forall|code: i32| #[trigger] PipelineLayoutError::spec_from_vk_result(code) is Some ==> (code == -1i32 || code == -2i32),
{
}

/// The `vk::Result` codes that are a `GraphicsPipelineError`: each listed code is the error of the
/// same name (ERROR_PIPELINE_COMPILE_REQUIRED_EXT (1000297000), ERROR_OUT_OF_HOST_MEMORY (-1), ERROR_OUT_OF_DEVICE_MEMORY (-2), ERROR_INVALID_SHADER_NV (-1000012000)); success (0) and every other code is none.
pub proof fn lemma_graphics_pipeline_error_codes()
    ensures
        GraphicsPipelineError::spec_from_vk_result(1000297000i32) == Some(GraphicsPipelineError::ERROR_PIPELINE_COMPILE_REQUIRED_EXT),
        GraphicsPipelineError::spec_from_vk_result(-1i32) == Some(GraphicsPipelineError::ERROR_OUT_OF_HOST_MEMORY),
        GraphicsPipelineError::spec_from_vk_result(-2i32) == Some(GraphicsPipelineError::ERROR_OUT_OF_DEVICE_MEMORY),
        GraphicsPipelineError::spec_from_vk_result(-1000012000i32) == Some(GraphicsPipelineError::ERROR_INVALID_SHADER_NV),
        GraphicsPipelineError::spec_from_vk_result(0i32) is None,
        forall|code: i32| #[trigger] GraphicsPipelineError::spec_from_vk_result(code) is Some ==> (code == 1000297000i32 || code == -1i32 || code == -2i32 || code == -1000012000i32),
{
}

} // verus!
