//! Layers and extensions that an instance can be created with.

use std::str::Utf8Error;
use vstd::prelude::*;

use crate::util::{
    string::{nul_terminated_len, VkSmallString},
    VkVersion, ERROR_OUT_OF_DEVICE_MEMORY, ERROR_OUT_OF_HOST_MEMORY,
};

verus! {

/// Errors of enumerating layers and extensions.
#[allow(non_camel_case_types)]
#[derive(Clone, Copy, Debug, PartialEq, Eq, Structural)]
pub enum EnumerateError {
    ERROR_OUT_OF_HOST_MEMORY,
    ERROR_OUT_OF_DEVICE_MEMORY,
}

impl EnumerateError {
    pub open spec fn spec_from_vk_result(code: i32) -> Option<EnumerateError> {
        if code == ERROR_OUT_OF_HOST_MEMORY {
            Some(EnumerateError::ERROR_OUT_OF_HOST_MEMORY)
        } else if code == ERROR_OUT_OF_DEVICE_MEMORY {
            Some(EnumerateError::ERROR_OUT_OF_DEVICE_MEMORY)
        } else {
            None
        }
    }

    /// Converts a `vk::Result` code; `None` for codes this error does not list.
    pub fn from_vk_result(code: i32) -> (r: Option<EnumerateError>)
        ensures
            r == Self::spec_from_vk_result(code),
    {
        if code == ERROR_OUT_OF_HOST_MEMORY {
            Some(EnumerateError::ERROR_OUT_OF_HOST_MEMORY)
        } else if code == ERROR_OUT_OF_DEVICE_MEMORY {
            Some(EnumerateError::ERROR_OUT_OF_DEVICE_MEMORY)
        } else {
            None
        }
    }
}

/// `vk::LayerProperties` with its strings as raw bytes.
#[derive(Clone, Copy, Debug)]
pub struct LayerProperties {
    pub layer_name: [u8; 256],
    pub spec_version: u32,
    pub implementation_version: u32,
    pub description: [u8; 256],
}

/// `vk::ExtensionProperties` with its name as raw bytes.
#[derive(Clone, Copy, Debug)]
pub struct ExtensionProperties {
    pub extension_name: [u8; 256],
    pub spec_version: u32,
}

/// Whether the string in `raw` reads as valid UTF-8.
pub open spec fn readable(raw: [u8; 256]) -> bool {
    vstd::utf8::valid_utf8(raw@.take(nul_terminated_len(raw@)))
}

/// The bytes of the string in `raw`.
pub open spec fn string_bytes(raw: [u8; 256]) -> Seq<u8> {
    raw@.take(nul_terminated_len(raw@))
}

/// An instance layer.
#[derive(Clone, Copy, Debug)]
pub struct InstanceLayerProperties {
    pub layer_name: VkSmallString,
    pub spec_version: VkVersion,
    pub implementation_version: VkVersion,
    pub description: VkSmallString,
}

impl InstanceLayerProperties {
    /// Reads layer properties; fails when the layer name is not valid UTF-8.
    ///
    /// The `description` field is read from the layer name as well.
    pub fn try_from(value: LayerProperties) -> (r: Result<Self, Utf8Error>)
        ensures
            r is Ok <==> readable(value.layer_name),
            r matches Ok(p) ==> {
                &&& p.layer_name.bytes_view() == string_bytes(value.layer_name)
                &&& p.spec_version.0 == value.spec_version
                &&& p.implementation_version.0 == value.implementation_version
                &&& p.description.bytes_view() == string_bytes(value.layer_name)
            },
    {
        let layer_name = VkSmallString::try_from(value.layer_name)?;
        let description = VkSmallString::try_from(value.layer_name)?;
        Ok(
            InstanceLayerProperties {
                layer_name,
                spec_version: VkVersion(value.spec_version),
                implementation_version: VkVersion(value.implementation_version),
                description,
            },
        )
    }
}

/// An instance extension.
#[derive(Clone, Copy, Debug)]
pub struct InstanceExtensionProperties {
    pub extension_name: VkSmallString,
    pub spec_version: VkVersion,
}

impl InstanceExtensionProperties {
    /// Reads extension properties; fails when the name is not valid UTF-8.
    pub fn try_from(value: ExtensionProperties) -> (r: Result<Self, Utf8Error>)
        ensures
            r is Ok <==> readable(value.extension_name),
            r matches Ok(p) ==> {
                &&& p.extension_name.bytes_view() == string_bytes(value.extension_name)
                &&& p.spec_version.0 == value.spec_version
            },
    {
        let extension_name = VkSmallString::try_from(value.extension_name)?;
        Ok(InstanceExtensionProperties { extension_name, spec_version: VkVersion(value.spec_version) })
    }
}

/// The `vk::Result` codes that are an `EnumerateError`: each listed code is the error of the
/// same name (ERROR_OUT_OF_HOST_MEMORY (-1), ERROR_OUT_OF_DEVICE_MEMORY (-2)); success (0) and every other code is none.
pub proof fn lemma_instance_enumerate_error_codes()
    ensures
        EnumerateError::spec_from_vk_result(-1i32) == Some(EnumerateError::ERROR_OUT_OF_HOST_MEMORY),
        EnumerateError::spec_from_vk_result(-2i32) == Some(EnumerateError::ERROR_OUT_OF_DEVICE_MEMORY),
        EnumerateError::spec_from_vk_result(0i32) is None,
        forall|code: i32| #[trigger] EnumerateError::spec_from_vk_result(code) is Some ==> (code == -1i32 || code == -2i32),
{
}

} // verus!
