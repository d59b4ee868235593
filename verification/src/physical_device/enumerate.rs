//! Plain-value forms of the properties a physical device reports.

use arrayvec::ArrayVec;
use std::str::Utf8Error;
use vstd::prelude::*;

use crate::entry::enumerate::{readable, string_bytes, ExtensionProperties};
use crate::util::{
    string::VkSmallString, VkVersion, ERROR_FORMAT_NOT_SUPPORTED, ERROR_OUT_OF_DEVICE_MEMORY,
    ERROR_OUT_OF_HOST_MEMORY,
};

verus! {

/// Errors of enumerating device extensions.
#[allow(non_camel_case_types)]
#[derive(Clone, Copy, Debug, PartialEq, Eq, Structural)]
pub enum EnumerateError {
    ERROR_OUT_OF_HOST_MEMORY,
    ERROR_OUT_OF_DEVICE_MEMORY,
}

impl EnumerateError {
    pub open spec fn spec_from_vk_result(code: i32) -> Option<EnumerateError> {
        if code == ERROR_OUT_OF_HOST_MEMORY {
            Some(EnumerateError::ERROR_OUT_OF_HOST_MEMORY)
        } else if code == ERROR_OUT_OF_DEVICE_MEMORY {
            Some(EnumerateError::ERROR_OUT_OF_DEVICE_MEMORY)
        } else {
            None
        }
    }

    /// Converts a `vk::Result` code; `None` for codes this error does not list.
    pub fn from_vk_result(code: i32) -> (r: Option<EnumerateError>)
        ensures
            r == Self::spec_from_vk_result(code),
    {
        if code == ERROR_OUT_OF_HOST_MEMORY {
            Some(EnumerateError::ERROR_OUT_OF_HOST_MEMORY)
        } else if code == ERROR_OUT_OF_DEVICE_MEMORY {
            Some(EnumerateError::ERROR_OUT_OF_DEVICE_MEMORY)
        } else {
            None
        }
    }
}

/// Errors of querying image format properties.
#[allow(non_camel_case_types)]
#[derive(Clone, Copy, Debug, PartialEq, Eq, Structural)]
pub enum ImageFormatPropertiesError {
    ERROR_OUT_OF_HOST_MEMORY,
    ERROR_OUT_OF_DEVICE_MEMORY,
    ERROR_FORMAT_NOT_SUPPORTED,
}

impl ImageFormatPropertiesError {
    pub open spec fn spec_from_vk_result(code: i32) -> Option<ImageFormatPropertiesError> {
        if code == ERROR_OUT_OF_HOST_MEMORY {
            Some(ImageFormatPropertiesError::ERROR_OUT_OF_HOST_MEMORY)
        } else if code == ERROR_OUT_OF_DEVICE_MEMORY {
            Some(ImageFormatPropertiesError::ERROR_OUT_OF_DEVICE_MEMORY)
        } else if code == ERROR_FORMAT_NOT_SUPPORTED {
            Some(ImageFormatPropertiesError::ERROR_FORMAT_NOT_SUPPORTED)
        } else {
            None
        }
    }

    /// Converts a `vk::Result` code; `None` for codes this error does not list.
    pub fn from_vk_result(code: i32) -> (r: Option<ImageFormatPropertiesError>)
        ensures
            r == Self::spec_from_vk_result(code),
    {
        if code == ERROR_OUT_OF_HOST_MEMORY {
            Some(ImageFormatPropertiesError::ERROR_OUT_OF_HOST_MEMORY)
        } else if code == ERROR_OUT_OF_DEVICE_MEMORY {
            Some(ImageFormatPropertiesError::ERROR_OUT_OF_DEVICE_MEMORY)
        } else if code == ERROR_FORMAT_NOT_SUPPORTED {
            Some(ImageFormatPropertiesError::ERROR_FORMAT_NOT_SUPPORTED)
        } else {
            None
        }
    }
}

/// A device extension.
#[derive(Clone, Copy, Debug)]
pub struct DeviceExtensionProperties {
    pub extension_name: VkSmallString,
    pub spec_version: VkVersion,
}

impl DeviceExtensionProperties {
    /// Reads extension properties; fails when the name is not valid UTF-8.
    pub fn try_from(value: ExtensionProperties) -> (r: Result<Self, Utf8Error>)
        ensures
            r is Ok <==> readable(value.extension_name),
            r matches Ok(p) ==> {
                &&& p.extension_name.bytes_view() == string_bytes(value.extension_name)
                &&& p.spec_version.0 == value.spec_version
            },
    {
        let extension_name = VkSmallString::try_from(value.extension_name)?;
        Ok(DeviceExtensionProperties { extension_name, spec_version: VkVersion(value.spec_version) })
    }
}


/// One memory type of a physical device.
#[derive(Clone, Copy, Debug, PartialEq, Eq, Structural)]
pub struct MemoryType {
    /// Raw `vk::MemoryPropertyFlags` bits.
    pub property_flags: u32,
    /// Index of the heap this type allocates from.
    pub heap_index: u32,
}

/// One memory heap of a physical device.
#[derive(Clone, Copy, Debug, PartialEq, Eq, Structural)]
pub struct MemoryHeap {
    /// Size of the heap in bytes.
    pub size: u64,
    /// Raw `vk::MemoryHeapFlags` bits.
    pub flags: u32,
}

/// The memory types of a device, held in an `arrayvec::ArrayVec` of capacity 32.
#[derive(Debug)]
#[verifier::external_body]
pub struct MemoryTypeList {
    list: ArrayVec<[MemoryType; 32]>,
}

/// The memory heaps of a device, held in an `arrayvec::ArrayVec` of capacity 16.
#[derive(Debug)]
#[verifier::external_body]
pub struct MemoryHeapList {
    list: ArrayVec<[MemoryHeap; 16]>,
}

/// What a list of memory types holds, in order.
pub uninterp spec fn memory_type_entries(v: MemoryTypeList) -> Seq<MemoryType>;

/// What a list of memory heaps holds, in order.
pub uninterp spec fn memory_heap_entries(v: MemoryHeapList) -> Seq<MemoryHeap>;

/// `ArrayVec::from` on a full array: the vector holds every element of the array, in order.
#[verifier::external_body]
fn memory_types_from_array(array: [MemoryType; 32]) -> (r: MemoryTypeList)
    ensures
        memory_type_entries(r) == array@,
{
    MemoryTypeList { list: ArrayVec::from(array) }
}

/// `ArrayVec::truncate`: keeps the first `new_len` elements; does nothing when
/// `new_len` is not below the length.
#[verifier::external_body]
fn memory_types_truncate(v: &mut MemoryTypeList, new_len: usize)
    ensures
        memory_type_entries(*final(v)) == if new_len < memory_type_entries(*old(v)).len() {
            memory_type_entries(*old(v)).take(new_len as int)
        } else {
            memory_type_entries(*old(v))
        },
{
    v.list.truncate(new_len)
}

/// `ArrayVec::as_slice`: the elements, in order; never more than the capacity.
#[verifier::external_body]
fn memory_types_as_slice(v: &MemoryTypeList) -> (r: &[MemoryType])
    ensures
        r@ == memory_type_entries(*v),
        r@.len() <= 32,
{
    v.list.as_slice()
}

/// `ArrayVec::from` on a full array: the vector holds every element of the array, in order.
#[verifier::external_body]
fn memory_heaps_from_array(array: [MemoryHeap; 16]) -> (r: MemoryHeapList)
    ensures
        memory_heap_entries(r) == array@,
{
    MemoryHeapList { list: ArrayVec::from(array) }
}

/// `ArrayVec::truncate`: keeps the first `new_len` elements; does nothing when
/// `new_len` is not below the length.
#[verifier::external_body]
fn memory_heaps_truncate(v: &mut MemoryHeapList, new_len: usize)
    ensures
        memory_heap_entries(*final(v)) == if new_len < memory_heap_entries(*old(v)).len() {
            memory_heap_entries(*old(v)).take(new_len as int)
        } else {
            memory_heap_entries(*old(v))
        },
{
    v.list.truncate(new_len)
}

/// `ArrayVec::as_slice`: the elements, in order; never more than the capacity.
#[verifier::external_body]
fn memory_heaps_as_slice(v: &MemoryHeapList) -> (r: &[MemoryHeap])
    ensures
        r@ == memory_heap_entries(*v),
        r@.len() <= 16,
{
    v.list.as_slice()
}

/// `ArrayVec::clone`: a vector with the same elements (the elements are `Copy`).
#[verifier::external_body]
fn memory_types_clone(v: &MemoryTypeList) -> (r: MemoryTypeList)
    ensures
        memory_type_entries(r) == memory_type_entries(*v),
{
    MemoryTypeList { list: v.list.clone() }
}

/// `ArrayVec::clone`: a vector with the same elements (the elements are `Copy`).
#[verifier::external_body]
fn memory_heaps_clone(v: &MemoryHeapList) -> (r: MemoryHeapList)
    ensures
        memory_heap_entries(r) == memory_heap_entries(*v),
{
    MemoryHeapList { list: v.list.clone() }
}

/// The memory types and heaps of a physical device.
#[derive(Debug)]
pub struct PhysicalDeviceMemoryProperties {
    pub memory_types: MemoryTypeList,
    pub memory_heaps: MemoryHeapList,
}

impl Clone for PhysicalDeviceMemoryProperties {
    fn clone(&self) -> (r: Self)
        ensures
            r.types_view() == self.types_view(),
            r.heaps_view() == self.heaps_view(),
    {
        PhysicalDeviceMemoryProperties {
            memory_types: memory_types_clone(&self.memory_types),
            memory_heaps: memory_heaps_clone(&self.memory_heaps),
        }
    }
}

impl PhysicalDeviceMemoryProperties {
    /// The memory types, in order.
    pub open spec fn types_view(&self) -> Seq<MemoryType> {
        memory_type_entries(self.memory_types)
    }

    /// The memory heaps, in order.
    pub open spec fn heaps_view(&self) -> Seq<MemoryHeap> {
        memory_heap_entries(self.memory_heaps)
    }

    /// Builds the properties from the fixed-size arrays Vulkan reports and the
    /// number of valid entries in each: the first `memory_type_count` types and the
    /// first `memory_heap_count` heaps.
    pub fn from_raw(
        memory_types: [MemoryType; 32],
        memory_type_count: u32,
        memory_heaps: [MemoryHeap; 16],
        memory_heap_count: u32,
    ) -> (r: Self)
        requires
            memory_type_count <= 32,
            memory_heap_count <= 16,
        ensures
            r.types_view() == memory_types@.take(memory_type_count as int),
            r.heaps_view() == memory_heaps@.take(memory_heap_count as int),
    {
        let mut types = memory_types_from_array(memory_types);
        memory_types_truncate(&mut types, memory_type_count as usize);
        let mut heaps = memory_heaps_from_array(memory_heaps);
        memory_heaps_truncate(&mut heaps, memory_heap_count as usize);
        proof {
            assert(memory_types@.take(32) =~= memory_types@);
            assert(memory_heaps@.take(16) =~= memory_heaps@);
        }
        PhysicalDeviceMemoryProperties { memory_types: types, memory_heaps: heaps }
    }

    /// The memory types, in order.
    pub fn memory_types(&self) -> (r: &[MemoryType])
        ensures
            r@ == self.types_view(),
            r@.len() <= 32,
    {
        memory_types_as_slice(&self.memory_types)
    }

    /// The memory heaps, in order.
    pub fn memory_heaps(&self) -> (r: &[MemoryHeap])
        ensures
            r@ == self.heaps_view(),
            r@.len() <= 16,
    {
        memory_heaps_as_slice(&self.memory_heaps)
    }
}

/// The `vk::Result` codes that are an `EnumerateError`: each listed code is the error of the
/// same name (ERROR_OUT_OF_HOST_MEMORY (-1), ERROR_OUT_OF_DEVICE_MEMORY (-2)); success (0) and every other code is none.
pub proof fn lemma_device_enumerate_error_codes()
    ensures
        EnumerateError::spec_from_vk_result(-1i32) == Some(EnumerateError::ERROR_OUT_OF_HOST_MEMORY),
        EnumerateError::spec_from_vk_result(-2i32) == Some(EnumerateError::ERROR_OUT_OF_DEVICE_MEMORY),
        EnumerateError::spec_from_vk_result(0i32) is None,
        forall|code: i32| #[trigger] EnumerateError::spec_from_vk_result(code) is Some ==> (code == -1i32 || code == -2i32),
{
}

/// The `vk::Result` codes that are an `ImageFormatPropertiesError`: each listed code is the error of the
/// same name (ERROR_OUT_OF_HOST_MEMORY (-1), ERROR_OUT_OF_DEVICE_MEMORY (-2), ERROR_FORMAT_NOT_SUPPORTED (-11)); success (0) and every other code is none.
pub proof fn lemma_image_format_properties_error_codes()
    ensures
        ImageFormatPropertiesError::spec_from_vk_result(-1i32) == Some(ImageFormatPropertiesError::ERROR_OUT_OF_HOST_MEMORY),
        ImageFormatPropertiesError::spec_from_vk_result(-2i32) == Some(ImageFormatPropertiesError::ERROR_OUT_OF_DEVICE_MEMORY),
        ImageFormatPropertiesError::spec_from_vk_result(-11i32) == Some(ImageFormatPropertiesError::ERROR_FORMAT_NOT_SUPPORTED),
        ImageFormatPropertiesError::spec_from_vk_result(0i32) is None,
        forall|code: i32| #[trigger] ImageFormatPropertiesError::spec_from_vk_result(code) is Some ==> (code == -1i32 || code == -2i32 || code == -11i32),
{
}

} // verus!
