//! Descriptor set writes: what each kind of write updates, and its checks.

use vstd::prelude::*;

use super::error::{DescriptorImageInfoError, DescriptorInlineUniformBlockInfoError, DescriptorSetWriteError};
use crate::descriptor::layout::params::{
    DESCRIPTOR_TYPE_COMBINED_IMAGE_SAMPLER, DESCRIPTOR_TYPE_INLINE_UNIFORM_BLOCK_EXT,
    DESCRIPTOR_TYPE_INPUT_ATTACHMENT, DESCRIPTOR_TYPE_SAMPLED_IMAGE, DESCRIPTOR_TYPE_SAMPLER,
    DESCRIPTOR_TYPE_STORAGE_BUFFER, DESCRIPTOR_TYPE_STORAGE_BUFFER_DYNAMIC,
    DESCRIPTOR_TYPE_STORAGE_IMAGE, DESCRIPTOR_TYPE_STORAGE_TEXEL_BUFFER,
    DESCRIPTOR_TYPE_UNIFORM_BUFFER, DESCRIPTOR_TYPE_UNIFORM_BUFFER_DYNAMIC,
    DESCRIPTOR_TYPE_UNIFORM_TEXEL_BUFFER,
};

verus! {

/// An image (and its sampler) for a descriptor write, by raw handles.
#[derive(Clone, Copy, Debug, PartialEq, Eq, Structural)]
pub struct DescriptorImageInfo {
    /// Raw sampler handle; 0 when the layout's immutable sampler is used.
    pub sampler: u64,
    pub image_view: u64,
    /// Raw `vk::ImageLayout`.
    pub image_layout: i32,
}

impl DescriptorImageInfo {
    /// Describes `image_view` in `image_layout`, sampled by `sampler`.
    ///
    /// The sampler and the image view must come from the same device (given here by
    /// the raw handles of their devices).
    pub fn new(
        sampler: u64,
        sampler_device: u64,
        image_view: u64,
        image_view_device: u64,
        image_layout: i32,
    ) -> (r: Result<Self, DescriptorImageInfoError>)
        ensures
            sampler_device != image_view_device ==> r == Err::<Self, DescriptorImageInfoError>(
                DescriptorImageInfoError::SamplerImageViewDeviceMismatch,
            ),
            sampler_device == image_view_device ==> r == Ok::<Self, DescriptorImageInfoError>(
                DescriptorImageInfo { sampler, image_view, image_layout },
            ),
    {
        if sampler_device != image_view_device {
            return Err(DescriptorImageInfoError::SamplerImageViewDeviceMismatch);
        }
        Ok(DescriptorImageInfo { sampler, image_view, image_layout })
    }

    /// Describes `image_view` in `image_layout`, for a binding with an immutable sampler.
    pub fn with_immutable_sampler(image_view: u64, image_layout: i32) -> (r: Self)
        ensures
            r == (DescriptorImageInfo { sampler: 0, image_view, image_layout }),
    {
        DescriptorImageInfo { sampler: 0, image_view, image_layout }
    }
}

/// A buffer range for a descriptor write, by raw handle.
#[derive(Clone, Copy, Debug, PartialEq, Eq, Structural)]
pub struct DescriptorBufferInfo {
    pub buffer: u64,
    pub offset: u64,
    pub range: u64,
}

impl DescriptorBufferInfo {
    /// Describes `range` bytes of `buffer` from `offset`.
    pub fn new(buffer: u64, offset: u64, range: u64) -> (r: Self)
        ensures
            r == (DescriptorBufferInfo { buffer, offset, range }),
    {
        DescriptorBufferInfo { buffer, offset, range }
    }
}

/// Descriptor types that take images.
#[allow(non_camel_case_types)]
#[derive(Clone, Copy, Debug, PartialEq, Eq, Structural)]
pub enum DescriptorTypeImage {
    SAMPLER,
    COMBINED_IMAGE_SAMPLER,
    SAMPLED_IMAGE,
    STORAGE_IMAGE,
    INPUT_ATTACHMENT,
}

impl DescriptorTypeImage {
    pub open spec fn spec_into(self) -> i32 {
        match self {
            DescriptorTypeImage::SAMPLER => DESCRIPTOR_TYPE_SAMPLER,
            DescriptorTypeImage::COMBINED_IMAGE_SAMPLER => DESCRIPTOR_TYPE_COMBINED_IMAGE_SAMPLER,
            DescriptorTypeImage::SAMPLED_IMAGE => DESCRIPTOR_TYPE_SAMPLED_IMAGE,
            DescriptorTypeImage::STORAGE_IMAGE => DESCRIPTOR_TYPE_STORAGE_IMAGE,
            DescriptorTypeImage::INPUT_ATTACHMENT => DESCRIPTOR_TYPE_INPUT_ATTACHMENT,
        }
    }

    /// The `vk::DescriptorType` this value stands for.
    pub fn into(self) -> (r: i32)
        ensures
            r == self.spec_into(),
            self == DescriptorTypeImage::SAMPLER ==> r == 0,
            self == DescriptorTypeImage::COMBINED_IMAGE_SAMPLER ==> r == 1,
            self == DescriptorTypeImage::SAMPLED_IMAGE ==> r == 2,
            self == DescriptorTypeImage::STORAGE_IMAGE ==> r == 3,
            self == DescriptorTypeImage::INPUT_ATTACHMENT ==> r == 10,
    {
        match self {
            DescriptorTypeImage::SAMPLER => DESCRIPTOR_TYPE_SAMPLER,
            DescriptorTypeImage::COMBINED_IMAGE_SAMPLER => DESCRIPTOR_TYPE_COMBINED_IMAGE_SAMPLER,
            DescriptorTypeImage::SAMPLED_IMAGE => DESCRIPTOR_TYPE_SAMPLED_IMAGE,
            DescriptorTypeImage::STORAGE_IMAGE => DESCRIPTOR_TYPE_STORAGE_IMAGE,
            DescriptorTypeImage::INPUT_ATTACHMENT => DESCRIPTOR_TYPE_INPUT_ATTACHMENT,
        }
    }
}

/// Descriptor types that take buffer ranges.
#[allow(non_camel_case_types)]
#[derive(Clone, Copy, Debug, PartialEq, Eq, Structural)]
pub enum DescriptorTypeBuffer {
    UNIFORM_BUFFER,
    STORAGE_BUFFER,
    UNIFORM_BUFFER_DYNAMIC,
    STORAGE_BUFFER_DYNAMIC,
}

impl DescriptorTypeBuffer {
    pub open spec fn spec_into(self) -> i32 {
        match self {
            DescriptorTypeBuffer::UNIFORM_BUFFER => DESCRIPTOR_TYPE_UNIFORM_BUFFER,
            DescriptorTypeBuffer::STORAGE_BUFFER => DESCRIPTOR_TYPE_STORAGE_BUFFER,
            DescriptorTypeBuffer::UNIFORM_BUFFER_DYNAMIC => DESCRIPTOR_TYPE_UNIFORM_BUFFER_DYNAMIC,
            DescriptorTypeBuffer::STORAGE_BUFFER_DYNAMIC => DESCRIPTOR_TYPE_STORAGE_BUFFER_DYNAMIC,
        }
    }

    /// The `vk::DescriptorType` this value stands for.
    pub fn into(self) -> (r: i32)
        ensures
            r == self.spec_into(),
            self == DescriptorTypeBuffer::UNIFORM_BUFFER ==> r == 6,
            self == DescriptorTypeBuffer::STORAGE_BUFFER ==> r == 7,
            self == DescriptorTypeBuffer::UNIFORM_BUFFER_DYNAMIC ==> r == 8,
            self == DescriptorTypeBuffer::STORAGE_BUFFER_DYNAMIC ==> r == 9,
    {
        match self {
            DescriptorTypeBuffer::UNIFORM_BUFFER => DESCRIPTOR_TYPE_UNIFORM_BUFFER,
            DescriptorTypeBuffer::STORAGE_BUFFER => DESCRIPTOR_TYPE_STORAGE_BUFFER,
            DescriptorTypeBuffer::UNIFORM_BUFFER_DYNAMIC => DESCRIPTOR_TYPE_UNIFORM_BUFFER_DYNAMIC,
            DescriptorTypeBuffer::STORAGE_BUFFER_DYNAMIC => DESCRIPTOR_TYPE_STORAGE_BUFFER_DYNAMIC,
        }
    }
}

/// Descriptor types that take texel buffer views.
#[allow(non_camel_case_types)]
#[derive(Clone, Copy, Debug, PartialEq, Eq, Structural)]
pub enum DescriptorTypeTexelBuffer {
    UNIFORM_TEXEL_BUFFER,
    STORAGE_TEXEL_BUFFER,
}

impl DescriptorTypeTexelBuffer {
    pub open spec fn spec_into(self) -> i32 {
        match self {
            DescriptorTypeTexelBuffer::UNIFORM_TEXEL_BUFFER => DESCRIPTOR_TYPE_UNIFORM_TEXEL_BUFFER,
            DescriptorTypeTexelBuffer::STORAGE_TEXEL_BUFFER => DESCRIPTOR_TYPE_STORAGE_TEXEL_BUFFER,
        }
    }

    /// The `vk::DescriptorType` this value stands for.
    pub fn into(self) -> (r: i32)
        ensures
            r == self.spec_into(),
            self == DescriptorTypeTexelBuffer::UNIFORM_TEXEL_BUFFER ==> r == 4,
            self == DescriptorTypeTexelBuffer::STORAGE_TEXEL_BUFFER ==> r == 5,
    {
        match self {
            DescriptorTypeTexelBuffer::UNIFORM_TEXEL_BUFFER => DESCRIPTOR_TYPE_UNIFORM_TEXEL_BUFFER,
            DescriptorTypeTexelBuffer::STORAGE_TEXEL_BUFFER => DESCRIPTOR_TYPE_STORAGE_TEXEL_BUFFER,
        }
    }
}

/// The data of an inline uniform block write.
#[derive(Clone, Copy, Debug, PartialEq, Eq)]
pub struct DescriptorInlineUniformBlockInfo<'a> {
    data: &'a [u8],
}

impl<'a> DescriptorInlineUniformBlockInfo<'a> {
    pub closed spec fn data_view(&self) -> Seq<u8> {
        self.data@
    }

    /// Wraps the bytes to write into an inline uniform block: there must be some,
    /// and a whole number of four-byte words.
    pub fn new(data: &'a [u8]) -> (r: Result<Self, DescriptorInlineUniformBlockInfoError>)
        ensures
            data@.len() == 0 ==> r == Err::<Self, DescriptorInlineUniformBlockInfoError>(
                DescriptorInlineUniformBlockInfoError::DataEmpty,
            ),
            data@.len() != 0 && data@.len() % 4 != 0 ==> r == Err::<Self, DescriptorInlineUniformBlockInfoError>(
                DescriptorInlineUniformBlockInfoError::SizeNotMultipleOfFour,
            ),
            data@.len() != 0 && data@.len() % 4 == 0 ==> (r matches Ok(info) && info.data_view() == data@),
    {
        if data.len() == 0 {
            return Err(DescriptorInlineUniformBlockInfoError::DataEmpty);
        }
        if data.len() % 4 != 0 {
            return Err(DescriptorInlineUniformBlockInfoError::SizeNotMultipleOfFour);
        }
        Ok(DescriptorInlineUniformBlockInfo { data })
    }

    /// The bytes to write.
    pub fn data(&self) -> (r: &'a [u8])
        ensures
            r@ == self.data_view(),
    {
        self.data
    }

    /// The number of bytes to write, as Vulkan counts them.
    pub fn data_size(&self) -> (r: u32)
        ensures
            r == self.data_view().len() as u32,
    {
        self.data.len() as u32
    }
}

/// A mutable borrow of an inline uniform block info, as an inline uniform block
/// write takes it.
#[derive(Debug)]
pub struct DescriptorInlineUniformBlockInfoRefMut<'a>(pub &'a mut DescriptorInlineUniformBlockInfo<'a>);

/// The descriptors one write updates.
#[derive(Debug)]
pub enum DescriptorSetWriteData<'a> {
    /// `(descriptor_type, image_infos)`.
    Image(DescriptorTypeImage, &'a [DescriptorImageInfo]),
    /// `(descriptor_type, buffer_infos)`.
    Buffer(DescriptorTypeBuffer, &'a [DescriptorBufferInfo]),
    /// `(descriptor_type, texel_buffer_views)`, the views by raw handle.
    TexelBuffer(DescriptorTypeTexelBuffer, &'a [u64]),
    /// `(info)`.
    InlineUniformBlock(DescriptorInlineUniformBlockInfoRefMut<'a>),
}

impl<'a> DescriptorSetWriteData<'a> {
    /// The descriptor type the write updates.
    pub open spec fn spec_descriptor_type(self) -> i32 {
        match self {
            DescriptorSetWriteData::Image(t, _) => t.spec_into(),
            DescriptorSetWriteData::Buffer(t, _) => t.spec_into(),
            DescriptorSetWriteData::TexelBuffer(t, _) => t.spec_into(),
            DescriptorSetWriteData::InlineUniformBlock(_) => DESCRIPTOR_TYPE_INLINE_UNIFORM_BLOCK_EXT,
        }
    }

    /// The descriptor count of the write: the number of infos or views, or the byte
    /// size of an inline uniform block.
    pub open spec fn spec_descriptor_count(self) -> u32 {
        match self {
            DescriptorSetWriteData::Image(_, infos) => infos@.len() as u32,
            DescriptorSetWriteData::Buffer(_, infos) => infos@.len() as u32,
            DescriptorSetWriteData::TexelBuffer(_, views) => views@.len() as u32,
            DescriptorSetWriteData::InlineUniformBlock(info) => info.0.data_view().len() as u32,
        }
    }

    /// The `vk::DescriptorType` the write updates.
    pub fn descriptor_type(&self) -> (r: i32)
        ensures
            r == self.spec_descriptor_type(),
    {
        match self {
            DescriptorSetWriteData::Image(t, _) => (*t).into(),
            DescriptorSetWriteData::Buffer(t, _) => (*t).into(),
            DescriptorSetWriteData::TexelBuffer(t, _) => (*t).into(),
            DescriptorSetWriteData::InlineUniformBlock(_) => DESCRIPTOR_TYPE_INLINE_UNIFORM_BLOCK_EXT,
        }
    }

    /// The number of descriptors the write updates.
    pub fn descriptor_count(&self) -> (r: u32)
        ensures
            r == self.spec_descriptor_count(),
    {
        match self {
            DescriptorSetWriteData::Image(_, infos) => infos.len() as u32,
            DescriptorSetWriteData::Buffer(_, infos) => infos.len() as u32,
            DescriptorSetWriteData::TexelBuffer(_, views) => views.len() as u32,
            DescriptorSetWriteData::InlineUniformBlock(info) => info.0.data_size(),
        }
    }
}

/// One descriptor set write.
#[derive(Debug)]
pub struct DescriptorSetWrite<'a> {
    /// Raw handle of the updated set.
    pub descriptor_set: u64,
    pub binding: u32,
    pub array_element: u32,
    pub descriptor_type: i32,
    pub descriptor_count: u32,
    pub data: DescriptorSetWriteData<'a>,
}

impl<'a> DescriptorSetWrite<'a> {
    /// Describes writing `data` into `descriptor_set` at `binding`, from
    /// `array_element` on. A write must update at least one descriptor.
    pub fn new(
        descriptor_set: u64,
        binding: u32,
        array_element: u32,
        data: DescriptorSetWriteData<'a>,
    ) -> (r: Result<Self, DescriptorSetWriteError>)
        ensures
            data.spec_descriptor_count() == 0 ==> r == Err::<Self, DescriptorSetWriteError>(
                DescriptorSetWriteError::ZeroCount,
            ),
            data.spec_descriptor_count() != 0 ==> r == Ok::<Self, DescriptorSetWriteError>(
                DescriptorSetWrite {
                    descriptor_set,
                    binding,
                    array_element,
                    descriptor_type: data.spec_descriptor_type(),
                    descriptor_count: data.spec_descriptor_count(),
                    data,
                },
            ),
    {
        let descriptor_count = data.descriptor_count();
        if descriptor_count == 0 {
            return Err(DescriptorSetWriteError::ZeroCount);
        }
        Ok(
            DescriptorSetWrite {
                descriptor_set,
                binding,
                array_element,
                descriptor_type: data.descriptor_type(),
                descriptor_count,
                data,
            },
        )
    }
}

/// One descriptor set copy.
#[derive(Clone, Copy, Debug, PartialEq, Eq, Structural)]
pub struct DescriptorSetCopy {
    pub source_set: u64,
    pub source_binding: u32,
    pub source_array_element: u32,
    pub destination_set: u64,
    pub destination_binding: u32,
    pub destination_array_element: u32,
    pub count: u32,
}

impl DescriptorSetCopy {
    /// Describes copying `count` descriptors between two sets.
    pub fn new(
        source_set: u64,
        source_binding: u32,
        source_array_element: u32,
        destination_set: u64,
        destination_binding: u32,
        destination_array_element: u32,
        count: u32,
    ) -> (r: Self)
        ensures
            r == (DescriptorSetCopy {
                source_set,
                source_binding,
                source_array_element,
                destination_set,
                destination_binding,
                destination_array_element,
                count,
            }),
    {
        DescriptorSetCopy {
            source_set,
            source_binding,
            source_array_element,
            destination_set,
            destination_binding,
            destination_array_element,
            count,
        }
    }
}

/// Each image, buffer and texel buffer descriptor type stands for the raw
/// `vk::DescriptorType` of the same name.
pub proof fn lemma_descriptor_type_values()
    ensures
        DescriptorTypeImage::SAMPLER.spec_into() == 0,
        DescriptorTypeImage::COMBINED_IMAGE_SAMPLER.spec_into() == 1,
        DescriptorTypeImage::SAMPLED_IMAGE.spec_into() == 2,
        DescriptorTypeImage::STORAGE_IMAGE.spec_into() == 3,
        DescriptorTypeImage::INPUT_ATTACHMENT.spec_into() == 10,
        DescriptorTypeTexelBuffer::UNIFORM_TEXEL_BUFFER.spec_into() == 4,
        DescriptorTypeTexelBuffer::STORAGE_TEXEL_BUFFER.spec_into() == 5,
        DescriptorTypeBuffer::UNIFORM_BUFFER.spec_into() == 6,
        DescriptorTypeBuffer::STORAGE_BUFFER.spec_into() == 7,
        DescriptorTypeBuffer::UNIFORM_BUFFER_DYNAMIC.spec_into() == 8,
        DescriptorTypeBuffer::STORAGE_BUFFER_DYNAMIC.spec_into() == 9,
{
}

/// Different descriptor types stay different: no two image types, buffer types or
/// texel buffer types share a `vk::DescriptorType`, and the three kinds never overlap.
pub proof fn lemma_descriptor_types_distinct(
    i1: DescriptorTypeImage,
    i2: DescriptorTypeImage,
    b1: DescriptorTypeBuffer,
    b2: DescriptorTypeBuffer,
    t1: DescriptorTypeTexelBuffer,
    t2: DescriptorTypeTexelBuffer,
)
    ensures
        i1 != i2 ==> i1.spec_into() != i2.spec_into(),
        b1 != b2 ==> b1.spec_into() != b2.spec_into(),
        t1 != t2 ==> t1.spec_into() != t2.spec_into(),
        i1.spec_into() != b1.spec_into(),
        i1.spec_into() != t1.spec_into(),
        b1.spec_into() != t1.spec_into(),
{
}

/// A successful write updates the descriptor type of its data (an inline uniform
/// block is type 1000138000) and as many descriptors as the data holds: the number of
/// image infos, buffer infos or texel buffer views, or the byte size of the block.
pub proof fn lemma_write_type_and_count(data: DescriptorSetWriteData)
    ensures
        data matches DescriptorSetWriteData::Image(t, infos) ==> data.spec_descriptor_type() == t.spec_into()
            && data.spec_descriptor_count() == infos@.len() as u32,
        data matches DescriptorSetWriteData::Buffer(t, infos) ==> data.spec_descriptor_type() == t.spec_into()
            && data.spec_descriptor_count() == infos@.len() as u32,
        data matches DescriptorSetWriteData::TexelBuffer(t, views) ==> data.spec_descriptor_type()
            == t.spec_into() && data.spec_descriptor_count() == views@.len() as u32,
        data matches DescriptorSetWriteData::InlineUniformBlock(info) ==> data.spec_descriptor_type()
            == 1000138000i32 && data.spec_descriptor_count() == info.0.data_view().len() as u32,
{
}

} // verus!
