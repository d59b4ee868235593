//! The kinds of bindings a descriptor set layout can have.

use vstd::prelude::*;

verus! {

/// `vk::DescriptorType` raw values.
pub const DESCRIPTOR_TYPE_SAMPLER: i32 = 0;
pub const DESCRIPTOR_TYPE_COMBINED_IMAGE_SAMPLER: i32 = 1;
pub const DESCRIPTOR_TYPE_SAMPLED_IMAGE: i32 = 2;
pub const DESCRIPTOR_TYPE_STORAGE_IMAGE: i32 = 3;
pub const DESCRIPTOR_TYPE_UNIFORM_TEXEL_BUFFER: i32 = 4;
pub const DESCRIPTOR_TYPE_STORAGE_TEXEL_BUFFER: i32 = 5;
pub const DESCRIPTOR_TYPE_UNIFORM_BUFFER: i32 = 6;
pub const DESCRIPTOR_TYPE_STORAGE_BUFFER: i32 = 7;
pub const DESCRIPTOR_TYPE_UNIFORM_BUFFER_DYNAMIC: i32 = 8;
pub const DESCRIPTOR_TYPE_STORAGE_BUFFER_DYNAMIC: i32 = 9;
pub const DESCRIPTOR_TYPE_INPUT_ATTACHMENT: i32 = 10;
pub const DESCRIPTOR_TYPE_INLINE_UNIFORM_BLOCK_EXT: i32 = 1000138000;

/// `vk::ShaderStageFlags::FRAGMENT`.
pub const SHADER_STAGE_FRAGMENT: u32 = 0x10;

/// Descriptor types that are supported by layouts and don't require special handling.
#[allow(non_camel_case_types)]
#[derive(Clone, Copy, Debug, PartialEq, Eq, Structural)]
pub enum DescriptorSetLayoutBindingGenericType {
    SAMPLED_IMAGE,
    STORAGE_IMAGE,
    UNIFORM_TEXEL_BUFFER,
    STORAGE_TEXEL_BUFFER,
    UNIFORM_BUFFER,
    STORAGE_BUFFER,
    UNIFORM_BUFFER_DYNAMIC,
    STORAGE_BUFFER_DYNAMIC,
}

impl DescriptorSetLayoutBindingGenericType {
    pub open spec fn spec_into(self) -> i32 {
        match self {
            DescriptorSetLayoutBindingGenericType::SAMPLED_IMAGE => DESCRIPTOR_TYPE_SAMPLED_IMAGE,
            DescriptorSetLayoutBindingGenericType::STORAGE_IMAGE => DESCRIPTOR_TYPE_STORAGE_IMAGE,
            DescriptorSetLayoutBindingGenericType::UNIFORM_TEXEL_BUFFER => DESCRIPTOR_TYPE_UNIFORM_TEXEL_BUFFER,
            DescriptorSetLayoutBindingGenericType::STORAGE_TEXEL_BUFFER => DESCRIPTOR_TYPE_STORAGE_TEXEL_BUFFER,
            DescriptorSetLayoutBindingGenericType::UNIFORM_BUFFER => DESCRIPTOR_TYPE_UNIFORM_BUFFER,
            DescriptorSetLayoutBindingGenericType::STORAGE_BUFFER => DESCRIPTOR_TYPE_STORAGE_BUFFER,
            DescriptorSetLayoutBindingGenericType::UNIFORM_BUFFER_DYNAMIC => DESCRIPTOR_TYPE_UNIFORM_BUFFER_DYNAMIC,
            DescriptorSetLayoutBindingGenericType::STORAGE_BUFFER_DYNAMIC => DESCRIPTOR_TYPE_STORAGE_BUFFER_DYNAMIC,
        }
    }

    /// The `vk::DescriptorType` this value stands for.
    pub fn into(self) -> (r: i32)
        ensures
            r == self.spec_into(),
            self == DescriptorSetLayoutBindingGenericType::SAMPLED_IMAGE ==> r == 2,
            self == DescriptorSetLayoutBindingGenericType::STORAGE_IMAGE ==> r == 3,
            self == DescriptorSetLayoutBindingGenericType::UNIFORM_TEXEL_BUFFER ==> r == 4,
            self == DescriptorSetLayoutBindingGenericType::STORAGE_TEXEL_BUFFER ==> r == 5,
            self == DescriptorSetLayoutBindingGenericType::UNIFORM_BUFFER ==> r == 6,
            self == DescriptorSetLayoutBindingGenericType::STORAGE_BUFFER ==> r == 7,
            self == DescriptorSetLayoutBindingGenericType::UNIFORM_BUFFER_DYNAMIC ==> r == 8,
            self == DescriptorSetLayoutBindingGenericType::STORAGE_BUFFER_DYNAMIC ==> r == 9,
    {
        match self {
            DescriptorSetLayoutBindingGenericType::SAMPLED_IMAGE => DESCRIPTOR_TYPE_SAMPLED_IMAGE,
            DescriptorSetLayoutBindingGenericType::STORAGE_IMAGE => DESCRIPTOR_TYPE_STORAGE_IMAGE,
            DescriptorSetLayoutBindingGenericType::UNIFORM_TEXEL_BUFFER => DESCRIPTOR_TYPE_UNIFORM_TEXEL_BUFFER,
            DescriptorSetLayoutBindingGenericType::STORAGE_TEXEL_BUFFER => DESCRIPTOR_TYPE_STORAGE_TEXEL_BUFFER,
            DescriptorSetLayoutBindingGenericType::UNIFORM_BUFFER => DESCRIPTOR_TYPE_UNIFORM_BUFFER,
            DescriptorSetLayoutBindingGenericType::STORAGE_BUFFER => DESCRIPTOR_TYPE_STORAGE_BUFFER,
            DescriptorSetLayoutBindingGenericType::UNIFORM_BUFFER_DYNAMIC => DESCRIPTOR_TYPE_UNIFORM_BUFFER_DYNAMIC,
            DescriptorSetLayoutBindingGenericType::STORAGE_BUFFER_DYNAMIC => DESCRIPTOR_TYPE_STORAGE_BUFFER_DYNAMIC,
        }
    }
}

/// One binding of a descriptor set layout, in the form Vulkan takes it.
#[derive(Clone, Copy, Debug, PartialEq, Eq)]
pub struct DescriptorSetLayoutBindingInfo<'a> {
    pub binding: u32,
    /// Raw `vk::DescriptorType`.
    pub descriptor_type: i32,
    pub descriptor_count: u32,
    /// Raw `vk::ShaderStageFlags` bits.
    pub stage_flags: u32,
    /// Raw handles of the immutable samplers, if any.
    pub immutable_samplers: Option<&'a [u64]>,
}

/// Statically typed validation requirements for different values of `vk::DescriptorType`.
#[derive(Clone, Copy, Debug, PartialEq, Eq)]
pub enum DescriptorSetLayoutBinding<'a> {
    /// Binding is reserved and must not be used from shaders.
    Reserved(),
    /// Sampler or combined image sampler with the sampler part being immutable:
    /// `(combined, stage_flags, samplers)`, the samplers by raw handle.
    ImmutableSamplers(bool, u32, &'a [u64]),
    /// Sampler or combined image sampler with mutable sampler: `(combined, count, stage_flags)`.
    Samplers(bool, u32, u32),
    /// Inline uniform buffer, size is specified in bytes divided by four:
    /// `(size_div_four, stage_flags)`.
    InlineUniformBlock(u32, u32),
    /// Input attachment, limited to only FRAGMENT shader stage: `(count)`.
    InputAttachment(u32),
    /// `(descriptor_type, count, stage_flags)`.
    Generic(DescriptorSetLayoutBindingGenericType, u32, u32),
    /// Custom combination: `(descriptor_type, count, stage_flags)`.
    ///
    /// The combination must follow
    /// <https://www.khronos.org/registry/vulkan/specs/1.2-extensions/man/html/VkDescriptorSetLayoutBinding.html>.
    Custom(i32, u32, u32),
}

/// The sampler descriptor type: combined with an image or not.
pub open spec fn sampler_type(combined: bool) -> i32 {
    if combined {
        DESCRIPTOR_TYPE_COMBINED_IMAGE_SAMPLER
    } else {
        DESCRIPTOR_TYPE_SAMPLER
    }
}

impl<'a> DescriptorSetLayoutBinding<'a> {
    /// When the conversion is defined: the byte size of an inline uniform block
    /// must fit in `u32`.
    pub open spec fn into_requires(self) -> bool {
        match self {
            DescriptorSetLayoutBinding::InlineUniformBlock(size_div_four, _) => size_div_four * 4 <= u32::MAX,
            _ => true,
        }
    }

    /// The layout binding this value stands for (numbered 0).
    pub open spec fn spec_into(self) -> DescriptorSetLayoutBindingInfo<'a> {
        match self {
            DescriptorSetLayoutBinding::Reserved() => DescriptorSetLayoutBindingInfo {
                binding: 0,
                descriptor_type: 0,
                descriptor_count: 0,
                stage_flags: 0,
                immutable_samplers: None,
            },
            DescriptorSetLayoutBinding::ImmutableSamplers(combined, stage_flags, samplers) => DescriptorSetLayoutBindingInfo {
                binding: 0,
                descriptor_type: sampler_type(combined),
                descriptor_count: samplers@.len() as u32,
                stage_flags,
                immutable_samplers: Some(samplers),
            },
            DescriptorSetLayoutBinding::Samplers(combined, count, stage_flags) => DescriptorSetLayoutBindingInfo {
                binding: 0,
                descriptor_type: sampler_type(combined),
                descriptor_count: count,
                stage_flags,
                immutable_samplers: None,
            },
            DescriptorSetLayoutBinding::InlineUniformBlock(size_div_four, stage_flags) => DescriptorSetLayoutBindingInfo {
                binding: 0,
                descriptor_type: DESCRIPTOR_TYPE_INLINE_UNIFORM_BLOCK_EXT,
                descriptor_count: (size_div_four * 4) as u32,
                stage_flags,
                immutable_samplers: None,
            },
            DescriptorSetLayoutBinding::InputAttachment(count) => DescriptorSetLayoutBindingInfo {
                binding: 0,
                descriptor_type: DESCRIPTOR_TYPE_INPUT_ATTACHMENT,
                descriptor_count: count,
                stage_flags: SHADER_STAGE_FRAGMENT,
                immutable_samplers: None,
            },
            DescriptorSetLayoutBinding::Generic(descriptor_type, count, stage_flags) => DescriptorSetLayoutBindingInfo {
                binding: 0,
                descriptor_type: descriptor_type.spec_into(),
                descriptor_count: count,
                stage_flags,
                immutable_samplers: None,
            },
            DescriptorSetLayoutBinding::Custom(descriptor_type, count, stage_flags) => DescriptorSetLayoutBindingInfo {
                binding: 0,
                descriptor_type,
                descriptor_count: count,
                stage_flags,
                immutable_samplers: None,
            },
        }
    }

    /// The layout binding this value stands for, numbered 0.
    pub fn into(self) -> (r: DescriptorSetLayoutBindingInfo<'a>)
        requires
            self.into_requires(),
        ensures
            r == self.spec_into(),
            r.binding == 0,
            self matches DescriptorSetLayoutBinding::ImmutableSamplers(combined, stage_flags, samplers) ==> {
                &&& r.descriptor_type == if combined { 1i32 } else { 0i32 }
                &&& r.descriptor_count == samplers@.len() as u32
                &&& r.stage_flags == stage_flags
                &&& r.immutable_samplers == Some(samplers)
            },
            self matches DescriptorSetLayoutBinding::Samplers(combined, count, stage_flags) ==> {
                &&& r.descriptor_type == if combined { 1i32 } else { 0i32 }
                &&& r.descriptor_count == count
                &&& r.stage_flags == stage_flags
                &&& r.immutable_samplers is None
            },
    {
        match self {
            DescriptorSetLayoutBinding::Reserved() => DescriptorSetLayoutBindingInfo {
                binding: 0,
                descriptor_type: 0,
                descriptor_count: 0,
                stage_flags: 0,
                immutable_samplers: None,
            },
            DescriptorSetLayoutBinding::ImmutableSamplers(combined, stage_flags, samplers) => {
                let descriptor_type = if combined {
                    DESCRIPTOR_TYPE_COMBINED_IMAGE_SAMPLER
                } else {
                    DESCRIPTOR_TYPE_SAMPLER
                };
                DescriptorSetLayoutBindingInfo {
                    binding: 0,
                    descriptor_type,
                    descriptor_count: samplers.len() as u32,
                    stage_flags,
                    immutable_samplers: Some(samplers),
                }
            },
            DescriptorSetLayoutBinding::Samplers(combined, count, stage_flags) => {
                let descriptor_type = if combined {
                    DESCRIPTOR_TYPE_COMBINED_IMAGE_SAMPLER
                } else {
                    DESCRIPTOR_TYPE_SAMPLER
                };
                DescriptorSetLayoutBindingInfo {
                    binding: 0,
                    descriptor_type,
                    descriptor_count: count,
                    stage_flags,
                    immutable_samplers: None,
                }
            },
            DescriptorSetLayoutBinding::InlineUniformBlock(size_div_four, stage_flags) => {
                DescriptorSetLayoutBindingInfo {
                    binding: 0,
                    descriptor_type: DESCRIPTOR_TYPE_INLINE_UNIFORM_BLOCK_EXT,
                    descriptor_count: size_div_four * 4,
                    stage_flags,
                    immutable_samplers: None,
                }
            },
            DescriptorSetLayoutBinding::InputAttachment(count) => DescriptorSetLayoutBindingInfo {
                binding: 0,
                descriptor_type: DESCRIPTOR_TYPE_INPUT_ATTACHMENT,
                descriptor_count: count,
                stage_flags: SHADER_STAGE_FRAGMENT,
                immutable_samplers: None,
            },
            DescriptorSetLayoutBinding::Generic(descriptor_type, count, stage_flags) => {
                DescriptorSetLayoutBindingInfo {
                    binding: 0,
                    descriptor_type: descriptor_type.into(),
                    descriptor_count: count,
                    stage_flags,
                    immutable_samplers: None,
                }
            },
            DescriptorSetLayoutBinding::Custom(descriptor_type, count, stage_flags) => {
                DescriptorSetLayoutBindingInfo {
                    binding: 0,
                    descriptor_type,
                    descriptor_count: count,
                    stage_flags,
                    immutable_samplers: None,
                }
            },
        }
    }
}

/// The raw `vk::DescriptorType` values of the generic types: each variant stands for
/// the Vulkan type of the same name, and no two variants share one.
pub proof fn lemma_generic_type_values(a: DescriptorSetLayoutBindingGenericType, b: DescriptorSetLayoutBindingGenericType)
    ensures
        DescriptorSetLayoutBindingGenericType::SAMPLED_IMAGE.spec_into() == 2,
        DescriptorSetLayoutBindingGenericType::STORAGE_IMAGE.spec_into() == 3,
        DescriptorSetLayoutBindingGenericType::UNIFORM_TEXEL_BUFFER.spec_into() == 4,
        DescriptorSetLayoutBindingGenericType::STORAGE_TEXEL_BUFFER.spec_into() == 5,
        DescriptorSetLayoutBindingGenericType::UNIFORM_BUFFER.spec_into() == 6,
        DescriptorSetLayoutBindingGenericType::STORAGE_BUFFER.spec_into() == 7,
        DescriptorSetLayoutBindingGenericType::UNIFORM_BUFFER_DYNAMIC.spec_into() == 8,
        DescriptorSetLayoutBindingGenericType::STORAGE_BUFFER_DYNAMIC.spec_into() == 9,
        a != b ==> a.spec_into() != b.spec_into(),
{
}

/// A sampler binding is of the plain sampler type (0) unless it is combined with an
/// image (1), whether its samplers are immutable or not; a binding with immutable
/// samplers has one descriptor per sampler and carries those samplers, one with
/// mutable samplers has the count given and no samplers.
pub proof fn lemma_sampler_binding(combined: bool, stage_flags: u32, count: u32, samplers: &[u64])
    ensures
        DescriptorSetLayoutBinding::ImmutableSamplers(combined, stage_flags, samplers).spec_into().descriptor_type
            == DescriptorSetLayoutBinding::Samplers(combined, count, stage_flags).spec_into().descriptor_type,
        DescriptorSetLayoutBinding::Samplers(combined, count, stage_flags).spec_into().descriptor_type == if combined {
            1i32
        } else {
            0i32
        },
        DescriptorSetLayoutBinding::ImmutableSamplers(combined, stage_flags, samplers).spec_into().descriptor_count
            == samplers@.len() as u32,
        DescriptorSetLayoutBinding::ImmutableSamplers(combined, stage_flags, samplers).spec_into().immutable_samplers
            == Some(samplers),
        DescriptorSetLayoutBinding::ImmutableSamplers(combined, stage_flags, samplers).spec_into().stage_flags
            == stage_flags,
        DescriptorSetLayoutBinding::Samplers(combined, count, stage_flags).spec_into().descriptor_count == count,
        DescriptorSetLayoutBinding::Samplers(combined, count, stage_flags).spec_into().immutable_samplers is None,
        DescriptorSetLayoutBinding::Samplers(combined, count, stage_flags).spec_into().stage_flags == stage_flags,
{
}

/// The other binding kinds: an inline uniform block (type 1000138000) counts its
/// bytes, an input attachment (type 10) is seen by the fragment stage (0x10) only,
/// and a generic or custom binding keeps its type, count and stages.
pub proof fn lemma_other_bindings(
    size_div_four: u32,
    count: u32,
    stage_flags: u32,
    generic: DescriptorSetLayoutBindingGenericType,
    custom: i32,
)
    requires
        size_div_four * 4 <= u32::MAX,
    ensures
        DescriptorSetLayoutBinding::InlineUniformBlock(size_div_four, stage_flags).spec_into().descriptor_type
            == 1000138000i32,
        DescriptorSetLayoutBinding::InlineUniformBlock(size_div_four, stage_flags).spec_into().descriptor_count
            == size_div_four * 4,
        DescriptorSetLayoutBinding::InlineUniformBlock(size_div_four, stage_flags).spec_into().stage_flags
            == stage_flags,
        DescriptorSetLayoutBinding::InputAttachment(count).spec_into().descriptor_type == 10i32,
        DescriptorSetLayoutBinding::InputAttachment(count).spec_into().descriptor_count == count,
        DescriptorSetLayoutBinding::InputAttachment(count).spec_into().stage_flags == 0x10u32,
        DescriptorSetLayoutBinding::Generic(generic, count, stage_flags).spec_into().descriptor_type
            == generic.spec_into(),
        DescriptorSetLayoutBinding::Generic(generic, count, stage_flags).spec_into().descriptor_count == count,
        DescriptorSetLayoutBinding::Generic(generic, count, stage_flags).spec_into().stage_flags == stage_flags,
        DescriptorSetLayoutBinding::Custom(custom, count, stage_flags).spec_into().descriptor_type == custom,
        DescriptorSetLayoutBinding::Custom(custom, count, stage_flags).spec_into().descriptor_count == count,
        DescriptorSetLayoutBinding::Custom(custom, count, stage_flags).spec_into().stage_flags == stage_flags,
{
}

} // verus!
