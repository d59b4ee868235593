//! Small shared building blocks: Vulkan version numbers and alignment arithmetic.

use vstd::prelude::*;

pub mod string;

verus! {

/// Packs a version the way `VK_MAKE_VERSION` does.
pub open spec fn spec_make_version(major: u32, minor: u32, patch: u32) -> u32 {
    ((major << 22u32) | (minor << 12u32)) | patch
}

/// `ash::vk::make_version` packs the three parts into one `u32`; its source is
/// exactly the expression of `spec_make_version` (the shifted-out high bits are lost).
pub assume_specification[ ash::vk::make_version ](major: u32, minor: u32, patch: u32) -> (r: u32)
    ensures
        r == spec_make_version(major, minor, patch),
;

/// `ash::vk::version_major` is `version >> 22`.
pub assume_specification[ ash::vk::version_major ](version: u32) -> (r: u32)
    ensures
        r == version >> 22u32,
;

/// `ash::vk::version_minor` is `(version >> 12) & 0x3ff`.
pub assume_specification[ ash::vk::version_minor ](version: u32) -> (r: u32)
    ensures
        r == (version >> 12u32) & 0x3ffu32,
;

/// `ash::vk::version_patch` is `version & 0xfff`.
pub assume_specification[ ash::vk::version_patch ](version: u32) -> (r: u32)
    ensures
        r == version & 0xfffu32,
;

/// A Vulkan version number in its packed `u32` form.
#[derive(Clone, Copy, Debug, PartialEq, Eq, Structural)]
pub struct VkVersion(pub u32);

impl VkVersion {
    /// Packs `major.minor.patch` into a version.
    pub fn new(major: u32, minor: u32, patch: u32) -> (r: VkVersion)
        ensures
            r.0 == spec_make_version(major, minor, patch),
    {
        VkVersion(ash::vk::make_version(major, minor, patch))
    }

    pub fn major(&self) -> (r: u32)
        ensures
            r == self.0 >> 22u32,
    {
        ash::vk::version_major(self.0)
    }

    pub fn minor(&self) -> (r: u32)
        ensures
            r == (self.0 >> 12u32) & 0x3ffu32,
    {
        ash::vk::version_minor(self.0)
    }

    pub fn patch(&self) -> (r: u32)
        ensures
            r == self.0 & 0xfffu32,
    {
        ash::vk::version_patch(self.0)
    }
}

/// Packing three parts that fit their fields and reading them back gives the parts.
pub proof fn lemma_version_round_trip(major: u32, minor: u32, patch: u32)
    requires
        major < 1024,
        minor < 1024,
        patch < 4096,
    ensures
        spec_make_version(major, minor, patch) >> 22u32 == major,
        (spec_make_version(major, minor, patch) >> 12u32) & 0x3ffu32 == minor,
        spec_make_version(major, minor, patch) & 0xfffu32 == patch,
{
    assert(((((major << 22u32) | (minor << 12u32)) | patch) >> 22u32) == major) by (bit_vector)
        requires major < 1024u32, minor < 1024u32, patch < 4096u32;
    assert((((((major << 22u32) | (minor << 12u32)) | patch) >> 12u32) & 0x3ffu32) == minor) by (bit_vector)
        requires major < 1024u32, minor < 1024u32, patch < 4096u32;
    assert(((((major << 22u32) | (minor << 12u32)) | patch) & 0xfffu32) == patch) by (bit_vector)
        requires major < 1024u32, minor < 1024u32, patch < 4096u32;
}

/// The smallest multiple of `align` that is not below `value`.
pub open spec fn spec_align_up(value: int, align: int) -> int
    recommends
        align > 0,
{
    if value % align == 0 {
        value
    } else {
        value - value % align + align
    }
}

/// Whether `value` is a power of two (exactly one bit set).
pub open spec fn is_power_of_two(value: usize) -> bool {
    value != 0 && value & ((value - 1) as usize) == 0
}

/// Rounds `value` up to the next multiple of `align`.
pub fn align_up(value: usize, align: usize) -> (r: usize)
    requires
        align > 0,
        spec_align_up(value as int, align as int) <= usize::MAX,
    ensures
        r == spec_align_up(value as int, align as int),
        r >= value,
        r % align == 0,
        r < value + align,
{
    let rem = value % align;
    if rem == 0 {
        value
    } else {
        proof {
            vstd::arithmetic::div_mod::lemma_fundamental_div_mod(value as int, align as int);
            vstd::arithmetic::div_mod::lemma_mod_multiples_basic(
                (value as int / align as int) + 1,
                align as int,
            );
            assert((value as int - rem as int + align as int) == ((value as int / align as int)
                + 1) * align as int) by (nonlinear_arith)
                requires
                    value as int == align as int * (value as int / align as int) + rem as int,
            ;
        }
        value - rem + align
    }
}

/// Tests whether `value` is a power of two.
pub fn power_of_two(value: usize) -> (r: bool)
    ensures
        r == is_power_of_two(value),
{
    value != 0 && value & (value - 1) == 0
}

/// Raw `vk::Result` codes of the errors that Vulkan commands report.
pub const ERROR_OUT_OF_HOST_MEMORY: i32 = -1;
pub const ERROR_OUT_OF_DEVICE_MEMORY: i32 = -2;
pub const ERROR_INITIALIZATION_FAILED: i32 = -3;
pub const ERROR_DEVICE_LOST: i32 = -4;
pub const ERROR_MEMORY_MAP_FAILED: i32 = -5;
pub const ERROR_LAYER_NOT_PRESENT: i32 = -6;
pub const ERROR_EXTENSION_NOT_PRESENT: i32 = -7;
pub const ERROR_FEATURE_NOT_PRESENT: i32 = -8;
pub const ERROR_INCOMPATIBLE_DRIVER: i32 = -9;
pub const ERROR_TOO_MANY_OBJECTS: i32 = -10;
pub const ERROR_FORMAT_NOT_SUPPORTED: i32 = -11;
pub const ERROR_OUT_OF_POOL_MEMORY: i32 = -1000069000;
pub const ERROR_INVALID_EXTERNAL_HANDLE: i32 = -1000072003;
pub const ERROR_INVALID_SHADER_NV: i32 = -1000012000;
pub const ERROR_FRAGMENTATION_EXT: i32 = -1000161000;
pub const ERROR_INVALID_OPAQUE_CAPTURE_ADDRESS: i32 = -1000257000;
pub const ERROR_PIPELINE_COMPILE_REQUIRED_EXT: i32 = 1000297000;

} // verus!
