//! The Vulkan entry points: the instance version and instance-level enumeration.

use vstd::prelude::*;

use crate::util::{spec_make_version, VkVersion};

pub mod enumerate;

verus! {

/// The instance version to report given what `vkEnumerateInstanceVersion` returned:
/// that version, or 1.0.0 where the command does not exist (a Vulkan 1.0 loader).
pub fn instance_version(reported: Option<u32>) -> (r: VkVersion)
    ensures
        reported matches Some(v) ==> r.0 == v,
        reported is None ==> r.0 == spec_make_version(1, 0, 0),
        reported is None ==> r.0 == 0x400000,
{
    match reported {
        Some(v) => VkVersion(v),
        None => {
            let v = VkVersion::new(1, 0, 0);
            assert(((1u32 << 22u32) | (0u32 << 12u32)) | 0u32 == 0x400000u32) by (bit_vector);
            v
        },
    }
}

} // verus!
