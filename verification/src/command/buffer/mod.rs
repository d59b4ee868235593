//! Command buffers: their level, reset flags and the parameters of recording.

use vstd::prelude::*;

use super::pool::{COMMAND_BUFFER_LEVEL_PRIMARY, COMMAND_BUFFER_LEVEL_SECONDARY};

pub mod recording;

verus! {

/// `vk::CommandBufferResetFlags::RELEASE_RESOURCES`.
pub const COMMAND_BUFFER_RESET_RELEASE_RESOURCES: u32 = 0x1;

/// The level of a command buffer that is `primary` or not.
pub fn command_buffer_level(primary: bool) -> (r: i32)
    ensures
        r == if primary {
            COMMAND_BUFFER_LEVEL_PRIMARY
        } else {
            COMMAND_BUFFER_LEVEL_SECONDARY
        },
        r == if primary { 0i32 } else { 1i32 },
{
    if primary {
        COMMAND_BUFFER_LEVEL_PRIMARY
    } else {
        COMMAND_BUFFER_LEVEL_SECONDARY
    }
}

/// The flags of a command buffer reset: `RELEASE_RESOURCES` when the buffer's
/// resources are released, none otherwise.
pub fn command_buffer_reset_flags(release_resource: bool) -> (r: u32)
    ensures
        r == if release_resource {
            COMMAND_BUFFER_RESET_RELEASE_RESOURCES
        } else {
            0
        },
        r == if release_resource { 0x1u32 } else { 0u32 },
{
    if release_resource {
        COMMAND_BUFFER_RESET_RELEASE_RESOURCES
    } else {
        0
    }
}

} // verus!
