//! Parameters of command pool creation, reset and command buffer allocation.

use vstd::prelude::*;

verus! {

/// `vk::CommandPoolCreateFlags::PROTECTED`.
pub const COMMAND_POOL_CREATE_PROTECTED: u32 = 0x4;

/// `vk::CommandPoolResetFlags::RELEASE_RESOURCES`.
pub const COMMAND_POOL_RESET_RELEASE_RESOURCES: u32 = 0x1;

/// `vk::CommandBufferLevel::PRIMARY`.
pub const COMMAND_BUFFER_LEVEL_PRIMARY: i32 = 0;

/// `vk::CommandBufferLevel::SECONDARY`.
pub const COMMAND_BUFFER_LEVEL_SECONDARY: i32 = 1;

/// The flags a command pool is created with: the requested ones, except
/// `PROTECTED`, whose value is currently ignored.
pub fn command_pool_create_flags(flags: u32) -> (r: u32)
    ensures
        r == flags & !COMMAND_POOL_CREATE_PROTECTED,
        r & COMMAND_POOL_CREATE_PROTECTED == 0,
        r == flags & !0x4u32,
{
    let r = flags & !COMMAND_POOL_CREATE_PROTECTED;
    assert(r & COMMAND_POOL_CREATE_PROTECTED == 0) by (bit_vector)
        requires
            r == flags & !4u32,
    ;
    r
}

/// The flags of a command pool reset: `RELEASE_RESOURCES` when resources are returned
/// to the system, none otherwise.
pub fn command_pool_reset_flags(return_resources: bool) -> (r: u32)
    ensures
        r == if return_resources {
            COMMAND_POOL_RESET_RELEASE_RESOURCES
        } else {
            0
        },
        r == if return_resources { 0x1u32 } else { 0u32 },
{
    if return_resources {
        COMMAND_POOL_RESET_RELEASE_RESOURCES
    } else {
        0
    }
}

/// The level of command buffers allocated with `secondary` set as asked.
pub fn allocation_level(secondary: bool) -> (r: i32)
    ensures
        r == if secondary {
            COMMAND_BUFFER_LEVEL_SECONDARY
        } else {
            COMMAND_BUFFER_LEVEL_PRIMARY
        },
        r == if secondary { 1i32 } else { 0i32 },
{
    if secondary {
        COMMAND_BUFFER_LEVEL_SECONDARY
    } else {
        COMMAND_BUFFER_LEVEL_PRIMARY
    }
}

/// The number of command buffers an allocation into an array of `buffers` elements
/// asks for.
pub fn allocation_count(buffers: usize) -> (r: u32)
    requires
        0 < buffers <= u32::MAX,
    ensures
        r == buffers,
        r > 0,
{
    buffers as u32
}

} // verus!
