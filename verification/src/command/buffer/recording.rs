//! Parameters of command buffer recording.

use vstd::prelude::*;

verus! {

/// `vk::CommandBufferUsageFlags::ONE_TIME_SUBMIT`.
pub const USAGE_ONE_TIME_SUBMIT: u32 = 0x1;

/// `vk::CommandBufferUsageFlags::SIMULTANEOUS_USE`.
pub const USAGE_SIMULTANEOUS_USE: u32 = 0x4;

/// `vk::SubpassContents::INLINE`.
pub const SUBPASS_CONTENTS_INLINE: i32 = 0;

/// `vk::SubpassContents::SECONDARY_COMMAND_BUFFERS`.
pub const SUBPASS_CONTENTS_SECONDARY_COMMAND_BUFFERS: i32 = 1;

/// How a recorded command buffer may be submitted.
#[derive(Clone, Copy, Debug, PartialEq, Eq, Structural)]
pub enum CommandBufferBeginInfo {
    /// The command buffer can only be submitted once before being reset.
    OneTime,
    /// The command buffer can be submitted multiple times before being reset.
    ManyTimes {
        /// The command buffer can be submitted multiple times at once.
        simultaneous: bool,
    },
}

impl CommandBufferBeginInfo {
    /// The usage flags of the begin info that this value stands for.
    pub open spec fn spec_usage_flags(self) -> u32 {
        match self {
            CommandBufferBeginInfo::OneTime => USAGE_ONE_TIME_SUBMIT,
            CommandBufferBeginInfo::ManyTimes { simultaneous } => if simultaneous {
                USAGE_SIMULTANEOUS_USE
            } else {
                0
            },
        }
    }

    /// The `vk::CommandBufferUsageFlags` to begin recording with.
    pub fn into(self) -> (r: u32)
        ensures
            r == self.spec_usage_flags(),
            self is OneTime ==> r == 0x1,
            self matches CommandBufferBeginInfo::ManyTimes { simultaneous } ==> r == if simultaneous {
                0x4u32
            } else {
                0u32
            },
    {
        match self {
            CommandBufferBeginInfo::OneTime => USAGE_ONE_TIME_SUBMIT,
            CommandBufferBeginInfo::ManyTimes { simultaneous } => {
                if simultaneous {
                    USAGE_SIMULTANEOUS_USE
                } else {
                    0
                }
            },
        }
    }
}

/// The contents of a render pass or subpass: recorded inline, or in secondary
/// command buffers.
pub fn subpass_contents(contents_inline: bool) -> (r: i32)
    ensures
        r == if contents_inline {
            SUBPASS_CONTENTS_INLINE
        } else {
            SUBPASS_CONTENTS_SECONDARY_COMMAND_BUFFERS
        },
        r == if contents_inline { 0i32 } else { 1i32 },
{
    if contents_inline {
        SUBPASS_CONTENTS_INLINE
    } else {
        SUBPASS_CONTENTS_SECONDARY_COMMAND_BUFFERS
    }
}

} // verus!
