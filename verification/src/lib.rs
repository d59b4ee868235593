//! Core components of a safe Vulkan abstraction: the data models, validation
//! rules and bookkeeping that sit between an application and the Vulkan API.

pub mod util;
pub mod memory;
pub mod physical_device;
pub mod device;
pub mod command;
pub mod descriptor;
pub mod pipeline;
pub mod entry;
pub mod framebuffer;
pub mod instance;
