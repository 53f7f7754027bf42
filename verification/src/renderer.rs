//! The decisions the renderer makes from what the Vulkan driver reports,
//! taken over the raw values of the Vulkan enums and flags.

pub mod buffer;
pub mod device;
pub mod frame;
pub mod image;
pub mod swapchain;
