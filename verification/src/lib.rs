//! Verified core of a Vulkan wrapper: GPU pointers, memory allocators and
//! the plain-value descriptions of Vulkan state.

pub mod alignment;
pub mod allocators;
pub mod errors;
pub mod gpu_ptr;
pub mod enums;
pub mod flags;
pub mod geometry;
pub mod queues;
pub mod memory;
pub mod pools;
pub mod extensions;
pub mod pipeline;
pub mod render_pass;
pub mod traits;
pub mod text;
pub mod selection;
pub mod swapchain;
pub mod memory_pool;
pub mod image;
pub mod instance;
