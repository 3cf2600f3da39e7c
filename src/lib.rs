//! Decision logic of a small Vulkan renderer, stated over plain values and
//! proved: device and queue-family selection, memory-type choice and upload
//! plans, swapchain configuration, the teardown order of a swapchain
//! generation, vertex de-duplication, and the per-frame synchronisation
//! protocol that drives the render loop.
pub mod device_selector;
pub mod frame_sync;
pub mod generation;
pub mod memory;
pub mod mesh;
pub mod queue_family_indices;
pub mod swapchain;
