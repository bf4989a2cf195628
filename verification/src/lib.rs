//! The verified core of a small Vulkan renderer that spins a textured cube.
//!
//! The crate decides; its caller acts. Nothing here calls the driver.
//! Every function either describes a device object that is to be created
//! (a configuration of plain values), lists requests to the device in the
//! order in which they are to be carried out (`device::DeviceOp`), or
//! takes what the device reported and answers with the next request
//! (`frame::Frames::step`, `playground::VulkanPlayground::render`).
//! Handles are raw 64-bit values, and numbers that the device reads as
//! single-precision floats are kept as their bit patterns.
//!
//! What is proved, beyond each function's contract:
//! - `sync`: with a device that completes work only when it says so, the
//!   host never records into a frame slot, nor writes its uniform buffer,
//!   while the device still executes it, and never waits for a fence that
//!   nothing will signal;
//! - `swapchain`: the chosen extent lies within the surface's limits and
//!   choosing is idempotent;
//! - `uniform`: for a power-of-two alignment the aligned size is the least
//!   multiple that holds the payload, and a payload written to a uniform
//!   buffer reads back unchanged;
//! - `buf`: the copy that an upload records moves the bytes exactly;
//! - `playground`: resizing twice is resizing once; a resize and the
//!   shutdown idle the device before they destroy; what a resize has
//!   destroyed is neither used nor destroyed again; and the device context
//!   is destroyed last.

pub mod baby;
pub mod buf;
pub mod bytes;
pub mod device;
pub mod frame;
pub mod image;
pub mod mesh;
pub mod pipeline;
pub mod playground;
pub mod render;
pub mod swapchain;
pub mod sync;
pub mod texture;
pub mod uniform;
pub mod vk;
pub mod window;
