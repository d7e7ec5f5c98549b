//! Resource-lifetime and frame-pacing core of a Vulkan rendering backend.
//!
//! GPU objects are named here by their raw 64-bit handles; the code that
//! talks to the driver converts them to and from the typed handles.

pub mod droplist;
pub mod error;
pub mod sampler;
pub mod device;
pub mod instance;
pub mod physical_device;
pub mod allocator;
