//! Verified core of the Nova game engine: the decisions that the engine's
//! threads make between calls into the windowing system, the GPU driver and
//! the shader compiler.

pub mod asset;
pub mod device;
pub mod entity;
pub mod frame;
pub mod input;
pub mod instance;
pub mod logging;
pub mod shared;
pub mod swapchain;
pub mod window;
