//! A small rendering-engine core centered on GPU resource lifetime and
//! frame synchronization: swapchain negotiation and recreation, in-flight
//! frame tracking, and staged buffer uploads.
//!
//! The device itself (windowing, the native graphics API, GPU memory) lives
//! outside this crate. Here every device-facing value is modeled as plain
//! data — capability descriptions, resource registries, byte buffers — so
//! the lifecycle rules themselves are stated and proved.

use vstd::prelude::*;

pub mod device_selection;
pub mod fps_limiter;
pub mod frame_sync;
pub mod mesh;
pub mod physical_device_selection;
pub mod registry;
pub mod renderer;
pub mod selection;
pub mod swapchain;
pub mod upload;

verus! {

/// How many frame slots cycle round-robin while frames are in flight.
pub const MAX_FRAMES_IN_FLIGHT: usize = 2;

/// Default window width, used as the desired extent when the surface
/// leaves the choice to the swapchain.
pub const WINDOW_WIDTH: u32 = 800;

/// Default window height.
pub const WINDOW_HEIGHT: u32 = 600;

} // verus!
