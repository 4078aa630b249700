//! Compile-time configuration: API version requirements, frame ring size,
//! timeouts, and the raw values of the graphics-API enumerations that the
//! selection logic works with.

use vstd::prelude::*;

verus! {

/// Required major version of the graphics API.
pub const API_VERSION_MAJOR: u32 = 1;

/// Required minor version of the graphics API.
pub const API_VERSION_MINOR: u32 = 3;

/// Number of independently synchronized frame slots cycled by the renderer.
pub const FRAMEBUFFER_SIZE: usize = 2;

/// Timeout for fence and image-acquire waits, in nanoseconds.
pub const FENCE_TIMEOUT: u64 = 1_000_000_000;

/// Queue capability bit: graphics work.
pub const QUEUE_GRAPHICS: u32 = 1;

/// Queue capability bit: compute work.
pub const QUEUE_COMPUTE: u32 = 2;

/// Queue capability bit: transfer work.
pub const QUEUE_TRANSFER: u32 = 4;

/// Raw value of the preferred 8-bit-per-channel sRGB surface format.
pub const FORMAT_B8G8R8A8_SRGB: u32 = 50;

/// Raw value of the sRGB non-linear color space.
pub const COLOR_SPACE_SRGB_NONLINEAR: u32 = 0;

/// Raw value of the immediate present mode.
pub const PRESENT_MODE_IMMEDIATE: u32 = 0;

/// Raw value of the mailbox present mode, preferred by the renderer.
pub const PRESENT_MODE_MAILBOX: u32 = 1;

/// Raw value of the first-in-first-out present mode, the mode that every
/// conforming implementation must support and the fallback when the
/// preferred mode is absent.
pub const PRESENT_MODE_FIFO: u32 = 2;

/// Queue priorities are fixed-point values in hundredths, so that the
/// contracts stay in integer arithmetic; this is the value that stands for
/// a priority of one.
pub const QUEUE_PRIORITY_UNIT: u32 = 100;

/// Status code returned by the driver when a bounded wait expires.
pub const STATUS_TIMEOUT: i32 = 2;

/// Synchronization stage bit spanning all commands, as the API's raw 64-bit
/// flag value.
pub const PIPELINE_STAGE_ALL_COMMANDS: u64 = 0x10000;

/// Access bit covering any write, as the API's raw 64-bit flag value.
pub const ACCESS_MEMORY_WRITE: u64 = 0x10000;

/// Access bit covering any read, as the API's raw 64-bit flag value.
pub const ACCESS_MEMORY_READ: u64 = 0x8000;

} // verus!
