//! Core logic of a GPU resource lifecycle manager and per-frame
//! synchronization engine for an interactive renderer.
//!
//! The library owns the decision logic of the renderer: ordered teardown of
//! heterogeneous GPU objects, physical-device filtering and ranking, queue
//! family allocation, swapchain parameter selection, and the frame
//! synchronization ring. Every function here works on plain values; the
//! process that embeds the library performs the actual driver calls and feeds
//! their results back in.

pub mod constants;
pub mod environment;
pub mod device;
pub mod error;
pub mod frame;
pub mod log;
pub mod queues;
pub mod registry;
pub mod render;
pub mod swapchain;
