//! A small, verified core for a fixed-function GPU rendering pipeline in the
//! style of the PSP's graphics engine: a video-memory arena allocator, a
//! texture-header decoder, static geometry tables, and the frame/display
//! pipeline that records GPU commands into a bounded command list and
//! sequences the buffer-swap protocol.
//!
//! The hardware itself (command submission, vertical-blank waits, register
//! writes) lives outside this crate; the pipeline here decides *what* is
//! recorded and in which order, and an unverified host replays the recorded
//! commands against the device.

pub mod commands;
pub mod geometry;
pub mod pipeline;
pub mod pixel;
pub mod scene;
pub mod texture;
pub mod vram;
