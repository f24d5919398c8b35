//! Per-frame bookkeeping for drawing an immediate-mode UI on a GPU.
//!
//! The library decides; the embedding application performs the device work.
//! It covers the screen descriptor, the clip-rectangle to scissor transform,
//! the texture cache with its version protocol, the grow-only geometry buffer
//! pool and the per-frame draw plan.

pub mod screen;

pub mod clip;
pub mod textures;
pub mod buffers;
pub mod frame;
