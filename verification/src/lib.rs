//! Core of a minimal real-time rendering harness.
//!
//! The library decides everything the renderer does — how the swapchain is
//! configured, what the render pipeline looks like, which buffers and
//! textures are created, how the instance grid is laid out, and how each
//! frame reacts to surface errors — and states those decisions as verified
//! contracts over plain values.  The windowing collaborator and the GPU
//! driver consume these decisions: they hand the core plain inputs (window
//! sizes, surface capabilities, input events, acquire outcomes, image bytes)
//! and execute the plans the core returns.

use vstd::prelude::*;

pub mod camera;
pub mod events;
pub mod frame;
pub mod geometry;
pub mod instances;
pub mod pipeline;
pub mod state;
pub mod surface;
pub mod texture;

verus! {

/// Width and height of the drawable area, in physical pixels.
#[derive(Clone, Copy, Debug, PartialEq, Eq, Structural)]
pub struct FrameSize {
    pub width: u32,
    pub height: u32,
}

impl FrameSize {
    /// A size is drawable only when both dimensions are non-zero; a surface
    /// must never be configured with a zero dimension.
    pub open spec fn is_drawable(&self) -> bool {
        self.width > 0 && self.height > 0
    }

    pub fn new(width: u32, height: u32) -> (r: FrameSize)
        ensures
            r.width == width,
            r.height == height,
    {
        FrameSize { width, height }
    }

    /// Runtime test mirroring `is_drawable`, for callers outside the core
    /// that must check a size before handing it to a `requires`-guarded
    /// function.
    pub fn drawable(&self) -> (r: bool)
        ensures
            r == self.is_drawable(),
    {
        self.width > 0 && self.height > 0
    }
}

} // verus!
