//! The per-frame uniform block: the scalar state mirrored into GPU
//! memory every frame.
//!
//! Only the fields the render core reasons about live here — the
//! viewport dimensions, the accumulation counter and toggle, and the
//! frame-time tick counter.  The matrices, the sky color and the light
//! direction are floating-point values recomputed and uploaded by the
//! rendering collaborator alongside this block.

use vstd::prelude::*;

verus! {

/// The scalar core of the per-frame uniform data.
#[derive(Clone, Copy, Debug, PartialEq, Eq, Structural)]
pub struct RenderUniform {
    /// Width of the output target in pixels; never zero once configured.
    pub width: u32,
    /// Height of the output target in pixels; never zero once configured.
    pub height: u32,
    /// How many frames the accumulation buffer currently averages; the
    /// divisor used by the shader.  Reset to 1 exactly when the
    /// accumulation is invalidated, incremented by 1 each quiet frame.
    pub frames_accumulated: u32,
    /// Whether progressive accumulation is switched on.  Flipping it
    /// in either direction invalidates the accumulated history.
    pub accumulate: bool,
    /// Frame counter driving any time-varying shading term: advanced
    /// by one fixed tick per frame, not wall-clock derived.
    pub time_ticks: u32,
}

impl RenderUniform {
    /// The initial uniform state for a freshly configured output
    /// target: nothing accumulated yet, accumulation switched on, the
    /// clock at zero.
    pub fn new(width: u32, height: u32) -> (u: RenderUniform)
        requires
            width > 0,
            height > 0,
        ensures
            u.width == width,
            u.height == height,
            u.frames_accumulated == 0,
            u.accumulate,
            u.time_ticks == 0,
    {
        RenderUniform { width, height, frames_accumulated: 0, accumulate: true, time_ticks: 0 }
    }
}

} // verus!
