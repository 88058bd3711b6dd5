//! The accumulation buffer model: the GPU-resident array of per-pixel
//! radiance sums that progressive rendering averages into an image.
//!
//! The crate tracks the buffer's size and an allocation generation;
//! the GPU allocation itself is made by the rendering collaborator.
//! The buffer is reallocated — never cleared in place — on every
//! invalidation, so a bumped generation stands for a fresh allocation
//! whose stale contents are harmless: the shader treats the first
//! accumulated frame as a hard overwrite.

use vstd::prelude::*;

verus! {

/// Bytes of one per-pixel accumulator: four 32-bit float components.
pub const PIXEL_BYTES: u64 = 16;

/// The size in bytes of an accumulation buffer for a viewport of the
/// given dimensions.
pub open spec fn accumulation_bytes(width: u32, height: u32) -> int {
    width * height * PIXEL_BYTES
}

/// Model of the GPU-resident accumulation buffer: its size and an
/// allocation generation, bumped each time a fresh buffer replaces it.
#[derive(Clone, Copy, Debug, PartialEq, Eq, Structural)]
pub struct AccumulationBuffer {
    /// Counts fresh allocations; any binding set built from an older
    /// generation is stale and must not be used for a draw.
    pub generation: u64,
    /// The size of the current allocation in bytes.
    pub size_bytes: u64,
}

impl AccumulationBuffer {
    /// Computes the byte size of the accumulation buffer for a
    /// viewport: one four-component float accumulator per pixel.
    pub fn calculate_bytes(width: u32, height: u32) -> (n: u64)
        requires
            accumulation_bytes(width, height) <= u64::MAX,
        ensures
            n == accumulation_bytes(width, height),
    {
        proof {
            assert((width * height) as int * PIXEL_BYTES == accumulation_bytes(width, height))
                by (nonlinear_arith);
            assert(width * height <= accumulation_bytes(width, height)) by (nonlinear_arith)
                requires accumulation_bytes(width, height) == width * height * PIXEL_BYTES;
        }
        (width as u64) * (height as u64) * PIXEL_BYTES
    }

    /// The first allocation for a viewport of the given dimensions.
    pub fn new(width: u32, height: u32) -> (b: AccumulationBuffer)
        requires
            accumulation_bytes(width, height) <= u64::MAX,
        ensures
            b.generation == 0,
            b.size_bytes == accumulation_bytes(width, height),
    {
        AccumulationBuffer { generation: 0, size_bytes: Self::calculate_bytes(width, height) }
    }

    /// Replaces the buffer with a fresh allocation sized for the given
    /// dimensions.  Reallocating to the unchanged size is a valid
    /// reset: the generation still advances so that dependent binding
    /// sets are rebuilt.
    pub fn reset(&mut self, width: u32, height: u32)
        requires
            accumulation_bytes(width, height) <= u64::MAX,
            old(self).generation < u64::MAX,
        ensures
            final(self).generation == old(self).generation + 1,
            final(self).size_bytes == accumulation_bytes(width, height),
    {
        self.generation = self.generation + 1;
        self.size_bytes = Self::calculate_bytes(width, height);
    }
}

} // verus!
