//! The redraw pipeline: viewport to target size to resample to packed frame.

use vstd::prelude::*;
use crate::img::{SourceImage, resample, resample_of};
use crate::pack::{pack, packed_rgba};
use crate::scale::{compute_target_size, spec_target_size};

verus! {

/// The destination pixel buffer: `width * height` pixels of four bytes
/// each (red, green, blue, opaque alpha). Reallocated whenever the target
/// size changes; fully overwritten on every redraw.
pub struct FrameBuffer {
    pub width: u32,
    pub height: u32,
    pub data: Vec<u8>,
}

impl FrameBuffer {
    /// The bytes fill the dimensions exactly.
    pub open spec fn wf(self) -> bool {
        self.data@.len() == self.width * self.height * 4
    }

    /// An empty buffer, before the first redraw has sized it.
    pub fn new() -> (r: FrameBuffer)
        ensures
            r.wf(),
            r.width == 0,
            r.height == 0,
    {
        FrameBuffer { width: 0, height: 0, data: Vec::new() }
    }
}

/// What a frame buffer must hold after a redraw for a given source,
/// viewport and up-scale policy: the fit target size, and the resampled
/// source packed as RGBA.
pub open spec fn frame_shows(
    frame: FrameBuffer,
    source: SourceImage,
    viewport: (u32, u32),
    allow_upscale: bool,
) -> bool {
    &&& frame.width == spec_target_size(viewport, (source.width, source.height), allow_upscale).0
    &&& frame.height == spec_target_size(viewport, (source.width, source.height), allow_upscale).1
    &&& frame.data@ == packed_rgba(
        resample_of(source.data@, source.width, source.height, frame.width, frame.height),
    )
}

/// A product grows with its factors.
proof fn lemma_mul_le(a: int, b: int, c: int, d: int)
    by (nonlinear_arith)
    requires
        0 <= a <= b,
        0 <= c <= d,
    ensures
        a * c <= b * d,
{
}

/// A zeroed buffer of the asked-for length.
fn alloc_bytes(len: usize) -> (r: Vec<u8>)
    ensures
        r@.len() == len,
{
    let mut v: Vec<u8> = Vec::new();
    while v.len() < len
        invariant
            v@.len() <= len,
        decreases len - v@.len(),
    {
        v.push(0);
    }
    v
}

/// Run one redraw: compute the target size for the
/// current viewport, resample the source to it, reallocate the frame
/// buffer, and pack the samples into it. Presenting the buffer is the
/// caller's step; the buffer it is handed is exactly `frame_shows`.
pub fn redraw(frame: &mut FrameBuffer, source: &SourceImage, viewport: (u32, u32), allow_upscale: bool)
    requires
        source.wf(),
        viewport.0 >= 1,
        viewport.1 >= 1,
        viewport.0 * viewport.1 * 32 <= usize::MAX,
        source.width * viewport.1 * 32 <= usize::MAX,
    ensures
        final(frame).wf(),
        frame_shows(*final(frame), *source, viewport, allow_upscale),
{
    let (target_width, target_height) =
        compute_target_size(viewport, (source.width, source.height), allow_upscale);
    proof {
        lemma_mul_le(target_width as int, viewport.0 as int, target_height as int, viewport.1 as int);
        lemma_mul_le(source.width as int, source.width as int, target_height as int, viewport.1 as int);
    }
    let resampled = resample(source, target_width, target_height);
    let len: usize = (target_width as usize) * (target_height as usize) * 4;
    frame.data = alloc_bytes(len);
    frame.width = target_width;
    frame.height = target_height;
    pack(&resampled, &mut frame.data);
}

} // verus!
