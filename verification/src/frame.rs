//! The pixel layout of decoded video frames handed to the renderer.
use vstd::prelude::*;

verus! {

/// Pixel layout of a decoded frame. NV12 is negotiated out of the pipeline:
/// a full-resolution Y plane plus a half-resolution interleaved UV plane.
#[derive(Debug, Clone, Copy, PartialEq, Eq, Structural)]
pub enum PixelFormat {
    /// 4:2:0, plane 0 = Y (one byte per pixel), plane 1 = interleaved U/V
    /// (two bytes per 2x2 block).
    Nv12,
}

} // verus!
