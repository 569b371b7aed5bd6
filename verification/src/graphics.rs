//! The graphics probe's data model: the framebuffer descriptor handed
//! to the kernel, and the conversion from the reported pixel stride to
//! a byte stride.

use vstd::prelude::*;

verus! {

/// Bytes per pixel assumed of the active pixel format.
pub const BYTES_PER_PIXEL: u32 = 4;

/// The framebuffer description handed to the kernel. `stride` counts
/// bytes between the starts of consecutive scanlines, not pixels.
#[derive(Clone, Copy, Debug, PartialEq, Eq, Structural)]
pub struct GraphicsInfo {
    pub framebuffer: u64,
    pub width: u32,
    pub height: u32,
    pub stride: u32,
}

impl GraphicsInfo {
    /// The empty descriptor that stands in the handoff structure until
    /// the probe has run.
    pub fn new() -> (g: GraphicsInfo)
        ensures
            g == (GraphicsInfo { framebuffer: 0u64, width: 0u32, height: 0u32, stride: 0u32 }),
    {
        GraphicsInfo { framebuffer: 0, width: 0, height: 0, stride: 0 }
    }

    /// Packages one probed display mode: the stride the firmware
    /// reports in pixels becomes a stride in bytes.
    pub fn from_mode(framebuffer: u64, width: u32, height: u32, pixel_stride: u32) -> (g: GraphicsInfo)
        requires
            pixel_stride * BYTES_PER_PIXEL <= u32::MAX,
        ensures
            g == (GraphicsInfo {
                framebuffer,
                width,
                height,
                stride: (pixel_stride * BYTES_PER_PIXEL) as u32,
            }),
    {
        GraphicsInfo { framebuffer, width, height, stride: pixel_stride * BYTES_PER_PIXEL }
    }
}

} // verus!
