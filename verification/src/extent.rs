//! The surface extent: width and height in pixels, as reported by the live
//! window. A zero-area extent (a minimized or mid-drag window) cannot be
//! presented to; the swapchain manager skips recreation for such an extent.

use vstd::prelude::*;

verus! {

/// A surface size in pixels. The live window is the source of truth; the
/// presentation loop observes it only at frame boundaries.
#[derive(Clone, Copy, Debug, PartialEq, Eq, Structural)]
pub struct Extent {
    pub width: u32,
    pub height: u32,
}

impl Extent {
    /// A zero-area extent: no presentable surface exists for it.
    pub open spec fn zero_area(self) -> bool {
        self.width == 0 || self.height == 0
    }

    pub fn new(width: u32, height: u32) -> (r: Extent)
        ensures
            r.width == width,
            r.height == height,
    {
        Extent { width, height }
    }

    /// Whether this extent has no presentable area.
    pub fn is_zero_area(&self) -> (r: bool)
        ensures
            r == self.zero_area(),
    {
        self.width == 0 || self.height == 0
    }
}

} // verus!
