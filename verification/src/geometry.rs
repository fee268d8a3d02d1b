//! Extents and viewports, in whole pixels.

use vstd::prelude::*;

verus! {

/// Width and height of a surface, an image or a framebuffer, in pixels.
#[derive(Clone, Copy, Debug, PartialEq, Eq, Structural)]
pub struct Extent {
    pub width: u32,
    pub height: u32,
}

impl Extent {
    /// An extent of zero area: zero width or zero height.
    pub open spec fn degenerate(self) -> bool {
        self.width == 0 || self.height == 0
    }

    /// Both dimensions lie between those of `min` and `max`, bounds included.
    pub open spec fn within(self, min: Extent, max: Extent) -> bool {
        &&& min.width <= self.width <= max.width
        &&& min.height <= self.height <= max.height
    }

    pub fn new(width: u32, height: u32) -> (extent: Extent)
        ensures
            extent == (Extent { width, height }),
    {
        Extent { width, height }
    }

    /// The extent that a `[width, height]` pair names.
    pub fn from_dimensions(dimensions: [u32; 2]) -> (extent: Extent)
        ensures
            extent == (Extent { width: dimensions[0], height: dimensions[1] }),
    {
        Extent { width: dimensions[0], height: dimensions[1] }
    }

    /// The extent as a `[width, height]` pair.
    pub fn dimensions(&self) -> (dimensions: [u32; 2])
        ensures
            dimensions[0] == self.width,
            dimensions[1] == self.height,
    {
        [self.width, self.height]
    }

    pub fn is_degenerate(&self) -> (degenerate: bool)
        ensures
            degenerate == self.degenerate(),
    {
        self.width == 0 || self.height == 0
    }

    pub fn is_within(&self, min: &Extent, max: &Extent) -> (within: bool)
        ensures
            within == self.within(*min, *max),
    {
        min.width <= self.width && self.width <= max.width && min.height <= self.height
            && self.height <= max.height
    }
}

/// A viewport rectangle with its depth range. The depth bounds are whole
/// numbers: the full range runs from 0 to 1.
#[derive(Clone, Copy, Debug, PartialEq, Eq, Structural)]
pub struct Viewport {
    pub origin_x: u32,
    pub origin_y: u32,
    pub width: u32,
    pub height: u32,
    pub min_depth: u32,
    pub max_depth: u32,
}

impl Viewport {
    /// The viewport that covers a whole surface of the given extent, with the
    /// full depth range.
    pub open spec fn covering(extent: Extent) -> Viewport {
        Viewport {
            origin_x: 0,
            origin_y: 0,
            width: extent.width,
            height: extent.height,
            min_depth: 0,
            max_depth: 1,
        }
    }

    /// The extent of the rectangle.
    pub fn extent(&self) -> (extent: Extent)
        ensures
            extent == (Extent { width: self.width, height: self.height }),
    {
        Extent { width: self.width, height: self.height }
    }
}

} // verus!
