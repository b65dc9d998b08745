//! The rectangle a capture asks for.

use vstd::prelude::*;

verus! {

/// Width taken where a request leaves the width out.
pub const DEFAULT_WIDTH: u32 = 100;

/// Height taken where a request leaves the height out.
pub const DEFAULT_HEIGHT: u32 = 100;

/// What a caller asks for: an origin on the primary monitor and, optionally,
/// an extent.
#[derive(Clone, Copy, Debug, PartialEq, Eq, Structural)]
pub struct CaptureRequest {
    pub x: u32,
    pub y: u32,
    pub width: Option<u32>,
    pub height: Option<u32>,
}

/// A fully specified rectangle, handed to the grabber as it is.
#[derive(Clone, Copy, Debug, PartialEq, Eq, Structural)]
pub struct Region {
    pub x: u32,
    pub y: u32,
    pub width: u32,
    pub height: u32,
}

impl CaptureRequest {
    /// The rectangle this request stands for: the origin as given, and each
    /// extent as given or, where it is left out, its default. No extent is
    /// rejected or clipped here, a zero one included; whether the rectangle
    /// lies on the monitor is for the grabber to say.
    pub open spec fn region(self) -> Region {
        Region {
            x: self.x,
            y: self.y,
            width: match self.width {
                Some(w) => w,
                None => DEFAULT_WIDTH,
            },
            height: match self.height {
                Some(h) => h,
                None => DEFAULT_HEIGHT,
            },
        }
    }

    /// Resolves the request to a rectangle.
    pub fn resolve(&self) -> (r: Region)
        ensures
            r == self.region(),
            r.x == self.x && r.y == self.y,
            self.width is None ==> r.width == 100,
            self.height is None ==> r.height == 100,
            self.width matches Some(w) ==> r.width == w,
            self.height matches Some(h) ==> r.height == h,
    {
        let width: u32 = match self.width {
            Some(w) => w,
            None => DEFAULT_WIDTH,
        };
        let height: u32 = match self.height {
            Some(h) => h,
            None => DEFAULT_HEIGHT,
        };
        Region { x: self.x, y: self.y, width, height }
    }
}

} // verus!
