//! Pixels as a grabber hands them over.

use vstd::prelude::*;

verus! {

/// Bytes that one RGBA8 pixel takes.
pub const BYTES_PER_PIXEL: u32 = 4;

/// A grabbed frame: its dimensions and its pixels, four bytes each (red,
/// green, blue, alpha), row by row from the top.
///
/// The dimensions are those of what was grabbed, which a platform may have
/// clipped to the screen; they need not be those that were asked for.
#[derive(Debug, PartialEq, Eq)]
pub struct PixelBuffer {
    pub width: u32,
    pub height: u32,
    pub data: Vec<u8>,
}

impl PixelBuffer {
    /// Bytes that one row of a frame of this width holds.
    pub open spec fn row_len(width: u32) -> int {
        BYTES_PER_PIXEL * width
    }

    /// Bytes that a frame of these dimensions holds.
    pub open spec fn byte_len(width: u32, height: u32) -> int {
        Self::row_len(width) * height
    }

    /// The buffer holds exactly the pixels of its dimensions, no byte more
    /// and none less.
    pub open spec fn is_packed(&self) -> bool {
        self.data@.len() == Self::byte_len(self.width, self.height)
    }

    /// Two frames show the same picture: equal dimensions and equal pixels.
    pub open spec fn same_pixels(&self, other: PixelBuffer) -> bool {
        self.width == other.width && self.height == other.height && self.data@ == other.data@
    }

    /// Tells whether the buffer holds exactly the pixels of its dimensions.
    pub fn holds_all_pixels(&self) -> (b: bool)
        ensures
            b == self.is_packed(),
    {
        let w: u128 = self.width as u128;
        let h: u128 = self.height as u128;
        assert(w * h <= 0xFFFF_FFFF * 0xFFFF_FFFF) by (nonlinear_arith)
            requires
                0 <= w <= 0xFFFF_FFFF,
                0 <= h <= 0xFFFF_FFFF,
        ;
        assert((4 * w) * h == 4 * (w * h)) by (nonlinear_arith);
        let area: u128 = w * h;
        let need: u128 = 4 * area;
        self.data.len() as u128 == need
    }
}

} // verus!
