//! Images as this library sees them: a size and RGBA bytes.
use vstd::prelude::*;

verus! {

/// Bytes per pixel: red, green, blue and alpha, one byte each.
pub const CHANNELS: u32 = 4;

/// An image: its size and its pixels, row by row, `CHANNELS` bytes each.
#[derive(Clone, Debug, PartialEq, Eq)]
pub struct ImageSample {
    pub width: u32,
    pub height: u32,
    pub pixels: Vec<u8>,
}

impl ImageSample {
    /// The pixels are exactly as many bytes as the size asks for.
    pub open spec fn is_well_formed(&self) -> bool {
        self.pixels@.len() == CHANNELS * self.width * self.height
    }

    pub fn new(width: u32, height: u32, pixels: Vec<u8>) -> (r: ImageSample)
        ensures
            r.width == width,
            r.height == height,
            r.pixels@ == pixels@,
    {
        ImageSample { width, height, pixels }
    }

    /// Whether the pixels are exactly as many bytes as the size asks for.
    pub fn check_well_formed(&self) -> (r: bool)
        ensures
            r == self.is_well_formed(),
    {
        let w = self.width as u128;
        let h = self.height as u128;
        assert(0 <= w * h <= 0xFFFF_FFFF_FFFF_FFFF_FFFF) by (nonlinear_arith)
            requires
                0 <= w <= 0xFFFF_FFFF,
                0 <= h <= 0xFFFF_FFFF,
        ;
        let expected = 4 * (w * h);
        assert(expected == CHANNELS * self.width * self.height) by (nonlinear_arith)
            requires
                expected == 4 * (w * h),
                w == self.width,
                h == self.height,
                CHANNELS == 4,
        ;
        self.pixels.len() as u128 == expected
    }
}

} // verus!
