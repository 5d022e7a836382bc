//! Video frames scaled to the display: plain RGB bytes with safe pixel
//! access. Decoding and file handling happen outside the library; a frame
//! arrives here as its dimensions and packed RGB data.

use vstd::prelude::*;

verus! {

/// A single video frame scaled to display dimensions: `data` holds three
/// bytes (R, G, B) per pixel, row-major.
pub struct VideoFrame {
    pub width: usize,
    pub height: usize,
    pub data: Vec<u8>,
}

impl VideoFrame {
    /// Dimensions small enough that every pixel index fits comfortably.
    pub open spec fn wf(self) -> bool {
        &&& self.width <= 10_000
        &&& self.height <= 10_000
    }

    /// Wrap decoded RGB bytes as a frame.
    pub fn new(width: usize, height: usize, data: Vec<u8>) -> (r: VideoFrame)
        requires
            width <= 10_000,
            height <= 10_000,
        ensures
            r.width == width,
            r.height == height,
            r.data == data,
            r.wf(),
    {
        VideoFrame { width, height, data }
    }

    /// The color at (`x`, `y`): black outside the frame or where the data
    /// runs short, otherwise the three bytes at the pixel's offset.
    pub open spec fn spec_pixel(self, x: int, y: int) -> (u8, u8, u8) {
        if x >= self.width || y >= self.height {
            (0u8, 0u8, 0u8)
        } else {
            let idx = (y * self.width + x) * 3;
            if idx + 2 < self.data@.len() {
                (self.data@[idx], self.data@[idx + 1], self.data@[idx + 2])
            } else {
                (0u8, 0u8, 0u8)
            }
        }
    }

    /// Read the RGB color at a pixel position.
    pub fn get_pixel(&self, x: usize, y: usize) -> (r: (u8, u8, u8))
        requires
            self.wf(),
        ensures
            r == self.spec_pixel(x as int, y as int),
    {
        if x >= self.width || y >= self.height {
            return (0, 0, 0);
        }
        proof {
            assert(y * self.width <= 9_999 * 10_000) by (nonlinear_arith)
                requires
                    y <= 9_999,
                    self.width <= 10_000;
        }
        let idx: usize = (y * self.width + x) * 3;
        if idx + 2 < self.data.len() {
            (self.data[idx], self.data[idx + 1], self.data[idx + 2])
        } else {
            (0, 0, 0)
        }
    }
}

} // verus!
