//! A grayscale pixel grid: the image as the encoder sees it.
//!
//! The grid owns a row-major vector of 8-bit luminance values, origin at the
//! top left.  Decoding an image file into this form is the caller's business;
//! the encoder only ever reads single pixels.

use vstd::prelude::*;

verus! {

/// A width × height grid of 8-bit luminance values, row-major, top-left origin.
pub struct PixelGrid {
    pub width: u32,
    pub height: u32,
    pub data: Vec<u8>,
}

impl PixelGrid {
    /// The grid is well-formed: it holds exactly one byte per pixel.
    pub open spec fn wf(self) -> bool {
        self.data@.len() == self.width as int * self.height as int
    }

    pub open spec fn spec_width(self) -> u32 {
        self.width
    }

    pub open spec fn spec_height(self) -> u32 {
        self.height
    }

    /// The luminance of the pixel in the given row and column.
    pub open spec fn spec_pixel(self, row: int, col: int) -> u8 {
        self.data@[row * self.width as int + col]
    }

    /// Builds a grid from row-major luminance bytes; refuses a vector whose
    /// length is not exactly width × height.
    pub fn new(width: u32, height: u32, data: Vec<u8>) -> (r: Option<PixelGrid>)
        ensures
            r is Some <==> data@.len() == width as int * height as int,
            r is Some ==> {
                let g = r->Some_0;
                &&& g.wf()
                &&& g.spec_width() == width
                &&& g.spec_height() == height
                &&& g.data@ == data@
            },
    {
        proof {
            assert((width as int) * (height as int) < 0x1_0000_0000_0000_0000)
                by (nonlinear_arith)
                requires
                    width < 0x1_0000_0000,
                    height < 0x1_0000_0000,
            ;
        }
        let expected: u64 = (width as u64) * (height as u64);
        if data.len() as u64 == expected {
            Some(PixelGrid { width, height, data })
        } else {
            None
        }
    }

    pub fn width(&self) -> (r: u32)
        ensures
            r == self.spec_width(),
    {
        self.width
    }

    pub fn height(&self) -> (r: u32)
        ensures
            r == self.spec_height(),
    {
        self.height
    }

    /// Reads one pixel.
    pub fn get_pixel(&self, col: u32, row: u32) -> (r: u8)
        requires
            self.wf(),
            col < self.spec_width(),
            row < self.spec_height(),
        ensures
            r == self.spec_pixel(row as int, col as int),
    {
        let n: usize = self.data.len();
        proof {
            let w = self.width as int;
            let h = self.height as int;
            assert((row as int) * w + (col as int) < w * h) by (nonlinear_arith)
                requires
                    0 <= (row as int) < h,
                    0 <= (col as int) < w,
            ;
            assert(w * h == n as int);
        }
        self.data[(row as usize) * (self.width as usize) + (col as usize)]
    }
}

} // verus!
