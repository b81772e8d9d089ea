use vstd::prelude::*;

verus! {

/// An 8-bit single-channel image stored row by row.
pub struct GrayImage {
    pub width: u32,
    pub height: u32,
    pub pixels: Vec<u8>,
}

impl GrayImage {
    /// The buffer holds exactly one sample per pixel and the image is not empty.
    pub open spec fn wf(&self) -> bool {
        &&& self.width >= 1
        &&& self.height >= 1
        &&& self.pixels@.len() == self.width as int * self.height as int
    }

    /// Wraps a row-major buffer, or gives `None` when its length is not
    /// `width * height` or a side is zero.
    pub fn from_raw(width: u32, height: u32, pixels: Vec<u8>) -> (r: Option<GrayImage>)
        ensures
            r is Some <==> (width >= 1 && height >= 1 && pixels@.len() == width as int * height as int),
            r matches Some(img) ==> img.wf() && img.width == width && img.height == height
                && img.pixels@ == pixels@,
    {
        if width == 0 || height == 0 {
            return None;
        }
        assert(width as u128 * height as u128 <= 0xffff_ffff_ffff_ffff_u128) by (nonlinear_arith)
            requires
                width <= 0xffff_ffff_u32,
                height <= 0xffff_ffff_u32,
        ;
        let n: u128 = width as u128 * height as u128;
        if pixels.len() as u128 != n {
            return None;
        }
        Some(GrayImage { width, height, pixels })
    }

    /// A copy with the same dimensions and samples.
    pub fn duplicate(&self) -> (r: GrayImage)
        ensures
            r.width == self.width,
            r.height == self.height,
            r.pixels@ == self.pixels@,
    {
        GrayImage { width: self.width, height: self.height, pixels: self.pixels.clone() }
    }

    pub fn width(&self) -> (r: u32)
        ensures
            r == self.width,
    {
        self.width
    }

    pub fn height(&self) -> (r: u32)
        ensures
            r == self.height,
    {
        self.height
    }

    pub fn pixels(&self) -> (r: &Vec<u8>)
        ensures
            r@ == self.pixels@,
    {
        &self.pixels
    }
}

} // verus!
