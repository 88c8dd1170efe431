//! Raster images, reduced to one luminance byte per pixel.

use image::Pixel;
use vstd::prelude::*;

verus! {

/// The luminance of a colour with the given red, green and blue parts:
/// their weighted sum in ten-thousandths, rounded down.
pub open spec fn luma_of(r: u8, g: u8, b: u8) -> int {
    (2126 * r + 7152 * g + 722 * b) / 10000
}

/// The luminance of every pixel of a buffer that holds four bytes per
/// pixel: red, green, blue and alpha.
pub open spec fn luma_of_rgba(rgba: Seq<u8>) -> Seq<u8> {
    Seq::new(
        rgba.len() / 4,
        |i: int| luma_of(rgba[4 * i], rgba[4 * i + 1], rgba[4 * i + 2]) as u8,
    )
}

/// Calls `image::Pixel::to_luma` on the `image::Rgba<u8>` pixel made of the
/// four bytes and hands back the one channel of the result. Trusted: the
/// `image` crate weighs red, green and blue with 2126, 7152 and 722, adds
/// them up in 32 bits and divides by 10000; alpha plays no part.
#[verifier::external_body]
fn rgba_luma(r: u8, g: u8, b: u8, a: u8) -> (l: u8)
    ensures
        l == luma_of(r, g, b),
{
    image::Rgba([r, g, b, a]).to_luma().0[0]
}

/// An image of `width` by `height` pixels, stored row by row from the top
/// left, one luminance byte per pixel.
pub struct Image {
    width: u32,
    height: u32,
    luma: Vec<u8>,
}

impl Image {
    /// The number of pixels in a row.
    pub closed spec fn spec_width(&self) -> int {
        self.width as int
    }

    /// The number of rows.
    pub closed spec fn spec_height(&self) -> int {
        self.height as int
    }

    /// The luminance bytes, row by row.
    pub closed spec fn pixels(&self) -> Seq<u8> {
        self.luma@
    }

    /// An image has at least one pixel, and a byte for each.
    pub open spec fn wf(&self) -> bool {
        &&& 0 < self.spec_width() <= u32::MAX
        &&& 0 < self.spec_height() <= u32::MAX
        &&& self.pixels().len() == self.spec_width() * self.spec_height()
    }

    /// The luminance of the pixel in column `x` of row `y`.
    pub open spec fn luminance(&self, x: int, y: int) -> int
        recommends
            0 <= x < self.spec_width(),
            0 <= y < self.spec_height(),
    {
        self.pixels()[y * self.spec_width() + x] as int
    }

    /// An image from its luminance bytes. There is none where a side is
    /// zero or the number of bytes is not `width * height`.
    pub fn from_luma(width: u32, height: u32, luma: Vec<u8>) -> (res: Option<Image>)
        ensures
            res is Some <==> width > 0 && height > 0 && luma@.len() == width * height,
            res is Some ==> {
                &&& res->0.wf()
                &&& res->0.spec_width() == width
                &&& res->0.spec_height() == height
                &&& res->0.pixels() == luma@
            },
    {
        if width == 0 || height == 0 {
            return None;
        }
        assert(width * height <= 0xffff_ffff * 0xffff_ffff) by (nonlinear_arith)
            requires
                width <= 0xffff_ffff,
                height <= 0xffff_ffff,
        ;
        let area: u64 = width as u64 * height as u64;
        if luma.len() as u64 != area {
            return None;
        }
        Some(Image { width, height, luma })
    }

    /// An image from a buffer of four bytes per pixel: red, green, blue and
    /// alpha. There is none where a side is zero or the number of bytes is
    /// not `4 * (width * height)`.
    pub fn from_rgba(width: u32, height: u32, rgba: Vec<u8>) -> (res: Option<Image>)
        ensures
            res is Some <==> width > 0 && height > 0 && rgba@.len() == 4 * (width * height),
            res is Some ==> {
                &&& res->0.wf()
                &&& res->0.spec_width() == width
                &&& res->0.spec_height() == height
                &&& res->0.pixels() == luma_of_rgba(rgba@)
            },
    {
        if width == 0 || height == 0 {
            return None;
        }
        assert(width * height <= 0xffff_ffff * 0xffff_ffff) by (nonlinear_arith)
            requires
                width <= 0xffff_ffff,
                height <= 0xffff_ffff,
        ;
        let bytes: u128 = 4 * (width as u128 * height as u128);
        if rgba.len() as u128 != bytes {
            return None;
        }
        let count: usize = rgba.len() / 4;
        let mut luma: Vec<u8> = Vec::new();
        let mut i: usize = 0;
        while i < count
            invariant
                i <= count,
                rgba@.len() == 4 * count,
                4 * count <= usize::MAX,
                luma@.len() == i,
                forall|k: int|
                    0 <= k < i ==> luma@[k] == luma_of(
                        rgba@[4 * k],
                        rgba@[4 * k + 1],
                        rgba@[4 * k + 2],
                    ),
            decreases count - i,
        {
            let l: u8 = rgba_luma(rgba[4 * i], rgba[4 * i + 1], rgba[4 * i + 2], rgba[4 * i + 3]);
            luma.push(l);
            i += 1;
        }
        assert(luma@ =~= luma_of_rgba(rgba@));
        Some(Image { width, height, luma })
    }

    /// The number of pixels in a row.
    pub fn width(&self) -> (w: u32)
        ensures
            w == self.spec_width(),
    {
        self.width
    }

    /// The number of rows.
    pub fn height(&self) -> (h: u32)
        ensures
            h == self.spec_height(),
    {
        self.height
    }

    /// The luminance of the pixel in column `x` of row `y`.
    pub fn luminance_at(&self, x: u32, y: u32) -> (l: u8)
        requires
            self.wf(),
            x < self.spec_width(),
            y < self.spec_height(),
        ensures
            l == self.luminance(x as int, y as int),
    {
        assert(y * self.width + x < self.width * self.height) by (nonlinear_arith)
            requires
                x < self.width,
                y < self.height,
        ;
        assert(self.luma@.len() == self.luma.len());
        assert(0 <= y * self.width) by (nonlinear_arith);
        let index: u64 = y as u64 * self.width as u64 + x as u64;
        self.luma[index as usize]
    }
}

} // verus!
