use vstd::prelude::*;

use image::{ImageBuffer, Rgba};

use crate::error::IconError;
use crate::geometry::{byte_len, BitmapGeometry};

verus! {

/// An RGBA image with 8 bits per channel, held by the `image` crate.
#[verifier::external_body]
pub struct RgbaBuffer {
    pub buffer: ImageBuffer<Rgba<u8>, Vec<u8>>,
}

/// The channel bytes an image buffer holds, row by row.
pub uninterp spec fn buffer_samples(img: RgbaBuffer) -> Seq<u8>;

/// The width and height an image buffer was made with.
pub uninterp spec fn buffer_dimensions(img: RgbaBuffer) -> (u32, u32);

/// Relies on `ImageBuffer::from_raw`: it keeps the container and the
/// dimensions unchanged, and returns `None` exactly when `4 * width` or
/// `4 * width * height` overflows `usize`, or the latter exceeds the
/// container's length.
#[verifier::external_body]
fn buffer_from_raw(width: u32, height: u32, buf: Vec<u8>) -> (r: Option<RgbaBuffer>)
    ensures
        r is Some <==> (4 * width as int <= usize::MAX && byte_len(width, height) <= usize::MAX
            && byte_len(width, height) <= buf@.len()),
        r matches Some(img) ==> buffer_samples(img) == buf@ && buffer_dimensions(img) == (
        width,
        height,
        ),
{
    ImageBuffer::from_raw(width, height, buf).map(|buffer| RgbaBuffer { buffer })
}

/// Relies on `ImageBuffer::width`: the width the buffer was made with.
#[verifier::external_body]
fn buffer_width(img: &RgbaBuffer) -> (r: u32)
    ensures
        r == buffer_dimensions(*img).0,
{
    img.buffer.width()
}

/// Relies on `ImageBuffer::height`: the height the buffer was made with.
#[verifier::external_body]
fn buffer_height(img: &RgbaBuffer) -> (r: u32)
    ensures
        r == buffer_dimensions(*img).1,
{
    img.buffer.height()
}

/// Relies on `ImageBuffer::as_raw`: the container the buffer holds.
#[verifier::external_body]
fn buffer_as_raw(img: &RgbaBuffer) -> (r: &Vec<u8>)
    ensures
        r@ == buffer_samples(*img),
{
    img.buffer.as_raw()
}

/// A validated RGBA raster: its bytes are exactly four per pixel.
pub struct RasterImage {
    image: RgbaBuffer,
}

impl RasterImage {
    pub closed spec fn spec_width(&self) -> u32 {
        buffer_dimensions(self.image).0
    }

    pub closed spec fn spec_height(&self) -> u32 {
        buffer_dimensions(self.image).1
    }

    /// The RGBA bytes of the raster, rows top-down.
    pub closed spec fn samples(&self) -> Seq<u8> {
        buffer_samples(self.image)
    }

    /// The byte count matches the dimensions.
    pub open spec fn wf(&self) -> bool {
        self.samples().len() == byte_len(self.spec_width(), self.spec_height())
    }

    pub fn width(&self) -> (r: u32)
        ensures
            r == self.spec_width(),
    {
        buffer_width(&self.image)
    }

    pub fn height(&self) -> (r: u32)
        ensures
            r == self.spec_height(),
    {
        buffer_height(&self.image)
    }

    /// The RGBA bytes, four per pixel, rows top-down.
    pub fn as_bytes(&self) -> (r: &Vec<u8>)
        ensures
            r@ == self.samples(),
    {
        buffer_as_raw(&self.image)
    }

    /// The image buffer, for encoding.
    pub fn image(&self) -> (r: &RgbaBuffer)
        ensures
            buffer_samples(*r) == self.samples(),
            buffer_dimensions(*r) == (self.spec_width(), self.spec_height()),
    {
        &self.image
    }
}

/// A pixel buffer of `len` bytes decodes under geometry `g` exactly when it
/// holds four bytes per pixel.
pub open spec fn decodes(g: BitmapGeometry, len: int) -> bool {
    len == g.pixel_len()
}

/// Packages a copied pixel buffer into a raster of the bitmap's dimensions.
/// Fails with `InvalidBuffer` when the buffer length differs from
/// `width * height * 4`.
pub fn decode_pixels(pixels: Vec<u8>, g: BitmapGeometry) -> (r: Result<RasterImage, IconError>)
    requires
        g.wf(),
    ensures
        r is Ok <==> decodes(g, pixels@.len() as int),
        r is Err ==> r matches Err(IconError::InvalidBuffer),
        r matches Ok(img) ==> {
            &&& img.wf()
            &&& img.spec_width() == g.width
            &&& img.spec_height() == g.height
            &&& img.samples() == pixels@
        },
{
    let len: usize = pixels.len();
    let w: usize = g.width as usize;
    let h: usize = g.height as usize;
    let expected: usize = match w.checked_mul(h) {
        Some(wh) => match wh.checked_mul(4) {
            Some(n) => n,
            None => {
                proof {
                    assert(g.pixel_len() == wh as int * 4) by (nonlinear_arith)
                        requires wh as int == w as int * h as int, w == g.width, h == g.height;
                }
                return Err(IconError::InvalidBuffer);
            },
        },
        None => {
            proof {
                assert(w as int * h as int * 4 >= w as int * h as int) by (nonlinear_arith)
                    requires w >= 0, h >= 0;
            }
            return Err(IconError::InvalidBuffer);
        },
    };
    if len != expected {
        return Err(IconError::InvalidBuffer);
    }
    proof {
        assert(4 * w as int <= w as int * h as int * 4) by (nonlinear_arith)
            requires h >= 1, w >= 0;
    }
    match buffer_from_raw(g.width, g.height, pixels) {
        Some(image) => Ok(RasterImage { image }),
        None => Err(IconError::InvalidBuffer),
    }
}

} // verus!
