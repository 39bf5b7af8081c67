use vstd::prelude::*;

use crate::error::IconError;

verus! {

/// The fields of a bitmap object that the extraction reads, as the
/// operating system reports them.
#[derive(Debug, Clone, Copy, PartialEq, Eq, Structural)]
pub struct BitmapRecord {
    pub width: i32,
    pub height: i32,
    pub bits_per_pixel: u16,
}

/// Width, height and bit depth of a bitmap; width and height are positive.
#[derive(Debug, Clone, Copy, PartialEq, Eq, Structural)]
pub struct BitmapGeometry {
    pub width: u32,
    pub height: u32,
    pub bits_per_pixel: u16,
}

/// The size in bytes of a 32-bit-per-pixel buffer for `width` by `height` pixels.
pub open spec fn byte_len(width: u32, height: u32) -> int {
    width as int * height as int * 4
}

impl BitmapGeometry {
    /// Width and height are positive and each fits a signed 32-bit field.
    pub open spec fn wf(&self) -> bool {
        &&& 0 < self.width <= i32::MAX
        &&& 0 < self.height <= i32::MAX
    }

    /// The number of bytes that a top-down 32-bit copy of the bitmap fills.
    pub open spec fn pixel_len(&self) -> int {
        byte_len(self.width, self.height)
    }
}

/// A record describes a bitmap when its width and height are positive.
pub open spec fn record_is_valid(rec: BitmapRecord) -> bool {
    rec.width > 0 && rec.height > 0
}

/// Reads the geometry of a bitmap from its object record. A record with a
/// width or height that is not positive comes from a failed or mismatched
/// query and is an `OsFailure`.
pub fn geometry_from_record(rec: BitmapRecord) -> (r: Result<BitmapGeometry, IconError>)
    ensures
        r is Ok <==> record_is_valid(rec),
        r is Err ==> r == Err::<BitmapGeometry, IconError>(IconError::OsFailure),
        r matches Ok(g) ==> {
            &&& g.wf()
            &&& g.width == rec.width
            &&& g.height == rec.height
            &&& g.bits_per_pixel == rec.bits_per_pixel
        },
{
    if rec.width <= 0 || rec.height <= 0 {
        return Err(IconError::OsFailure);
    }
    Ok(BitmapGeometry {
        width: rec.width as u32,
        height: rec.height as u32,
        bits_per_pixel: rec.bits_per_pixel,
    })
}

/// The size of the header of a device-independent bitmap request, in bytes.
pub const DIB_HEADER_SIZE: u32 = 40;

/// The bit depth that every pixel copy asks for.
pub const REQUEST_BITS_PER_PIXEL: u16 = 32;

/// Uncompressed RGB pixels.
pub const COMPRESSION_RGB: u32 = 0;

/// The pixel layout handed to the operating system for a copy out of a
/// bitmap: a negative height asks for rows ordered top-down.
#[derive(Debug, Clone, Copy, PartialEq, Eq, Structural)]
pub struct DibRequest {
    pub header_size: u32,
    pub width: i32,
    pub height: i32,
    pub planes: u16,
    pub bits_per_pixel: u16,
    pub compression: u32,
}

impl DibRequest {
    /// The request that copies a bitmap of geometry `g` as 32-bit pixels in
    /// top-down rows.
    pub open spec fn top_down_of(g: BitmapGeometry) -> DibRequest {
        DibRequest {
            header_size: DIB_HEADER_SIZE,
            width: g.width as i32,
            height: (-(g.height as int)) as i32,
            planes: 1,
            bits_per_pixel: REQUEST_BITS_PER_PIXEL,
            compression: COMPRESSION_RGB,
        }
    }

    /// The layout to request for a bitmap of geometry `g`.
    pub fn top_down(g: BitmapGeometry) -> (r: DibRequest)
        requires
            g.wf(),
        ensures
            r == Self::top_down_of(g),
            r.width as int == g.width as int,
            r.height as int == -(g.height as int),
            r.bits_per_pixel == 32,
    {
        DibRequest {
            header_size: DIB_HEADER_SIZE,
            width: g.width as i32,
            height: -(g.height as i32),
            planes: 1,
            bits_per_pixel: REQUEST_BITS_PER_PIXEL,
            compression: COMPRESSION_RGB,
        }
    }

    /// Whether rows come top-down: the requested height is negative.
    pub fn is_top_down(&self) -> (r: bool)
        ensures
            r == (self.height < 0),
    {
        self.height < 0
    }
}

/// The number of bytes a 32-bit copy of a bitmap of geometry `g` fills, or
/// `None` where that number does not fit in `usize`.
pub fn pixel_buffer_len(g: BitmapGeometry) -> (r: Option<usize>)
    ensures
        r is Some <==> g.pixel_len() <= usize::MAX,
        r matches Some(n) ==> n as int == g.pixel_len(),
{
    let w: usize = g.width as usize;
    let h: usize = g.height as usize;
    match w.checked_mul(h) {
        Some(wh) => match wh.checked_mul(4) {
            Some(n) => Some(n),
            None => {
                proof {
                    assert(g.pixel_len() == wh as int * 4) by (nonlinear_arith)
                        requires wh as int == w as int * h as int, w == g.width, h == g.height;
                }
                None
            },
        },
        None => {
            proof {
                assert(w as int * h as int * 4 >= w as int * h as int) by (nonlinear_arith)
                    requires w >= 0, h >= 0;
            }
            None
        },
    }
}

} // verus!
