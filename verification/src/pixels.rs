//! Pixel buffers: decoded colour images and 8-bit grey images, stored row by
//! row from the top left.

use vstd::prelude::*;

verus! {

/// The tallest raster a job can have: a source image may be one and a half
/// times as tall as wide, the raster is 720 dots wide, and high density
/// doubles the lines.
pub const MAX_RASTER_HEIGHT: u32 = 2160;

/// What a pixel buffer holds: its dimensions and its samples, row by row.
pub struct PixelGrid {
    pub width: u32,
    pub height: u32,
    pub samples: Seq<u8>,
}

/// Whether this machine can address the buffers that resampling an image of
/// this width to any raster height needs (four samples for each pixel of a
/// `width` by `MAX_RASTER_HEIGHT` grid).
pub open spec fn width_is_addressable(width: u32) -> bool {
    (4 * MAX_RASTER_HEIGHT) * width <= usize::MAX
}

/// Whether `len` samples are exactly an RGBA image of these dimensions that
/// this library takes: at least one pixel wide, four samples for each pixel.
pub open spec fn is_rgba_layout(width: u32, height: u32, len: nat) -> bool {
    &&& width > 0
    &&& len == 4 * (width * height)
    &&& width_is_addressable(width)
}

/// An image with red, green, blue and alpha samples of eight bits for each
/// pixel.
pub struct RgbaImage {
    width: u32,
    height: u32,
    pixels: Vec<u8>,
}

impl View for RgbaImage {
    type V = PixelGrid;

    closed spec fn view(&self) -> PixelGrid {
        PixelGrid { width: self.width, height: self.height, samples: self.pixels@ }
    }
}

impl RgbaImage {
    #[verifier::type_invariant]
    spec fn well_formed(&self) -> bool {
        is_rgba_layout(self.width, self.height, self.pixels@.len())
    }

    /// Takes samples that are known to have the layout of an image.
    pub(crate) fn assemble(width: u32, height: u32, pixels: Vec<u8>) -> (image: RgbaImage)
        requires
            is_rgba_layout(width, height, pixels@.len()),
        ensures
            image@ == (PixelGrid { width, height, samples: pixels@ }),
    {
        RgbaImage { width, height, pixels }
    }

    /// Takes `pixels` as an image of `width` by `height` pixels. `None`
    /// where the samples are not exactly four for each pixel, the width is
    /// zero, or the image is too wide for this machine to resample.
    pub fn from_raw(width: u32, height: u32, pixels: Vec<u8>) -> (image: Option<RgbaImage>)
        ensures
            image is Some <==> is_rgba_layout(width, height, pixels@.len()),
            image is Some ==> image.unwrap()@ == (PixelGrid {
                width,
                height,
                samples: pixels@,
            }),
    {
        let area: u64 = pixel_count(width, height);
        let wanted: u128 = 4 * (area as u128);
        let widest: u128 = 8640 * (width as u128);
        if width > 0 && pixels.len() as u128 == wanted && widest <= usize::MAX as u128 {
            Some(RgbaImage { width, height, pixels })
        } else {
            None
        }
    }

    /// Pixels in a row: at least one, and no more than this machine can
    /// resample.
    pub fn width(&self) -> (width: u32)
        ensures
            width == self@.width,
            width > 0,
            width_is_addressable(width),
    {
        proof {
            use_type_invariant(self);
        }
        self.width
    }

    /// Rows.
    pub fn height(&self) -> (height: u32)
        ensures
            height == self@.height,
    {
        self.height
    }

    /// The samples, four for each pixel, row by row. Every image has the
    /// layout that `from_raw` asks for.
    pub fn samples(&self) -> (samples: &Vec<u8>)
        ensures
            samples@ == self@.samples,
            is_rgba_layout(self@.width, self@.height, samples@.len()),
    {
        proof {
            use_type_invariant(self);
        }
        &self.pixels
    }
}

/// Whether `len` samples are exactly a grey image of these dimensions.
pub open spec fn is_gray_layout(width: u32, height: u32, len: nat) -> bool {
    len == width * height
}

/// An image with one grey sample of eight bits for each pixel, 0 black and
/// 255 white.
pub struct GrayImage {
    width: u32,
    height: u32,
    pixels: Vec<u8>,
}

impl View for GrayImage {
    type V = PixelGrid;

    closed spec fn view(&self) -> PixelGrid {
        PixelGrid { width: self.width, height: self.height, samples: self.pixels@ }
    }
}

impl GrayImage {
    #[verifier::type_invariant]
    spec fn well_formed(&self) -> bool {
        is_gray_layout(self.width, self.height, self.pixels@.len())
    }

    /// Takes samples that are known to have the layout of an image.
    pub(crate) fn assemble(width: u32, height: u32, pixels: Vec<u8>) -> (image: GrayImage)
        requires
            is_gray_layout(width, height, pixels@.len()),
        ensures
            image@ == (PixelGrid { width, height, samples: pixels@ }),
    {
        GrayImage { width, height, pixels }
    }

    /// Takes `pixels` as an image of `width` by `height` pixels. `None`
    /// where the samples are not exactly one for each pixel.
    pub fn from_raw(width: u32, height: u32, pixels: Vec<u8>) -> (image: Option<GrayImage>)
        ensures
            image is Some <==> is_gray_layout(width, height, pixels@.len()),
            image is Some ==> image.unwrap()@ == (PixelGrid {
                width,
                height,
                samples: pixels@,
            }),
    {
        let area: u64 = pixel_count(width, height);
        if pixels.len() as u64 == area {
            Some(GrayImage { width, height, pixels })
        } else {
            None
        }
    }

    /// Pixels in a row.
    pub fn width(&self) -> (width: u32)
        ensures
            width == self@.width,
    {
        self.width
    }

    /// Rows.
    pub fn height(&self) -> (height: u32)
        ensures
            height == self@.height,
    {
        self.height
    }

    /// The samples, one for each pixel, row by row. Every image has the
    /// layout that `from_raw` asks for.
    pub fn samples(&self) -> (samples: &Vec<u8>)
        ensures
            samples@ == self@.samples,
            is_gray_layout(self@.width, self@.height, samples@.len()),
    {
        proof {
            use_type_invariant(self);
        }
        &self.pixels
    }

    /// Gives the samples back.
    pub fn into_raw(self) -> (samples: Vec<u8>)
        ensures
            samples@ == self@.samples,
            is_gray_layout(self@.width, self@.height, samples@.len()),
    {
        proof {
            use_type_invariant(&self);
        }
        self.pixels
    }
}

/// The number of pixels of a `width` by `height` image.
pub fn pixel_count(width: u32, height: u32) -> (count: u64)
    ensures
        count == width * height,
{
    assert(width * height <= 0xffff_ffff * 0xffff_ffff) by (nonlinear_arith)
        requires
            width <= 0xffff_ffff,
            height <= 0xffff_ffff,
    ;
    (width as u64) * (height as u64)
}

} // verus!
