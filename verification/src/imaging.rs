//! The image operations that the rasteriser is built from: decoding,
//! flattening transparency onto white, luminance, resampling, the
//! brightness curve and dithering.
//!
//! Decoding, compositing, luminance and resampling are done by the `image`
//! crate and dithering by `exoquant`. What this module states of them is
//! taken on trust: each such function says so.

use crate::error::PrinterBotError;
use crate::gamma::{gamma_correct, gamma_corrected, gamma_level};
use crate::pixels::{is_rgba_layout, GrayImage, PixelGrid, RgbaImage};
use vstd::prelude::*;

verus! {

/// The error of the `image` crate's decoders, carried through unread.
#[verifier::external_type_specification]
#[verifier::external_body]
pub struct ExImageError(image::ImageError);

/// What `image::load_from_memory` makes of `bytes` once converted to 8-bit
/// RGBA: width, height and samples, or `None` where it reports an error.
pub uninterp spec fn decoded_rgba(bytes: Seq<u8>) -> Option<(u32, u32, Seq<u8>)>;

/// The samples of `bottom` after `image::imageops::overlay` has blended
/// `top` onto it at the origin, both RGBA images of `width` by `height`.
pub uninterp spec fn overlaid(bottom: Seq<u8>, top: Seq<u8>, width: u32, height: u32) -> Seq<u8>;

/// The samples that `image::imageops::resize` gives with its `Lanczos3`
/// filter for a grey image of `width` by `height` resampled to `new_width`
/// by `new_height`.
pub uninterp spec fn lanczos3_resized(
    samples: Seq<u8>,
    width: u32,
    height: u32,
    new_width: u32,
    new_height: u32,
) -> Seq<u8>;

/// The palette index that `exoquant`'s plain Floyd-Steinberg ditherer gives
/// each pixel of a grey image `width` pixels wide, for a palette of grey
/// levels.
pub uninterp spec fn floyd_steinberg_indices(palette: Seq<u8>, samples: Seq<u8>, width: usize) -> Seq<
    u8,
>;

/// The four samples of pixel number `i` of RGBA samples.
pub open spec fn pixel(rgba: Seq<u8>, i: int) -> Seq<u8> {
    rgba.subrange(4 * i, 4 * i + 4)
}

/// The alpha sample of pixel number `i` of RGBA samples.
pub open spec fn alpha(rgba: Seq<u8>, i: int) -> u8 {
    rgba[4 * i + 3]
}

/// The luminance of a colour: the weighted mean of red, green and blue in
/// ten-thousandths, cut off to a whole number.
pub open spec fn luma(red: u8, green: u8, blue: u8) -> u8 {
    ((2126 * red + 7152 * green + 722 * blue) / 10000) as u8
}

/// The luminance of each pixel of RGBA samples; alpha is dropped.
pub open spec fn luminance(rgba: Seq<u8>) -> Seq<u8> {
    Seq::new(rgba.len() / 4, |i: int| luma(rgba[4 * i], rgba[4 * i + 1], rgba[4 * i + 2]))
}

/// Calls `image::load_from_memory`, which guesses the format from the
/// bytes, and `DynamicImage::into_rgba8`. Trusted: the result is a function
/// of the bytes alone.
#[verifier::external_body]
fn load_rgba(bytes: &[u8]) -> (loaded: Result<(u32, u32, Vec<u8>), image::ImageError>)
    ensures
        match loaded {
            Ok(parts) => decoded_rgba(bytes@) == Some((parts.0, parts.1, parts.2@)),
            Err(_) => decoded_rgba(bytes@) is None,
        },
{
    let rgba = image::load_from_memory(bytes)?.into_rgba8();
    Ok((rgba.width(), rgba.height(), rgba.into_raw()))
}

/// Calls `image::imageops::overlay` with `top` placed at the origin of
/// `bottom`. Trusted: it changes samples of `bottom` in place, so their
/// number stays; a pixel of `top` that is opaque takes the place of the
/// pixel below it, and one that is invisible leaves it as it is; and the
/// result is a function of the two images alone.
#[verifier::external_body]
fn overlay_rgba(bottom: Vec<u8>, top: &Vec<u8>, width: u32, height: u32) -> (blended: Vec<u8>)
    requires
        bottom@.len() == 4 * (width * height),
        top@.len() == 4 * (width * height),
    ensures
        blended@ == overlaid(bottom@, top@, width, height),
        blended@.len() == bottom@.len(),
        forall|i: int|
            0 <= i < width * height && alpha(top@, i) == 255 ==> #[trigger] pixel(blended@, i)
                == pixel(top@, i),
        forall|i: int|
            0 <= i < width * height && alpha(top@, i) == 0 ==> #[trigger] pixel(blended@, i)
                == pixel(bottom@, i),
{
    let mut below = image::RgbaImage::from_raw(width, height, bottom).unwrap();
    let above =
        image::ImageBuffer::<image::Rgba<u8>, &[u8]>::from_raw(width, height, top.as_slice()).unwrap();
    image::imageops::overlay(&mut below, &above, 0, 0);
    below.into_raw()
}

/// Calls `image::imageops::grayscale`. Trusted: each pixel becomes the
/// luminance of its red, green and blue samples.
#[verifier::external_body]
fn grayscale_rgba(samples: &Vec<u8>, width: u32, height: u32) -> (gray: Vec<u8>)
    requires
        samples@.len() == 4 * (width * height),
    ensures
        gray@ == luminance(samples@),
{
    let rgba =
        image::ImageBuffer::<image::Rgba<u8>, &[u8]>::from_raw(width, height, samples.as_slice()).unwrap();
    image::imageops::grayscale(&rgba).into_raw()
}

/// Calls `image::imageops::resize` with `FilterType::Lanczos3`. Trusted:
/// the result has one sample for each pixel of the new dimensions, is a
/// copy of the image where the new dimensions are the old, and is a
/// function of the image and the new dimensions alone. The bounds keep the
/// buffers it allocates within `usize`.
#[verifier::external_body]
fn resize_lanczos3(samples: &Vec<u8>, width: u32, height: u32, new_width: u32, new_height: u32) -> (resized:
    Vec<u8>)
    requires
        samples@.len() == width * height,
        4 * (width * new_height) <= usize::MAX,
        4 * (new_width * new_height) <= usize::MAX,
    ensures
        resized@ == lanczos3_resized(samples@, width, height, new_width, new_height),
        resized@.len() == new_width * new_height,
        new_width == width && new_height == height ==> resized@ == samples@,
{
    let gray =
        image::ImageBuffer::<image::Luma<u8>, &[u8]>::from_raw(width, height, samples.as_slice()).unwrap();
    let filter = image::imageops::FilterType::Lanczos3;
    image::imageops::resize(&gray, new_width, new_height, filter).into_raw()
}

/// Calls `exoquant::Remapper::remap` with `FloydSteinberg::vanilla()` and
/// the default colour space, each grey level taken as an opaque colour.
/// Trusted: it gives one palette index for each pixel and is a function of
/// palette, pixels and width alone.
#[verifier::external_body]
fn remap_floyd_steinberg(palette: &Vec<u8>, samples: &Vec<u8>, width: usize) -> (indices: Vec<u8>)
    requires
        0 < palette@.len() <= 256,
        width > 0 || samples@.len() == 0,
        2 * width <= usize::MAX,
    ensures
        indices@ == floyd_steinberg_indices(palette@, samples@, width),
        indices@.len() == samples@.len(),
{
    let colors: Vec<exoquant::Color> =
        palette.iter().map(|&level| exoquant::Color::new(level, level, level, 255)).collect();
    let image: Vec<exoquant::Color> =
        samples.iter().map(|&level| exoquant::Color::new(level, level, level, 255)).collect();
    let ditherer = exoquant::ditherer::FloydSteinberg::vanilla();
    let colorspace = exoquant::SimpleColorSpace::default();
    exoquant::Remapper::new(&colors, &colorspace, &ditherer).remap(&image, width)
}

/// The image that `bytes` decode to, where they decode to one that this
/// library takes.
pub open spec fn decoded(bytes: Seq<u8>) -> Option<PixelGrid> {
    match decoded_rgba(bytes) {
        Some((width, height, samples)) => if is_rgba_layout(width, height, samples.len()) {
            Some(PixelGrid { width, height, samples })
        } else {
            None
        },
        None => None,
    }
}

/// Decodes an image file held in memory. Fails with `DecodeFailure` where
/// the decoder rejects the bytes or the image has no layout this library
/// takes.
pub fn decode(bytes: &[u8]) -> (image: Result<RgbaImage, PrinterBotError>)
    ensures
        match image {
            Ok(image) => decoded(bytes@) == Some(image@),
            Err(e) => e == PrinterBotError::DecodeFailure && decoded(bytes@) is None,
        },
{
    match load_rgba(bytes) {
        Ok((width, height, samples)) => match RgbaImage::from_raw(width, height, samples) {
            Some(image) => Ok(image),
            None => Err(PrinterBotError::DecodeFailure),
        },
        Err(_) => Err(PrinterBotError::DecodeFailure),
    }
}

/// `len` samples, all white and opaque.
pub open spec fn white_canvas(len: nat) -> Seq<u8> {
    Seq::new(len, |i: int| 255u8)
}

/// An image composited over an opaque white background of its own size.
pub open spec fn flattened(image: PixelGrid) -> PixelGrid {
    PixelGrid {
        width: image.width,
        height: image.height,
        samples: overlaid(
            white_canvas(image.samples.len()),
            image.samples,
            image.width,
            image.height,
        ),
    }
}

/// A white, opaque pixel.
pub open spec fn white_pixel() -> Seq<u8> {
    seq![255u8, 255u8, 255u8, 255u8]
}

/// Removes transparency: blends the image over opaque white. A pixel that
/// is opaque stays as it is, and one that is invisible turns white.
pub fn flatten(image: &RgbaImage) -> (opaque: RgbaImage)
    ensures
        opaque@ == flattened(image@),
        forall|i: int|
            0 <= i < image@.width * image@.height && alpha(image@.samples, i) == 255
                ==> #[trigger] pixel(opaque@.samples, i) == pixel(image@.samples, i),
        forall|i: int|
            0 <= i < image@.width * image@.height && alpha(image@.samples, i) == 0
                ==> #[trigger] pixel(opaque@.samples, i) == white_pixel(),
{
    let samples = image.samples();
    let total: usize = samples.len();
    let mut canvas: Vec<u8> = Vec::new();
    let mut i: usize = 0;
    while i < total
        invariant
            i <= total,
            canvas@.len() == i,
            forall|j: int| 0 <= j < i ==> canvas@[j] == 255u8,
        decreases total - i,
    {
        canvas.push(255u8);
        i += 1;
    }
    assert(canvas@ =~= white_canvas(total as nat));
    let ghost white = canvas@;
    let blended = overlay_rgba(canvas, samples, image.width(), image.height());
    proof {
        assert forall|i: int|
            0 <= i < image@.width * image@.height && alpha(image@.samples, i) == 0 implies #[trigger] pixel(
            blended@,
            i,
        ) == white_pixel() by {
            assert(pixel(blended@, i) == pixel(white, i));
            assert(pixel(white, i) =~= white_pixel());
        }
    }
    RgbaImage::assemble(image.width(), image.height(), blended)
}

/// The grey image of a colour image.
pub open spec fn grayed(image: PixelGrid) -> PixelGrid {
    PixelGrid { width: image.width, height: image.height, samples: luminance(image.samples) }
}

/// Converts to 8-bit grey by luminance.
pub fn to_gray(image: &RgbaImage) -> (gray: GrayImage)
    ensures
        gray@ == grayed(image@),
{
    let samples = image.samples();
    let gray = grayscale_rgba(samples, image.width(), image.height());
    GrayImage::assemble(image.width(), image.height(), gray)
}

/// A grey image resampled to new dimensions.
pub open spec fn resampled(image: PixelGrid, new_width: u32, new_height: u32) -> PixelGrid {
    PixelGrid {
        width: new_width,
        height: new_height,
        samples: lanczos3_resized(image.samples, image.width, image.height, new_width, new_height),
    }
}

/// Resamples a grey image to `new_width` by `new_height` with a Lanczos
/// kernel of three lobes; an image that has these dimensions already is
/// copied. The bounds keep the buffers of the resampling within what this
/// machine addresses.
pub fn resize(image: &GrayImage, new_width: u32, new_height: u32) -> (resized: GrayImage)
    requires
        4 * (image@.width * new_height) <= usize::MAX,
        4 * (new_width * new_height) <= usize::MAX,
    ensures
        resized@ == resampled(image@, new_width, new_height),
        new_width == image@.width && new_height == image@.height ==> resized@ == image@,
{
    let samples = image.samples();
    let resized = resize_lanczos3(samples, image.width(), image.height(), new_width, new_height);
    GrayImage::assemble(new_width, new_height, resized)
}

/// A grey image with the brightness curve applied to every sample.
pub open spec fn brightened(image: PixelGrid) -> PixelGrid {
    PixelGrid {
        width: image.width,
        height: image.height,
        samples: gamma_corrected(image.samples),
    }
}

/// Applies the brightness curve to every sample.
pub fn correct_gamma(image: GrayImage) -> (corrected: GrayImage)
    ensures
        corrected@ == brightened(image@),
{
    let width = image.width();
    let height = image.height();
    let ghost before = image@.samples;
    let mut samples = image.into_raw();
    let total: usize = samples.len();
    let mut i: usize = 0;
    while i < total
        invariant
            i <= total,
            samples@.len() == total,
            before.len() == total,
            forall|j: int| 0 <= j < i ==> samples@[j] == gamma_level(before[j]),
            forall|j: int| i <= j < total ==> samples@[j] == before[j],
        decreases total - i,
    {
        let corrected = gamma_correct(samples[i]);
        samples[i] = corrected;
        i += 1;
    }
    assert(samples@ =~= gamma_corrected(before));
    GrayImage::assemble(width, height, samples)
}

/// The palette index of each pixel of a grey image after dithering to
/// `palette`.
pub open spec fn dithered(palette: Seq<u8>, image: PixelGrid) -> Seq<u8> {
    floyd_steinberg_indices(palette, image.samples, image.width as usize)
}

/// Quantises a grey image to a palette of grey levels by Floyd-Steinberg
/// error diffusion, scanning each row left to right and the rows top to
/// bottom. Gives the palette index of each pixel, row by row.
pub fn dither(palette: &Vec<u8>, image: &GrayImage) -> (indices: Vec<u8>)
    requires
        0 < palette@.len() <= 256,
        2 * image@.width <= usize::MAX,
    ensures
        indices@ == dithered(palette@, image@),
        indices@.len() == image@.width * image@.height,
{
    let samples = image.samples();
    assert(image@.width > 0 || samples@.len() == 0) by (nonlinear_arith)
        requires
            samples@.len() == image@.width * image@.height,
    ;
    remap_floyd_steinberg(palette, samples, image.width() as usize)
}

} // verus!
