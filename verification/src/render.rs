//! The rasteriser: from an image to the raster lines of a print job.
//!
//! An image is flattened onto white, turned grey, resampled to 720 pixels
//! across, brightened, dithered to black and white and packed, in that
//! order. Images more than one and a half times as tall as wide are turned
//! away before any of it.

use crate::error::PrinterBotError;
use crate::imaging::{
    brightened, correct_gamma, decode, decoded, dither, dithered, flatten, flattened, grayed,
    resampled, resize, to_gray,
};
use crate::pixels::{pixel_count, PixelGrid, RgbaImage, MAX_RASTER_HEIGHT};
use crate::raster::{pack_line, packed_line, row_of, RasterLine};
use vstd::prelude::*;

verus! {

/// How a job is printed.
pub struct Settings {
    /// Print at double vertical density. The raster then has twice the
    /// lines, since the dots are half as tall.
    pub dpi_600: bool,
}

/// Pixels across a raster.
pub const RASTER_WIDTH: u32 = 720;

/// The grey levels that a raster is dithered to: black at index 0, white at
/// index 1.
pub open spec fn palette() -> Seq<u8> {
    seq![0u8, 255u8]
}

/// Whether an image is more than one and a half times as tall as wide.
pub open spec fn is_too_tall(width: u32, height: u32) -> bool {
    2 * height > 3 * width
}

/// `720 * height / width` rounded to the nearest whole number, halves
/// upwards: the height that keeps the aspect ratio at 720 pixels across.
pub open spec fn scaled_height(width: u32, height: u32) -> int {
    (1440 * height + width) / (2 * width)
}

/// The number of raster lines of an image.
pub open spec fn raster_height(width: u32, height: u32, high_density: bool) -> int {
    if high_density {
        2 * scaled_height(width, height)
    } else {
        scaled_height(width, height)
    }
}

/// The palette index of each pixel of the raster of an image.
pub open spec fn raster_indices(image: PixelGrid, high_density: bool) -> Seq<u8> {
    dithered(
        palette(),
        brightened(
            resampled(
                grayed(flattened(image)),
                RASTER_WIDTH,
                raster_height(image.width, image.height, high_density) as u32,
            ),
        ),
    )
}

/// The first `height` rows of a 720 pixel wide image of palette indices,
/// each packed into the bytes of a raster line, top row first.
pub open spec fn packed_lines(indices: Seq<u8>, height: int) -> Seq<Seq<u8>> {
    Seq::new(height as nat, |y: int| packed_line(row_of(indices, y)))
}

/// The bytes of each line.
pub open spec fn line_bytes(lines: Seq<RasterLine>) -> Seq<Seq<u8>> {
    Seq::new(lines.len(), |y: int| lines[y]@)
}

/// What rasterising an image gives: the bytes of its raster lines, or
/// `InvalidImage` where it is too tall.
pub open spec fn rendered(image: PixelGrid, high_density: bool) -> Result<
    Seq<Seq<u8>>,
    PrinterBotError,
> {
    if is_too_tall(image.width, image.height) {
        Err(PrinterBotError::InvalidImage)
    } else {
        Ok(
            packed_lines(
                raster_indices(image, high_density),
                raster_height(image.width, image.height, high_density),
            ),
        )
    }
}

/// Whether `outcome` is what `wanted` says: the same failure, or lines of
/// the same bytes.
pub open spec fn is_outcome(
    outcome: Result<Vec<RasterLine>, PrinterBotError>,
    wanted: Result<Seq<Seq<u8>>, PrinterBotError>,
) -> bool {
    match outcome {
        Ok(lines) => wanted == Ok::<Seq<Seq<u8>>, PrinterBotError>(line_bytes(lines@)),
        Err(e) => wanted == Err::<Seq<Seq<u8>>, PrinterBotError>(e),
    }
}

/// What rasterising an image file gives: `DecodeFailure` where it does not
/// decode, else what rasterising the decoded image gives.
pub open spec fn rasterized(bytes: Seq<u8>, high_density: bool) -> Result<
    Seq<Seq<u8>>,
    PrinterBotError,
> {
    match decoded(bytes) {
        Some(image) => rendered(image, high_density),
        None => Err(PrinterBotError::DecodeFailure),
    }
}

/// At most one outcome is what `wanted` says: rasterising is a function of
/// its input, so two runs on the same input end in the same failure or give
/// byte for byte the same lines.
pub proof fn lemma_outcome_is_unique(
    wanted: Result<Seq<Seq<u8>>, PrinterBotError>,
    first: Result<Vec<RasterLine>, PrinterBotError>,
    second: Result<Vec<RasterLine>, PrinterBotError>,
)
    requires
        is_outcome(first, wanted),
        is_outcome(second, wanted),
    ensures
        first is Ok <==> second is Ok,
        first is Ok ==> first.unwrap()@ == second.unwrap()@,
        first is Err ==> first.unwrap_err() == second.unwrap_err(),
{
    if first is Ok {
        let a = first.unwrap()@;
        let b = second.unwrap()@;
        assert(line_bytes(a) == line_bytes(b));
        assert(a.len() == b.len());
        assert forall|y: int| 0 <= y < a.len() implies a[y] == b[y] by {
            assert(line_bytes(a)[y] == a[y]@);
            assert(line_bytes(b)[y] == b[y]@);
            assert(a[y] =~= b[y]);
        }
        assert(a =~= b);
    }
}

/// Rasterising the same image at the same density twice gives the same
/// failure or byte for byte the same lines.
pub proof fn lemma_render_is_deterministic(
    image: PixelGrid,
    high_density: bool,
    first: Result<Vec<RasterLine>, PrinterBotError>,
    second: Result<Vec<RasterLine>, PrinterBotError>,
)
    requires
        is_outcome(first, rendered(image, high_density)),
        is_outcome(second, rendered(image, high_density)),
    ensures
        first is Ok <==> second is Ok,
        first is Ok ==> first.unwrap()@ == second.unwrap()@,
        first is Err ==> first.unwrap_err() == second.unwrap_err(),
{
    lemma_outcome_is_unique(rendered(image, high_density), first, second);
}

/// Rasterising the same file at the same density twice gives the same
/// failure or byte for byte the same lines.
pub proof fn lemma_rasterize_is_deterministic(
    bytes: Seq<u8>,
    high_density: bool,
    first: Result<Vec<RasterLine>, PrinterBotError>,
    second: Result<Vec<RasterLine>, PrinterBotError>,
)
    requires
        is_outcome(first, rasterized(bytes, high_density)),
        is_outcome(second, rasterized(bytes, high_density)),
    ensures
        first is Ok <==> second is Ok,
        first is Ok ==> first.unwrap()@ == second.unwrap()@,
        first is Err ==> first.unwrap_err() == second.unwrap_err(),
{
    lemma_outcome_is_unique(rasterized(bytes, high_density), first, second);
}

/// The scaled height is the whole number nearest to `720 * height / width`:
/// it differs from it by at most a half.
pub proof fn lemma_scaled_height_is_nearest(width: u32, height: u32)
    requires
        width > 0,
    ensures
        0 <= scaled_height(width, height),
        (2 * scaled_height(width, height) - 1) * width <= 1440 * height,
        1440 * height < (2 * scaled_height(width, height) + 1) * width,
{
    let q = scaled_height(width, height);
    let n = 1440 * height + width;
    let d = 2 * width;
    assert(0 <= n - q * d < d && q >= 0) by (nonlinear_arith)
        requires
            q == n / d,
            d > 0,
            n >= 0,
    ;
    assert((2 * q - 1) * width == q * d - width) by (nonlinear_arith)
        requires
            d == 2 * width,
    ;
    assert((2 * q + 1) * width == q * d + width) by (nonlinear_arith)
        requires
            d == 2 * width,
    ;
}

/// An image that is not too tall has at most 2160 raster lines.
pub proof fn lemma_raster_height_bound(width: u32, height: u32, high_density: bool)
    requires
        width > 0,
        !is_too_tall(width, height),
    ensures
        0 <= raster_height(width, height, high_density) <= MAX_RASTER_HEIGHT,
        0 <= scaled_height(width, height) <= 1080,
{
    let q = scaled_height(width, height);
    lemma_scaled_height_is_nearest(width, height);
    assert(q <= 1080) by (nonlinear_arith)
        requires
            (2 * q - 1) * width <= 1440 * height,
            2 * height <= 3 * width,
            width > 0,
    ;
}

/// The number of raster lines of an image that is not too tall.
pub fn raster_rows(width: u32, height: u32, high_density: bool) -> (rows: u32)
    requires
        width > 0,
        !is_too_tall(width, height),
    ensures
        rows == raster_height(width, height, high_density),
        rows <= MAX_RASTER_HEIGHT,
{
    proof {
        lemma_raster_height_bound(width, height, high_density);
    }
    let scaled: u64 = (1440 * (height as u64) + (width as u64)) / (2 * (width as u64));
    if high_density {
        (2 * scaled) as u32
    } else {
        scaled as u32
    }
}

/// Packs the rows of a 720 pixel wide image of palette indices into raster
/// lines, top row first.
pub fn pack_lines(indices: &Vec<u8>, rows: u32) -> (lines: Vec<RasterLine>)
    requires
        indices@.len() == 720 * rows,
    ensures
        lines@.len() == rows,
        line_bytes(lines@) == packed_lines(indices@, rows as int),
{
    let mut lines: Vec<RasterLine> = Vec::new();
    let mut y: usize = 0;
    while y < rows as usize
        invariant
            y <= rows,
            indices@.len() == 720 * rows,
            lines@.len() == y,
            forall|j: int| 0 <= j < y ==> (#[trigger] lines@[j])@ == packed_line(row_of(indices@, j)),
        decreases rows - y,
    {
        let line = pack_line(indices.as_slice(), y);
        lines.push(line);
        y += 1;
    }
    assert(line_bytes(lines@) =~= packed_lines(indices@, rows as int));
    lines
}

/// Rasterises a decoded image.
///
/// An image more than one and a half times as tall as wide gives
/// `InvalidImage`. Any other image gives its raster lines, top line first:
/// `720 * height / width` of them, rounded to the nearest whole number, and
/// twice as many at high density.
pub fn render_image(image: &RgbaImage, settings: &Settings) -> (outcome: Result<
    Vec<RasterLine>,
    PrinterBotError,
>)
    ensures
        is_outcome(outcome, rendered(image@, settings.dpi_600)),
        is_too_tall(image@.width, image@.height) <==> outcome == Err::<
            Vec<RasterLine>,
            PrinterBotError,
        >(PrinterBotError::InvalidImage),
        !is_too_tall(image@.width, image@.height) <==> outcome is Ok,
        outcome is Ok ==> outcome.unwrap()@.len() == raster_height(
            image@.width,
            image@.height,
            settings.dpi_600,
        ),
{
    let width = image.width();
    let height = image.height();
    if 2 * (height as u64) > 3 * (width as u64) {
        return Err(PrinterBotError::InvalidImage);
    }
    let rows = raster_rows(width, height, settings.dpi_600);
    let opaque = flatten(image);
    let gray = to_gray(&opaque);
    assert(4 * (width * rows) <= usize::MAX) by (nonlinear_arith)
        requires
            (4 * MAX_RASTER_HEIGHT) * width <= usize::MAX,
            rows <= MAX_RASTER_HEIGHT,
    ;
    let resized = resize(&gray, RASTER_WIDTH, rows);
    let bright = correct_gamma(resized);
    let mut levels: Vec<u8> = Vec::new();
    levels.push(0u8);
    levels.push(255u8);
    assert(levels@ =~= palette());
    let indices = dither(&levels, &bright);
    let lines = pack_lines(&indices, rows);
    Ok(lines)
}

/// Rasterises an image file held in memory.
///
/// Bytes that do not decode give `DecodeFailure`; a decoded image is
/// rasterised as `render_image` does.
pub fn rasterize(bytes: &[u8], settings: &Settings) -> (outcome: Result<
    Vec<RasterLine>,
    PrinterBotError,
>)
    ensures
        is_outcome(outcome, rasterized(bytes@, settings.dpi_600)),
{
    match decode(bytes) {
        Ok(image) => render_image(&image, settings),
        Err(e) => Err(e),
    }
}

/// The samples of the picture that shows palette indices: an opaque
/// pixel for each index, black for 0 and white for 1.
pub open spec fn preview_samples(indices: Seq<u8>) -> Seq<u8> {
    Seq::new(
        4 * indices.len(),
        |i: int|
            if i % 4 == 3 {
                255u8
            } else {
                (indices[i / 4] * 255) as u8
            },
    )
}

/// Whether the first `width * height` of some palette indices can be
/// shown as a picture of `width` by `height` pixels: there is an index for
/// each pixel, each of those is 0 or 1, the number of the last pixel fits
/// 32 bits, and this machine can address the four samples of each pixel.
pub open spec fn can_preview(indices: Seq<u8>, width: u32, height: u32) -> bool {
    &&& width * height <= indices.len()
    &&& width * height <= 0x1_0000_0000
    &&& 4 * (width * height) <= usize::MAX
    &&& forall|i: int| 0 <= i < width * height ==> indices[i] <= 1
}

/// Draws dithered palette indices as a picture of `width` by `height`
/// pixels, for looking at what would be printed: the samples of the
/// picture, row by row, four for each pixel. Pixel `(x, y)` shows index
/// `y * width + x`; indices after the last pixel are not read.
pub fn dithered_preview(data: &[u8], width: u32, height: u32) -> (samples: Vec<u8>)
    requires
        can_preview(data@, width, height),
    ensures
        samples@ == preview_samples(data@.take(width * height)),
{
    let total: usize = pixel_count(width, height) as usize;
    let ghost shown = data@.take(total as int);
    let mut samples: Vec<u8> = Vec::new();
    let mut i: usize = 0;
    while i < total
        invariant
            i <= total,
            total <= data@.len(),
            4 * total <= usize::MAX,
            shown == data@.take(total as int),
            forall|j: int| 0 <= j < total ==> data@[j] <= 1,
            samples@.len() == 4 * i,
            forall|j: int| 0 <= j < 4 * i ==> #[trigger] samples@[j] == preview_samples(shown)[j],
        decreases total - i,
    {
        let index = data[i];
        let level: u8 = index * 255;
        let ghost before = samples@;
        samples.push(level);
        samples.push(level);
        samples.push(level);
        samples.push(255);
        proof {
            assert(shown[i as int] == data@[i as int]);
            assert forall|j: int| 0 <= j < 4 * (i + 1) implies #[trigger] samples@[j]
                == preview_samples(shown)[j] by {
                if j < 4 * i {
                    assert(samples@[j] == before[j]);
                }
            }
        }
        i += 1;
    }
    assert(samples@ =~= preview_samples(shown));
    samples
}

} // verus!
