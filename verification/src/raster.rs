//! The pixel buffer and the codec calls.
//!
//! Everything in this module that is marked `external_body`, declared with
//! `external_type_specification`, or written without a body is believed by
//! the verifier, not proved. Each such item names the function of the `image`
//! crate that it stands for. The rest of the module is verified against them.

use crate::catalog::Format;
use vstd::prelude::*;

verus! {

/// `image::DynamicImage`, a decoded pixel buffer. Its contents are opaque to
/// the verifier.
#[verifier::external_type_specification]
#[verifier::external_body]
pub struct ExDynamicImage(image::DynamicImage);

/// `image::ImageError`, the failure of a codec call. Opaque.
#[verifier::external_type_specification]
#[verifier::external_body]
pub struct ExImageError(image::ImageError);

/// The number of pixel columns of a buffer: what `DynamicImage::width`
/// returns.
pub uninterp spec fn pixel_width(pixels: image::DynamicImage) -> u32;

/// The number of pixel rows of a buffer: what `DynamicImage::height`
/// returns.
pub uninterp spec fn pixel_height(pixels: image::DynamicImage) -> u32;

/// `DynamicImage::width` reads the width stored with the buffer.
pub assume_specification[ image::DynamicImage::width ](pixels: &image::DynamicImage) -> (w: u32)
    ensures
        w == pixel_width(*pixels),
;

/// `DynamicImage::height` reads the height stored with the buffer.
pub assume_specification[ image::DynamicImage::height ](pixels: &image::DynamicImage) -> (h: u32)
    ensures
        h == pixel_height(*pixels),
;

/// Whether a buffer of `width` by `height` pixels can be addressed at 16
/// bytes a pixel, the most that any pixel layout takes (four channels of four
/// bytes). No allocation may exceed `isize::MAX` bytes.
pub open spec fn addressable(width: u32, height: u32) -> bool {
    16 * (width as int) * (height as int) <= isize::MAX as int
}

/// The longest side, in pixels, of an image that is resampled or that
/// resampling gives: 2^20.
///
/// The resampler computes in `f32` where in the source each pixel of the
/// result is centred: the pixel's index plus one half, times the quotient of
/// the source's and the result's length. Up to this length every index, and
/// every index plus one half, is exact in `f32`, and the two roundings of the
/// quotient and the product leave the centre within an eighth of a pixel of
/// its true place.
pub const MAX_SIDE: u32 = 1_048_576;

/// Whether an image of `source_width` by `source_height` pixels can be
/// resampled to `width` by `height`: no side of the source or of the result
/// is longer than `MAX_SIDE`, and the two buffers that resampling builds can
/// be addressed, one of `source_width` by `height` pixels and from it the
/// result of `width` by `height`.
pub open spec fn resizable(source_width: u32, source_height: u32, width: u32, height: u32) -> bool {
    &&& source_width <= MAX_SIDE
    &&& source_height <= MAX_SIDE
    &&& width <= MAX_SIDE
    &&& height <= MAX_SIDE
    &&& addressable(source_width, height)
    &&& addressable(width, height)
}

/// How the pixels of a resized image are computed from those of the source.
#[derive(Clone, Copy, Debug, PartialEq, Eq, Structural)]
pub enum Filter {
    /// The nearest pixel.
    Nearest,
    /// Linear interpolation.
    Triangle,
    /// The Catmull-Rom cubic.
    CatmullRom,
    /// A Gaussian of standard deviation one half.
    Gaussian,
    /// The Lanczos filter of radius 3.
    Lanczos3,
}

/// `DynamicImage::resize_exact` with the filter of the same name.
///
/// Claimed of it: the result has exactly the width and height asked for.
///
/// The call panics on two grounds, and `requires` leaves both out. It
/// allocates the two buffers that `resizable` speaks of and panics where the
/// length of one overflows. And for each pixel of the result it divides the
/// weights of the source pixels in a window by their sum, then converts the
/// weighted sum to an integer sample, which panics on a value that is not a
/// number; that comes of a sum of zero, when rounding has carried the centre
/// of the window away from every pixel that the filter weighs. With no side
/// longer than `MAX_SIDE` the centre is within an eighth of a pixel of its
/// true place, so the window holds the source pixel nearest to it, no more
/// than five eighths of a pixel away, where each of the five filters is at
/// its heaviest; the negative lobes of the Catmull-Rom and the Lanczos
/// filter do not outweigh it. An empty source and a result without pixels
/// are not sampled at all. Running out of memory for a length that can be
/// addressed is not modelled.
#[verifier::external_body]
fn resample(pixels: &image::DynamicImage, width: u32, height: u32, filter: Filter) -> (out:
    image::DynamicImage)
    requires
        resizable(pixel_width(*pixels), pixel_height(*pixels), width, height),
    ensures
        pixel_width(out) == width,
        pixel_height(out) == height,
{
    let kind = match filter {
        Filter::Nearest => image::imageops::FilterType::Nearest,
        Filter::Triangle => image::imageops::FilterType::Triangle,
        Filter::CatmullRom => image::imageops::FilterType::CatmullRom,
        Filter::Gaussian => image::imageops::FilterType::Gaussian,
        Filter::Lanczos3 => image::imageops::FilterType::Lanczos3,
    };
    pixels.resize_exact(width, height, kind)
}

/// The size `(width, height)` of the image that `data` decodes to as an
/// image of the given format, or `None` where it does not decode: whether
/// `image::load_from_memory_with_format` succeeds, and the size of what it
/// returns. Both are fixed by the data and the format. The pixel values are
/// not named: the decoders choose their arithmetic by the processor they run
/// on.
pub uninterp spec fn decoded_size(data: Seq<u8>, format: Format) -> Option<(u32, u32)>;

/// Whether the pixels can be encoded in the given format: whether
/// `DynamicImage::write_to` into a buffer in memory succeeds. The bytes are
/// not named: the compressors choose their code by the processor they run
/// on.
pub uninterp spec fn encodes(pixels: image::DynamicImage, format: Format) -> bool;

/// `image::load_from_memory_with_format`: decodes `data` as an image of the
/// given format, with the default limits and without the decoding hooks.
///
/// Claimed of it: it succeeds exactly where `decoded_size` gives a size, and
/// the buffer it returns has that size.
#[verifier::external_body]
pub(crate) fn decode_as(data: &[u8], format: Format) -> (outcome: Result<
    image::DynamicImage,
    image::ImageError,
>)
    ensures
        match decoded_size(data@, format) {
            Some((width, height)) => outcome is Ok && pixel_width(outcome->Ok_0) == width
                && pixel_height(outcome->Ok_0) == height,
            None => outcome is Err,
        },
{
    let codec = match format {
        Format::Jpeg => image::ImageFormat::Jpeg,
        Format::Png => image::ImageFormat::Png,
        Format::Gif => image::ImageFormat::Gif,
        Format::WebP => image::ImageFormat::WebP,
    };
    image::load_from_memory_with_format(data, codec)
}

/// `DynamicImage::write_to` into a buffer in memory: encodes the pixels of
/// `img` in the given format.
///
/// Claimed of it: it succeeds exactly where `encodes` holds of the pixels and
/// the format.
#[verifier::external_body]
pub(crate) fn encode_as(img: &RasterImage, format: Format) -> (outcome: Result<
    Vec<u8>,
    image::ImageError,
>)
    ensures
        outcome is Ok <==> encodes(img.pixels(), format),
{
    let codec = match format {
        Format::Jpeg => image::ImageFormat::Jpeg,
        Format::Png => image::ImageFormat::Png,
        Format::Gif => image::ImageFormat::Gif,
        Format::WebP => image::ImageFormat::WebP,
    };
    let mut sink = std::io::Cursor::new(Vec::new());
    img.pixels.write_to(&mut sink, codec)?;
    Ok(sink.into_inner())
}

/// Whether a buffer of `width` by `height` pixels can be addressed.
pub fn is_addressable(width: u32, height: u32) -> (yes: bool)
    ensures
        yes == addressable(width, height),
{
    let w: u128 = width as u128;
    let h: u128 = height as u128;
    assert(w * h <= 0xFFFF_FFFF * 0xFFFF_FFFF) by (nonlinear_arith)
        requires
            w <= 0xFFFF_FFFF,
            h <= 0xFFFF_FFFF,
    ;
    assert(16 * (width as int) * (height as int) == 16 * (w * h)) by (nonlinear_arith)
        requires
            w == width,
            h == height,
    ;
    16 * (w * h) <= isize::MAX as u128
}

/// A decoded image: a grid of pixels with a width and a height.
#[derive(Debug)]
pub struct RasterImage {
    pixels: image::DynamicImage,
}

impl RasterImage {
    /// The pixel buffer that the image holds.
    pub closed spec fn pixels(&self) -> image::DynamicImage {
        self.pixels
    }

    /// Width in pixels.
    pub open spec fn spec_width(&self) -> u32 {
        pixel_width(self.pixels())
    }

    /// Height in pixels.
    pub open spec fn spec_height(&self) -> u32 {
        pixel_height(self.pixels())
    }

    /// The image that holds `pixels`.
    pub fn new(pixels: image::DynamicImage) -> (img: RasterImage)
        ensures
            img.pixels() == pixels,
    {
        RasterImage { pixels }
    }

    /// The pixel buffer, given up by the image.
    pub fn into_pixels(self) -> (pixels: image::DynamicImage)
        ensures
            pixels == self.pixels(),
    {
        self.pixels
    }

    /// Width in pixels.
    #[verifier::when_used_as_spec(spec_width)]
    pub fn width(&self) -> (w: u32)
        ensures
            w == self.spec_width(),
    {
        self.pixels.width()
    }

    /// Height in pixels.
    #[verifier::when_used_as_spec(spec_height)]
    pub fn height(&self) -> (h: u32)
        ensures
            h == self.spec_height(),
    {
        self.pixels.height()
    }

    /// Whether this image can be resampled to `width` by `height`.
    pub fn can_resize_to(&self, width: u32, height: u32) -> (yes: bool)
        ensures
            yes == resizable(self.width(), self.height(), width, height),
    {
        self.width() <= MAX_SIDE && self.height() <= MAX_SIDE && width <= MAX_SIDE && height
            <= MAX_SIDE && is_addressable(self.width(), height) && is_addressable(width, height)
    }

    /// This image resampled with `filter` to exactly `width` by `height`
    /// pixels, whatever its own proportions.
    pub fn resize_exact(&self, width: u32, height: u32, filter: Filter) -> (out: RasterImage)
        requires
            resizable(self.width(), self.height(), width, height),
        ensures
            out.width() == width,
            out.height() == height,
    {
        RasterImage { pixels: resample(&self.pixels, width, height, filter) }
    }
}

} // verus!
