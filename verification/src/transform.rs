//! What an operation does to one image: the size of the result and the
//! encoding it asks for.

use crate::catalog::{format_named, resolve_format, Format};
use crate::error::{Error, ErrorView};
use crate::raster::{resizable, Filter, RasterImage};
use vstd::prelude::*;

verus! {

/// What to do with each image.
#[derive(Debug, Clone, PartialEq, Eq)]
pub enum Operation {
    /// Resize; a missing side is computed from the other so that the
    /// proportions of the source are kept.
    Resize { width: Option<u32>, height: Option<u32> },
    /// Re-encode in the named format without touching the pixels.
    Convert { format: String },
}

/// The mathematical value of an [`Operation`].
pub enum OperationView {
    Resize { width: Option<u32>, height: Option<u32> },
    Convert { format: Seq<char> },
}

impl View for Operation {
    type V = OperationView;

    open spec fn view(&self) -> OperationView {
        match *self {
            Operation::Resize { width, height } => OperationView::Resize { width, height },
            Operation::Convert { format } => OperationView::Convert { format: format@ },
        }
    }
}

/// The quotient `n / d` rounded to the nearest integer, a half rounded up.
pub open spec fn rounded_quotient(n: nat, d: nat) -> nat
    recommends
        d > 0,
{
    (2 * n + d) / (2 * d)
}

/// The length of one side of a resized image, given the length `requested`
/// for the other side: `requested * toward / from`, rounded to the nearest
/// integer, where `from` is the source's length on the requested side and
/// `toward` its length on the side computed. A source without extent on the
/// requested side gives 0, and a length beyond `u32::MAX` gives `u32::MAX`.
pub open spec fn scaled(requested: u32, toward: u32, from: u32) -> u32 {
    if from == 0 {
        0
    } else {
        let q = rounded_quotient((requested * toward) as nat, from as nat);
        if q > u32::MAX {
            u32::MAX
        } else {
            q as u32
        }
    }
}

/// The size `(width, height)` of the result of resizing a source of
/// `source_width` by `source_height` pixels.
pub open spec fn target_size(
    source_width: u32,
    source_height: u32,
    width: Option<u32>,
    height: Option<u32>,
) -> (u32, u32) {
    match (width, height) {
        (Some(w), Some(h)) => (w, h),
        (Some(w), None) => (w, scaled(w, source_height, source_width)),
        (None, Some(h)) => (scaled(h, source_width, source_height), h),
        (None, None) => (source_width, source_height),
    }
}

/// Whether `q` is the integer nearest to `n / d`, the larger neighbour on a
/// tie: `q - 1/2 <= n / d < q + 1/2`, written without division.
pub open spec fn nearest(q: int, n: int, d: int) -> bool {
    2 * q * d <= 2 * n + d < 2 * (q + 1) * d
}

/// `rounded_quotient(n, d)` is the integer nearest to `n / d`.
pub proof fn lemma_rounded_quotient_is_nearest(n: nat, d: nat)
    requires
        d > 0,
    ensures
        nearest(rounded_quotient(n, d) as int, n as int, d as int),
{
    let q = rounded_quotient(n, d);
    let a = (2 * n + d) as int;
    let b = (2 * d) as int;
    vstd::arithmetic::div_mod::lemma_fundamental_div_mod(a, b);
    vstd::arithmetic::div_mod::lemma_mod_bound(a, b);
    assert(a == b * (a / b) + a % b);
    assert(b * (a / b) == 2 * q * d) by (nonlinear_arith)
        requires
            b == 2 * d,
            q == a / b,
    ;
    assert(2 * (q + 1) * d == 2 * q * d + b) by (nonlinear_arith)
        requires
            b == 2 * d,
    ;
}

/// With only a width requested, the result has exactly that width, and its
/// height is the source's height scaled by `width / source_width` and
/// rounded to the nearest integer, as long as that height fits in 32 bits.
pub proof fn lemma_width_only(source_width: u32, source_height: u32, width: u32)
    requires
        source_width > 0,
        rounded_quotient((width * source_height) as nat, source_width as nat) <= u32::MAX,
    ensures
        target_size(source_width, source_height, Some(width), None).0 == width,
        target_size(source_width, source_height, Some(width), None).1 == rounded_quotient(
            (width * source_height) as nat,
            source_width as nat,
        ),
        nearest(
            target_size(source_width, source_height, Some(width), None).1 as int,
            width * source_height,
            source_width as int,
        ),
{
    lemma_rounded_quotient_is_nearest((width * source_height) as nat, source_width as nat);
}

/// With only a height requested, the result has exactly that height, and its
/// width is the source's width scaled by `height / source_height` and
/// rounded to the nearest integer, as long as that width fits in 32 bits.
pub proof fn lemma_height_only(source_width: u32, source_height: u32, height: u32)
    requires
        source_height > 0,
        rounded_quotient((height * source_width) as nat, source_height as nat) <= u32::MAX,
    ensures
        target_size(source_width, source_height, None, Some(height)).1 == height,
        target_size(source_width, source_height, None, Some(height)).0 == rounded_quotient(
            (height * source_width) as nat,
            source_height as nat,
        ),
        nearest(
            target_size(source_width, source_height, None, Some(height)).0 as int,
            height * source_width,
            source_height as int,
        ),
{
    lemma_rounded_quotient_is_nearest((height * source_width) as nat, source_height as nat);
}

/// The length of the computed side: see [`scaled`].
pub fn scale(requested: u32, toward: u32, from: u32) -> (side: u32)
    ensures
        side == scaled(requested, toward, from),
        from > 0 && side < u32::MAX ==> nearest(side as int, requested * toward, from as int),
{
    if from == 0 {
        return 0;
    }
    let r: u128 = requested as u128;
    let t: u128 = toward as u128;
    let f: u128 = from as u128;
    assert(r * t <= 0xFFFF_FFFF * 0xFFFF_FFFF) by (nonlinear_arith)
        requires
            r <= 0xFFFF_FFFF,
            t <= 0xFFFF_FFFF,
    ;
    let q: u128 = (2 * (r * t) + f) / (2 * f);
    assert(q == rounded_quotient((requested * toward) as nat, from as nat));
    proof {
        lemma_rounded_quotient_is_nearest((requested * toward) as nat, from as nat);
    }
    if q > 0xFFFF_FFFF {
        u32::MAX
    } else {
        q as u32
    }
}

/// The size of the result of resizing a source of `source_width` by
/// `source_height` pixels: see [`target_size`].
pub fn target_dimensions(
    source_width: u32,
    source_height: u32,
    width: Option<u32>,
    height: Option<u32>,
) -> (size: (u32, u32))
    ensures
        size == target_size(source_width, source_height, width, height),
        width is Some && height is None && source_width > 0 && size.1 < u32::MAX ==> nearest(
            size.1 as int,
            width->0 * source_height,
            source_width as int,
        ),
        width is None && height is Some && source_height > 0 && size.0 < u32::MAX ==> nearest(
            size.0 as int,
            height->0 * source_width,
            source_height as int,
        ),
{
    match (width, height) {
        (Some(w), Some(h)) => (w, h),
        (Some(w), None) => (w, scale(w, source_height, source_width)),
        (None, Some(h)) => (scale(h, source_width, source_height), h),
        (None, None) => (source_width, source_height),
    }
}

/// What `transform` returns for an image and an operation.
///
/// Converting leaves the image as it is and names the target format, or
/// fails where the name is not recognized. Resizing with no side requested
/// leaves the image as it is. Any other resize gives an image of exactly
/// `target_size`, or fails where the image cannot be resized to it. A resize
/// names no format.
pub open spec fn transform_ensures(
    img: RasterImage,
    op: OperationView,
    out: Result<(RasterImage, Option<Format>), Error>,
) -> bool {
    match op {
        OperationView::Convert { format } => match format_named(format) {
            Some(f) => out == Ok::<(RasterImage, Option<Format>), Error>((img, Some(f))),
            None => out is Err && out->Err_0@ == (ErrorView::UnsupportedFormat { name: format }),
        },
        OperationView::Resize { width, height } => {
            let size = target_size(img.width(), img.height(), width, height);
            if width is None && height is None {
                out == Ok::<(RasterImage, Option<Format>), Error>((img, None))
            } else if resizable(img.width(), img.height(), size.0, size.1) {
                &&& out is Ok
                &&& out->Ok_0.0.width() == size.0
                &&& out->Ok_0.0.height() == size.1
                &&& out->Ok_0.1 is None
            } else {
                out is Err && out->Err_0@ == (ErrorView::TooLarge {
                    width: size.0,
                    height: size.1,
                })
            }
        },
    }
}

/// Applies `op` to one image: the image to encode, and the format to encode
/// it in where the operation names one. A resize resamples with the Lanczos
/// filter of radius 3.
pub fn transform(img: RasterImage, op: &Operation) -> (out: Result<
    (RasterImage, Option<Format>),
    Error,
>)
    ensures
        transform_ensures(img, op@, out),
{
    match op {
        Operation::Convert { format } => {
            match resolve_format(format.as_str()) {
                Ok(f) => Ok((img, Some(f))),
                Err(e) => Err(e),
            }
        },
        Operation::Resize { width, height } => {
            if width.is_none() && height.is_none() {
                return Ok((img, None));
            }
            let (w, h) = target_dimensions(img.width(), img.height(), *width, *height);
            if img.can_resize_to(w, h) {
                Ok((img.resize_exact(w, h, Filter::Lanczos3), None))
            } else {
                Err(Error::TooLarge { width: w, height: h })
            }
        },
    }
}

/// Resizing with only a width requested gives an image of exactly that
/// width, whose height is the source's height scaled by
/// `width / source width` and rounded to the nearest integer. This holds for
/// a source with some width, a height that fits in 32 bits, and wherever
/// the image can be resized to that size (`resizable`).
pub proof fn lemma_resize_width_only(
    img: RasterImage,
    width: u32,
    out: Result<(RasterImage, Option<Format>), Error>,
)
    requires
        transform_ensures(img, OperationView::Resize { width: Some(width), height: None }, out),
        img.width() > 0,
        rounded_quotient((width * img.height()) as nat, img.width() as nat) <= u32::MAX,
        resizable(img.width(), img.height(), width, scaled(width, img.height(), img.width())),
    ensures
        out is Ok,
        out->Ok_0.0.width() == width,
        out->Ok_0.0.height() == rounded_quotient(
            (width * img.height()) as nat,
            img.width() as nat,
        ),
        nearest(out->Ok_0.0.height() as int, width * img.height(), img.width() as int),
{
    lemma_width_only(img.width(), img.height(), width);
}

/// Resizing with only a height requested gives an image of exactly that
/// height, whose width is the source's width scaled by
/// `height / source height` and rounded to the nearest integer, under the
/// same conditions.
pub proof fn lemma_resize_height_only(
    img: RasterImage,
    height: u32,
    out: Result<(RasterImage, Option<Format>), Error>,
)
    requires
        transform_ensures(img, OperationView::Resize { width: None, height: Some(height) }, out),
        img.height() > 0,
        rounded_quotient((height * img.width()) as nat, img.height() as nat) <= u32::MAX,
        resizable(img.width(), img.height(), scaled(height, img.width(), img.height()), height),
    ensures
        out is Ok,
        out->Ok_0.0.height() == height,
        out->Ok_0.0.width() == rounded_quotient(
            (height * img.width()) as nat,
            img.height() as nat,
        ),
        nearest(out->Ok_0.0.width() as int, height * img.width(), img.height() as int),
{
    lemma_height_only(img.width(), img.height(), height);
}

/// Resizing with both sides requested gives an image of exactly the
/// requested size, whatever the proportions of the source, wherever the
/// image can be resized to that size (`resizable`).
pub proof fn lemma_resize_both_sides(
    img: RasterImage,
    width: u32,
    height: u32,
    out: Result<(RasterImage, Option<Format>), Error>,
)
    requires
        transform_ensures(
            img,
            OperationView::Resize { width: Some(width), height: Some(height) },
            out,
        ),
        resizable(img.width(), img.height(), width, height),
    ensures
        out is Ok,
        out->Ok_0.0.width() == width,
        out->Ok_0.0.height() == height,
{
}

/// Resizing with no side requested gives the source image itself, and so an
/// image of the same size.
pub proof fn lemma_resize_no_side(
    img: RasterImage,
    out: Result<(RasterImage, Option<Format>), Error>,
)
    requires
        transform_ensures(img, OperationView::Resize { width: None, height: None }, out),
    ensures
        out is Ok,
        out->Ok_0.0 == img,
        out->Ok_0.0.width() == img.width(),
        out->Ok_0.0.height() == img.height(),
{
}

/// Converting gives the source image itself, whatever the format.
pub proof fn lemma_convert_keeps_image(
    img: RasterImage,
    format: Seq<char>,
    out: Result<(RasterImage, Option<Format>), Error>,
)
    requires
        transform_ensures(img, OperationView::Convert { format }, out),
    ensures
        out is Ok <==> format_named(format) is Some,
        out is Ok ==> out->Ok_0.0 == img && out->Ok_0.1 == format_named(format),
{
}

} // verus!
