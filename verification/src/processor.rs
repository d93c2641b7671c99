//! Processing one file: from the bytes of the input to the bytes of the
//! output.
//!
//! Reading the input, creating the output directory and writing the output
//! are the caller's part. The library decodes, transforms and encodes, in two
//! steps, so that the caller can create the directory between them:
//! [`prepare`], then [`render`]. [`process_image`] does both at once.

use crate::catalog::{find_format, format_named, Format};
use crate::error::{Error, ErrorView};
use crate::paths::{extension, extension_of};
use crate::raster::{decode_as, decoded_size, encode_as, encodes, RasterImage};
use crate::raster::resizable;
use crate::transform::{
    target_size, transform, transform_ensures, Operation, OperationView,
};
use vstd::prelude::*;
use vstd::string::StringExecFns;

verus! {

/// The format that a path's extension stands for, if it has an extension and
/// the extension is supported.
pub open spec fn format_of_path(path: Seq<char>) -> Option<Format> {
    match extension_of(path) {
        Some(ext) => format_named(ext),
        None => None,
    }
}

/// The format to encode in: the one the operation named, else the one that
/// the output path's extension stands for.
pub open spec fn output_format_of(named: Option<Format>, output_path: Seq<char>) -> Option<
    Format,
> {
    match named {
        Some(format) => Some(format),
        None => format_of_path(output_path),
    }
}

/// The extension of a path, or the empty text where it has none.
pub open spec fn extension_or_empty(path: Seq<char>) -> Seq<char> {
    match extension_of(path) {
        Some(ext) => ext,
        None => Seq::empty(),
    }
}

/// The size of the image that the content `data` of the file at `path`
/// decodes to, in the format that the path's extension stands for. `None`
/// where the extension stands for no format or the data does not decode.
pub open spec fn input_size(path: Seq<char>, data: Seq<u8>) -> Option<(u32, u32)> {
    match format_of_path(path) {
        Some(format) => decoded_size(data, format),
        None => None,
    }
}

/// The format that the extension of `path` stands for.
pub fn path_format(path: &str) -> (format: Option<Format>)
    ensures
        format == format_of_path(path@),
{
    match extension(path) {
        Some(ext) => find_format(ext),
        None => None,
    }
}

/// The failure to report for an input whose content could not be read:
/// `NotFound` where the path does not exist, `Decode` for any other reason.
pub fn unreadable(path: &str, missing: bool) -> (failure: Error)
    ensures
        failure@ == if missing {
            ErrorView::NotFound { path: path@ }
        } else {
            ErrorView::Decode { path: path@ }
        },
{
    if missing {
        Error::NotFound { path: String::from_str(path) }
    } else {
        Error::Decode { path: String::from_str(path) }
    }
}

/// What a decoding outcome means for the file at `path`: the image, or a
/// `Decode` error that names the file.
pub fn decoded(path: &str, outcome: Result<image::DynamicImage, image::ImageError>) -> (loaded:
    Result<RasterImage, Error>)
    ensures
        match outcome {
            Ok(pixels) => loaded is Ok && loaded->Ok_0.pixels() == pixels,
            Err(_) => loaded is Err && loaded->Err_0@ == (ErrorView::Decode { path: path@ }),
        },
{
    match outcome {
        Ok(pixels) => Ok(RasterImage::new(pixels)),
        Err(_) => Err(Error::Decode { path: String::from_str(path) }),
    }
}

/// Decodes the content `data` of the file at `path`, in the format that the
/// path's extension stands for.
///
/// Succeeds exactly where the path has a supported extension and the data
/// decodes in that format, with an image of the size it decodes to. Every
/// failure is a `Decode` error that names the file.
pub fn load(path: &str, data: &[u8]) -> (loaded: Result<RasterImage, Error>)
    ensures
        match input_size(path@, data@) {
            Some((width, height)) => loaded is Ok && loaded->Ok_0.width() == width
                && loaded->Ok_0.height() == height,
            None => loaded is Err && loaded->Err_0@ == (ErrorView::Decode { path: path@ }),
        },
{
    match path_format(path) {
        Some(format) => decoded(path, decode_as(data, format)),
        None => Err(Error::Decode { path: String::from_str(path) }),
    }
}

/// The format to encode the output in, or `UnsupportedFormat` carrying the
/// output path's extension where neither the operation nor the extension
/// names one.
pub fn output_format(named: Option<Format>, output_path: &str) -> (chosen: Result<Format, Error>)
    ensures
        match output_format_of(named, output_path@) {
            Some(format) => chosen == Ok::<Format, Error>(format),
            None => chosen is Err && chosen->Err_0@ == (ErrorView::UnsupportedFormat {
                name: extension_or_empty(output_path@),
            }),
        },
{
    match named {
        Some(format) => Ok(format),
        None => match extension(output_path) {
            Some(ext) => match find_format(ext) {
                Some(format) => Ok(format),
                None => Err(Error::UnsupportedFormat { name: String::from_str(ext) }),
            },
            None => Err(Error::UnsupportedFormat { name: String::new() }),
        },
    }
}

/// What an encoding outcome means for the output at `output_path`: the
/// encoded bytes, or an `Io` error that names the output.
pub fn encoded(output_path: &str, outcome: Result<Vec<u8>, image::ImageError>) -> (written:
    Result<Vec<u8>, Error>)
    ensures
        match outcome {
            Ok(bytes) => written == Ok::<Vec<u8>, Error>(bytes),
            Err(_) => written is Err && written->Err_0@ == (ErrorView::Io { path: output_path@ }),
        },
{
    match outcome {
        Ok(bytes) => Ok(bytes),
        Err(_) => Err(Error::Io { path: String::from_str(output_path) }),
    }
}

/// What `prepare` returns. For an input that does not decode, a `Decode`
/// error that names the input, whatever the operation. For an input that
/// decodes, what `transform` returns for an image of the size it decodes
/// to.
pub open spec fn prepare_ensures(
    input_path: Seq<char>,
    data: Seq<u8>,
    op: OperationView,
    out: Result<(RasterImage, Option<Format>), Error>,
) -> bool {
    match input_size(input_path, data) {
        Some((width, height)) => exists|img: RasterImage|
            img.width() == width && img.height() == height && #[trigger] transform_ensures(
                img,
                op,
                out,
            ),
        None => out is Err && out->Err_0@ == (ErrorView::Decode { path: input_path }),
    }
}

/// Decodes the input and applies the operation to it.
pub fn prepare(input_path: &str, data: &[u8], op: &Operation) -> (out: Result<
    (RasterImage, Option<Format>),
    Error,
>)
    ensures
        prepare_ensures(input_path@, data@, op@, out),
{
    match load(input_path, data) {
        Ok(img) => {
            let out = transform(img, op);
            assert(transform_ensures(img, op@, out));
            out
        },
        Err(e) => Err(e),
    }
}

/// What `render` returns. Without a format to encode in,
/// `UnsupportedFormat` carrying the output path's extension. With one,
/// success exactly where the image can be encoded in that format, and
/// otherwise an `Io` error that names the output.
pub open spec fn render_ensures(
    img: RasterImage,
    named: Option<Format>,
    output_path: Seq<char>,
    out: Result<Vec<u8>, Error>,
) -> bool {
    match output_format_of(named, output_path) {
        Some(format) => if encodes(img.pixels(), format) {
            out is Ok
        } else {
            out is Err && out->Err_0@ == (ErrorView::Io { path: output_path })
        },
        None => out is Err && out->Err_0@ == (ErrorView::UnsupportedFormat {
            name: extension_or_empty(output_path),
        }),
    }
}

/// Encodes `img` for the output at `output_path`, in the format `named` or,
/// without one, in the format that the output path's extension stands for.
pub fn render(img: &RasterImage, named: Option<Format>, output_path: &str) -> (out: Result<
    Vec<u8>,
    Error,
>)
    ensures
        render_ensures(*img, named, output_path@, out),
{
    match output_format(named, output_path) {
        Ok(format) => encoded(output_path, encode_as(img, format)),
        Err(e) => Err(e),
    }
}

/// What `process_image` returns: the failure of `prepare`, or, for the image
/// and the format that `prepare` gave, what `render` returns.
pub open spec fn process_ensures(
    input_path: Seq<char>,
    data: Seq<u8>,
    output_path: Seq<char>,
    op: OperationView,
    out: Result<Vec<u8>, Error>,
) -> bool {
    exists|prepared: Result<(RasterImage, Option<Format>), Error>|
        {
            &&& #[trigger] prepare_ensures(input_path, data, op, prepared)
            &&& match prepared {
                Ok((img, named)) => render_ensures(img, named, output_path, out),
                Err(e) => out == Err::<Vec<u8>, Error>(e),
            }
        }
}

/// Which failures `process_image` can report, and of what.
///
/// `Decode` names the input, and comes only for an input that does not
/// decode. `UnsupportedFormat` carries the format name of a conversion that
/// names no recognized format, or the extension of the output path of a
/// resize where that extension stands for no format. `TooLarge` comes from a
/// resize with a side requested. `Io` names the output, and comes only where
/// a format to encode in was found. `NotFound` is never reported: the
/// library reads no file.
pub open spec fn failure_allowed(
    input_path: Seq<char>,
    data: Seq<u8>,
    output_path: Seq<char>,
    op: OperationView,
    failure: ErrorView,
) -> bool {
    match failure {
        ErrorView::Decode { path } => path == input_path && input_size(input_path, data) is None,
        ErrorView::UnsupportedFormat { name } => match op {
            OperationView::Convert { format } => format_named(format) is None && name == format,
            OperationView::Resize { .. } => format_of_path(output_path) is None && name
                == extension_or_empty(output_path),
        },
        ErrorView::TooLarge { .. } => match op {
            OperationView::Convert { .. } => false,
            OperationView::Resize { width, height } => width is Some || height is Some,
        },
        ErrorView::Io { path } => path == output_path && match op {
            OperationView::Convert { format } => format_named(format) is Some,
            OperationView::Resize { .. } => format_of_path(output_path) is Some,
        },
        ErrorView::NotFound { .. } => false,
    }
}

/// Processes one file: decodes `data`, the content of the file at
/// `input_path`, applies `op`, and encodes the result for `output_path`.
///
/// The steps fail in this order. An input that has no supported extension or
/// does not decode gives `Decode`, whatever else is wrong. A conversion to a
/// format that is not recognized gives `UnsupportedFormat`; a resize to a
/// size that the image cannot be resized to gives `TooLarge`. A resize whose
/// output path has no supported extension gives `UnsupportedFormat`. An
/// image that the encoder refuses gives `Io`. Everything else succeeds.
pub fn process_image(input_path: &str, data: &[u8], output_path: &str, op: &Operation) -> (out:
    Result<Vec<u8>, Error>)
    ensures
        process_ensures(input_path@, data@, output_path@, op@, out),
        input_size(input_path@, data@) is None ==> out is Err && out->Err_0@ == (
        ErrorView::Decode { path: input_path@ }),
        input_size(input_path@, data@) is Some ==> match op@ {
            OperationView::Convert { format } => format_named(format) is None ==> out is Err
                && out->Err_0@ == (ErrorView::UnsupportedFormat { name: format }),
            OperationView::Resize { .. } => format_of_path(output_path@) is None ==> out is Err,
        },
        out is Err ==> failure_allowed(input_path@, data@, output_path@, op@, out->Err_0@),
{
    let prepared = prepare(input_path, data, op);
    match prepared {
        Ok((img, named)) => {
            let out = render(&img, named, output_path);
            assert(process_ensures(input_path@, data@, output_path@, op@, out)) by {
                assert(prepare_ensures(input_path@, data@, op@, prepared));
            }
            out
        },
        Err(e) => {
            let out = Err(e);
            assert(process_ensures(input_path@, data@, output_path@, op@, out)) by {
                assert(prepare_ensures(input_path@, data@, op@, prepared));
            }
            out
        },
    }
}

/// Whether `img` has the size `(width, height)`.
pub open spec fn has_size(img: RasterImage, size: (u32, u32)) -> bool {
    img.width() == size.0 && img.height() == size.1
}

/// An input that does not decode gives `Decode`, whatever the operation and
/// whatever the output path: nothing else is looked at before.
pub proof fn lemma_decode_failure_comes_first(
    input_path: Seq<char>,
    data: Seq<u8>,
    output_path: Seq<char>,
    op: OperationView,
    out: Result<Vec<u8>, Error>,
)
    requires
        process_ensures(input_path, data, output_path, op, out),
        input_size(input_path, data) is None,
    ensures
        out is Err,
        out->Err_0@ == (ErrorView::Decode { path: input_path }),
{
}

/// For an input that decodes, a resize prepares an image of exactly
/// `target_size` of the size the input decodes to, and names no format. With
/// no side requested that is the size of the input itself, and nothing can
/// fail; with a side requested the image must be one that can be resized
/// to the target (`resizable`).
pub proof fn lemma_prepare_resize(
    input_path: Seq<char>,
    data: Seq<u8>,
    width: Option<u32>,
    height: Option<u32>,
    out: Result<(RasterImage, Option<Format>), Error>,
)
    requires
        prepare_ensures(input_path, data, OperationView::Resize { width, height }, out),
        input_size(input_path, data) is Some,
        (width is None && height is None) || ({
            let source = input_size(input_path, data)->0;
            let target = target_size(source.0, source.1, width, height);
            resizable(source.0, source.1, target.0, target.1)
        }),
    ensures
        out is Ok,
        out->Ok_0.1 is None,
        ({
            let source = input_size(input_path, data)->0;
            has_size(out->Ok_0.0, target_size(source.0, source.1, width, height))
        }),
        width is None && height is None ==> has_size(out->Ok_0.0, input_size(input_path, data)->0),
{
}

/// For an input that decodes, a conversion fails in preparing exactly where
/// the format name is not recognized, with `UnsupportedFormat` carrying the
/// name. Otherwise it prepares an image of the size the input decodes to and
/// names the format that the name stands for.
pub proof fn lemma_prepare_convert(
    input_path: Seq<char>,
    data: Seq<u8>,
    format: Seq<char>,
    out: Result<(RasterImage, Option<Format>), Error>,
)
    requires
        prepare_ensures(input_path, data, OperationView::Convert { format }, out),
        input_size(input_path, data) is Some,
    ensures
        out is Err <==> format_named(format) is None,
        out is Err ==> out->Err_0@ == (ErrorView::UnsupportedFormat { name: format }),
        out is Ok ==> out->Ok_0.1 == format_named(format) && has_size(
            out->Ok_0.0,
            input_size(input_path, data)->0,
        ),
{
}

/// For an input that decodes, a resize that the image allows (`resizable`)
/// and whose output path has a supported extension encodes an image of exactly
/// `target_size` of the size the input decodes to, in the format of the
/// output path's extension: it succeeds exactly where the encoder takes
/// that image, and fails with `Io` otherwise.
pub proof fn lemma_process_resize(
    input_path: Seq<char>,
    data: Seq<u8>,
    output_path: Seq<char>,
    width: Option<u32>,
    height: Option<u32>,
    out: Result<Vec<u8>, Error>,
)
    requires
        process_ensures(
            input_path,
            data,
            output_path,
            OperationView::Resize { width, height },
            out,
        ),
        input_size(input_path, data) is Some,
        format_of_path(output_path) is Some,
        (width is None && height is None) || ({
            let source = input_size(input_path, data)->0;
            let target = target_size(source.0, source.1, width, height);
            resizable(source.0, source.1, target.0, target.1)
        }),
    ensures
        exists|img: RasterImage|
            {
                let source = input_size(input_path, data)->0;
                &&& has_size(img, target_size(source.0, source.1, width, height))
                &&& (out is Ok <==> #[trigger] encodes(
                    img.pixels(),
                    format_of_path(output_path)->0,
                ))
                &&& (out is Err ==> out->Err_0@ == (ErrorView::Io { path: output_path }))
            },
{
    let op = OperationView::Resize { width, height };
    let prepared = choose|prepared: Result<(RasterImage, Option<Format>), Error>|
        {
            &&& #[trigger] prepare_ensures(input_path, data, op, prepared)
            &&& match prepared {
                Ok((img, named)) => render_ensures(img, named, output_path, out),
                Err(e) => out == Err::<Vec<u8>, Error>(e),
            }
        };
    lemma_prepare_resize(input_path, data, width, height, prepared);
    let img = prepared->Ok_0.0;
    assert(encodes(img.pixels(), format_of_path(output_path)->0) <==> out is Ok);
}

/// For an input that decodes, a conversion fails with `UnsupportedFormat`
/// exactly where the format name is not recognized. For a recognized name
/// it encodes an image of the size the input decodes to in the format that
/// the name stands for, whatever the extension of the output path: it
/// succeeds exactly where the encoder takes that image, and fails with `Io`
/// otherwise.
pub proof fn lemma_process_convert(
    input_path: Seq<char>,
    data: Seq<u8>,
    output_path: Seq<char>,
    format: Seq<char>,
    out: Result<Vec<u8>, Error>,
)
    requires
        process_ensures(input_path, data, output_path, OperationView::Convert { format }, out),
        input_size(input_path, data) is Some,
    ensures
        format_named(format) is None <==> out is Err && out->Err_0@ is UnsupportedFormat,
        format_named(format) is None ==> out->Err_0@ == (ErrorView::UnsupportedFormat {
            name: format,
        }),
        format_named(format) is Some ==> exists|img: RasterImage|
            {
                &&& has_size(img, input_size(input_path, data)->0)
                &&& (out is Ok <==> #[trigger] encodes(img.pixels(), format_named(format)->0))
                &&& (out is Err ==> out->Err_0@ == (ErrorView::Io { path: output_path }))
            },
{
    let op = OperationView::Convert { format };
    let prepared = choose|prepared: Result<(RasterImage, Option<Format>), Error>|
        {
            &&& #[trigger] prepare_ensures(input_path, data, op, prepared)
            &&& match prepared {
                Ok((img, named)) => render_ensures(img, named, output_path, out),
                Err(e) => out == Err::<Vec<u8>, Error>(e),
            }
        };
    lemma_prepare_convert(input_path, data, format, prepared);
    if format_named(format) is Some {
        let img = prepared->Ok_0.0;
        assert(encodes(img.pixels(), format_named(format)->0) <==> out is Ok);
    }
}

} // verus!
