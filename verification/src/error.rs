//! The failures the library reports.

use vstd::prelude::*;
use vstd::string::StringExecFns;

verus! {

/// Why a file, or a whole batch, could not be processed.
#[derive(Debug, Clone, PartialEq, Eq)]
pub enum Error {
    /// The input is unreadable or is not an image in a recognized format.
    Decode { path: String },
    /// The requested encoding is not one of the supported formats.
    UnsupportedFormat { name: String },
    /// The output, or the directory that holds it, could not be written.
    Io { path: String },
    /// The input path does not exist.
    NotFound { path: String },
    /// The image cannot be resized to this size: a side of the image or of
    /// the result is too long, or the buffers needed cannot be addressed.
    TooLarge { width: u32, height: u32 },
}

/// The mathematical value of an [`Error`]: the same variants over sequences
/// of characters.
pub enum ErrorView {
    Decode { path: Seq<char> },
    UnsupportedFormat { name: Seq<char> },
    Io { path: Seq<char> },
    NotFound { path: Seq<char> },
    TooLarge { width: u32, height: u32 },
}

impl View for Error {
    type V = ErrorView;

    open spec fn view(&self) -> ErrorView {
        match *self {
            Error::Decode { path } => ErrorView::Decode { path: path@ },
            Error::UnsupportedFormat { name } => ErrorView::UnsupportedFormat { name: name@ },
            Error::Io { path } => ErrorView::Io { path: path@ },
            Error::NotFound { path } => ErrorView::NotFound { path: path@ },
            Error::TooLarge { width, height } => ErrorView::TooLarge { width, height },
        }
    }
}

impl ErrorView {
    /// The text shown for an error: a fixed phrase, followed by the path or
    /// the format name where the error has one.
    pub open spec fn message(self) -> Seq<char> {
        match self {
            ErrorView::Decode { path } => "Failed to open image: "@ + path,
            ErrorView::UnsupportedFormat { name } => "Unsupported format: "@ + name,
            ErrorView::Io { path } => "Failed to write output: "@ + path,
            ErrorView::NotFound { path } => "Input path does not exist: "@ + path,
            ErrorView::TooLarge { .. } => "Requested size is too large"@,
        }
    }
}

impl Error {
    /// The text shown for this error.
    pub fn message(&self) -> (text: String)
        ensures
            text@ == self@.message(),
    {
        match self {
            Error::Decode { path } => String::from_str("Failed to open image: ").concat(
                path.as_str(),
            ),
            Error::UnsupportedFormat { name } => String::from_str("Unsupported format: ").concat(
                name.as_str(),
            ),
            Error::Io { path } => String::from_str("Failed to write output: ").concat(
                path.as_str(),
            ),
            Error::NotFound { path } => String::from_str("Input path does not exist: ").concat(
                path.as_str(),
            ),
            Error::TooLarge { .. } => String::from_str("Requested size is too large"),
        }
    }
}

} // verus!
