//! Batch image processing: aspect-preserving resize and format conversion.
//!
//! The crate holds the decisions of an image processor and proves them with
//! Verus: which files of a directory are images, where each result goes, what
//! size a resized image has, which encoding a result gets, and how the
//! outcomes of a batch add up. Pixels are decoded, resampled and encoded by
//! the `image` crate, behind the small trusted interface of [`raster`].

pub mod batch;
pub mod catalog;
pub mod error;
pub mod paths;
pub mod processor;
pub mod raster;
pub mod transform;
