//! The ways in which metadata extraction fails.

use core::str::Utf8Error;

use image::ImageError;
use vstd::prelude::*;
use vstd::std_specs::convert::FromSpecImpl;

verus! {

/// Why no metadata could be extracted.
#[derive(Debug)]
pub enum ImageInfoError {
    /// The path is not valid UTF-8 text.
    Utf8(Utf8Error),
    /// The file could not be read, or the decoder rejected its contents. The
    /// cause is carried for diagnostics.
    Image(ImageError),
    /// The image was decoded, but no metadata is defined for the way it
    /// stores its pixels.
    UnsupportedPixelType,
}

impl From<Utf8Error> for ImageInfoError {
    fn from(e: Utf8Error) -> (error: Self)
        ensures
            error == ImageInfoError::Utf8(e),
    {
        ImageInfoError::Utf8(e)
    }
}

impl FromSpecImpl<Utf8Error> for ImageInfoError {
    open spec fn obeys_from_spec() -> bool {
        true
    }

    open spec fn from_spec(e: Utf8Error) -> ImageInfoError {
        ImageInfoError::Utf8(e)
    }
}

impl From<ImageError> for ImageInfoError {
    fn from(e: ImageError) -> (error: Self)
        ensures
            error == ImageInfoError::Image(e),
    {
        ImageInfoError::Image(e)
    }
}

impl FromSpecImpl<ImageError> for ImageInfoError {
    open spec fn obeys_from_spec() -> bool {
        true
    }

    open spec fn from_spec(e: ImageError) -> ImageInfoError {
        ImageInfoError::Image(e)
    }
}

} // verus!
