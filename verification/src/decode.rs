//! The calls into `std` and into the `image` crate that the extraction rests
//! on. Nothing in this file is proved: each contract is taken on trust from
//! the documentation or the source of the function it describes.

use core::str::Utf8Error;

use image::{DynamicImage, ImageError, ImageFormat};
use vstd::prelude::*;
use vstd::string::StringSliceAdditionalSpecFns;
use vstd::utf8::valid_utf8;

use crate::pixel::{DecodedImage, PixelKind};

verus! {

/// `core::str::Utf8Error`, carried through as an opaque value.
#[verifier::external_type_specification]
#[verifier::external_body]
pub struct ExUtf8Error(Utf8Error);

/// `image::ImageError`, carried through as an opaque value.
#[verifier::external_type_specification]
#[verifier::external_body]
pub struct ExImageError(ImageError);

/// `core::str::from_utf8` succeeds exactly on the byte slices that are valid
/// UTF-8, and the string slice it then returns is made of the same bytes.
pub assume_specification[ core::str::from_utf8 ](v: &[u8]) -> (text: Result<&str, Utf8Error>)
    ensures
        text is Ok <==> valid_utf8(v@),
        text matches Ok(s) ==> s.spec_bytes() == v@,
;

/// What decoding the bytes `data` gives when the container format is the one
/// that the extension of `path` names: the storage kind and the dimensions of
/// the decoded image, or `None` where the extension names no known format or
/// the decoder rejects the bytes. The extension is found by the path rules of
/// the platform that the library is built for.
pub uninterp spec fn decoded(path: Seq<char>, data: Seq<u8>) -> Option<DecodedImage>;

/// Picks the container format with `image::ImageFormat::from_path` and
/// decodes `data` in full with `image::load_from_memory_with_format`, which
/// reads from memory alone and, the format being given, passes by the
/// decoders that a program can register at run time. The contract claims
/// only that the outcome depends on nothing but the two
/// arguments: success, and on success the variant of `image::DynamicImage`
/// and what its `width()` and `height()` return, are those that `decoded`
/// names. Nothing is claimed of which error comes back.
#[verifier::external_body]
pub(crate) fn decode(path: &str, data: &[u8]) -> (outcome: Result<DecodedImage, ImageError>)
    ensures
        outcome is Ok <==> decoded(path@, data@) is Some,
        outcome matches Ok(image) ==> decoded(path@, data@) == Some(image),
{
    let img = image::load_from_memory_with_format(data, ImageFormat::from_path(path)?)?;
    let kind = match &img {
        DynamicImage::ImageLuma8(_) => PixelKind::Luma8,
        DynamicImage::ImageLumaA8(_) => PixelKind::LumaA8,
        DynamicImage::ImageRgb8(_) => PixelKind::Rgb8,
        DynamicImage::ImageRgba8(_) => PixelKind::Rgba8,
        DynamicImage::ImageLuma16(_) => PixelKind::Luma16,
        DynamicImage::ImageLumaA16(_) => PixelKind::LumaA16,
        DynamicImage::ImageRgb16(_) => PixelKind::Rgb16,
        DynamicImage::ImageRgba16(_) => PixelKind::Rgba16,
        _ => PixelKind::Other,
    };
    Ok(DecodedImage { kind, width: img.width(), height: img.height() })
}

} // verus!
