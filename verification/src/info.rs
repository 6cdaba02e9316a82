//! The metadata record and its extraction from a decoded image, from an
//! encoded image held in memory, and from a path together with what reading
//! the file at that path gave.

use image::ImageError;
use vstd::prelude::*;
use vstd::utf8::{decode_utf8, encode_utf8_decode_utf8, valid_utf8};

use crate::decode::{decode, decoded};
use crate::error::ImageInfoError;
use crate::pixel::{DecodedImage, PixelKind};

verus! {

/// The metadata of one image: four unsigned 32-bit numbers and nothing else.
/// The record is a plain value. Any four numbers make one, and nothing that
/// takes a record validates it.
#[derive(Clone, Copy, Debug, PartialEq, Eq, Structural)]
pub struct ImageInfo {
    /// Width in pixels.
    pub width: u32,
    /// Height in pixels.
    pub height: u32,
    /// Code of the channel layout, as `ColorType::code` gives it.
    pub color_type: u32,
    /// Bits per channel sample, as `BitDepth::code` gives them.
    pub bit_depth: u32,
}

impl ImageInfo {
    /// What extraction yields for a decoded image: its dimensions unchanged
    /// beside the codes of the layout and depth that the table gives for its
    /// storage kind, or `UnsupportedPixelType` where the table gives none.
    pub open spec fn of_decoded(image: DecodedImage) -> Result<ImageInfo, ImageInfoError> {
        match image.kind.layout() {
            Some((color, depth)) => Ok(
                ImageInfo {
                    width: image.width,
                    height: image.height,
                    color_type: color.code(),
                    bit_depth: depth.code(),
                },
            ),
            None => Err(ImageInfoError::UnsupportedPixelType),
        }
    }

    /// The record of a successful extraction from `path` and from what
    /// reading the file gave; `None` where the extraction fails.
    pub open spec fn extracted(path: Seq<u8>, file: Result<Vec<u8>, ImageError>) -> Option<
        ImageInfo,
    > {
        if valid_utf8(path) && file is Ok {
            match decoded(decode_utf8(path), file->Ok_0@) {
                Some(image) => match Self::of_decoded(image) {
                    Ok(info) => Some(info),
                    Err(_) => None,
                },
                None => None,
            }
        } else {
            None
        }
    }

    /// Whether `result` is what `read_from_path` owes for `path` and `file`.
    /// The first of these that fails decides the error: the encoding of the
    /// path, the reading of the file, the decoding, the storage kind.
    pub open spec fn is_extraction(
        path: Seq<u8>,
        file: Result<Vec<u8>, ImageError>,
        result: Result<ImageInfo, ImageInfoError>,
    ) -> bool {
        if !valid_utf8(path) {
            result matches Err(ImageInfoError::Utf8(_))
        } else {
            match file {
                Err(cause) => result == Err::<ImageInfo, ImageInfoError>(
                    ImageInfoError::Image(cause),
                ),
                Ok(data) => match decoded(decode_utf8(path), data@) {
                    Some(image) => result == Self::of_decoded(image),
                    None => result matches Err(ImageInfoError::Image(_)),
                },
            }
        }
    }

    /// Builds the record of a decoded image. The dimensions are taken over as
    /// they are. A storage kind outside the eight supported ones gives
    /// `UnsupportedPixelType`, never a record.
    pub fn from_decoded(image: DecodedImage) -> (result: Result<ImageInfo, ImageInfoError>)
        ensures
            result == Self::of_decoded(image),
            result is Ok <==> image.kind.is_supported(),
            !image.kind.is_supported() ==> result == Err::<ImageInfo, ImageInfoError>(
                ImageInfoError::UnsupportedPixelType,
            ),
    {
        match image.kind.classify() {
            Some((color, depth)) => Ok(
                ImageInfo {
                    width: image.width,
                    height: image.height,
                    color_type: u32::from(color),
                    bit_depth: u32::from(depth),
                },
            ),
            None => Err(ImageInfoError::UnsupportedPixelType),
        }
    }

    /// Reads a path given as bytes as text. Succeeds exactly on valid UTF-8,
    /// with the text that the bytes encode; fails with `Utf8` otherwise.
    pub fn path_text(path: &[u8]) -> (result: Result<&str, ImageInfoError>)
        ensures
            result is Ok <==> valid_utf8(path@),
            result matches Ok(text) ==> text@ == decode_utf8(path@),
            result matches Err(error) ==> error is Utf8,
    {
        match core::str::from_utf8(path) {
            Ok(text) => {
                proof {
                    encode_utf8_decode_utf8(text@);
                }
                Ok(text)
            },
            Err(cause) => Err(ImageInfoError::from(cause)),
        }
    }

    /// Extracts the metadata of an encoded image held in memory. The
    /// extension of `path` names the container format; `data` is decoded in
    /// full. Fails with `Image` where the decoder reports an error, and with
    /// `UnsupportedPixelType` where it decodes to a storage kind for which no
    /// metadata is defined.
    pub fn read_from_memory(path: &str, data: &[u8]) -> (result: Result<ImageInfo, ImageInfoError>)
        ensures
            match decoded(path@, data@) {
                Some(image) => result == Self::of_decoded(image),
                None => result matches Err(ImageInfoError::Image(_)),
            },
    {
        match decode(path, data) {
            Ok(image) => Self::from_decoded(image),
            Err(cause) => Err(ImageInfoError::from(cause)),
        }
    }

    /// Extracts the metadata of the image at `path`. The path comes as the
    /// bytes of a text; `file` is what reading the file at that path gave,
    /// its contents or the cause of the failure. A path that is not valid
    /// UTF-8 gives `Utf8`, whatever `file` holds; a failed read gives `Image`
    /// with its cause; after that the outcome is that of `read_from_memory`.
    pub fn read_from_path(path: &[u8], file: Result<Vec<u8>, ImageError>) -> (result: Result<
        ImageInfo,
        ImageInfoError,
    >)
        ensures
            Self::is_extraction(path@, file, result),
            result is Ok <==> Self::extracted(path@, file) is Some,
            result matches Ok(info) ==> Self::extracted(path@, file) == Some(info),
    {
        let text = match Self::path_text(path) {
            Ok(text) => text,
            Err(error) => {
                return Err(error);
            },
        };
        match file {
            Ok(data) => Self::read_from_memory(text, data.as_slice()),
            Err(cause) => Err(ImageInfoError::from(cause)),
        }
    }
}

/// The table by numbers: for each of the eight supported storage kinds, and
/// for all dimensions, the record that extraction yields.
pub proof fn lemma_extraction_table(width: u32, height: u32)
    ensures
        ImageInfo::of_decoded(DecodedImage { kind: PixelKind::Luma8, width, height }) == Ok::<
            ImageInfo,
            ImageInfoError,
        >(ImageInfo { width, height, color_type: 0, bit_depth: 8 }),
        ImageInfo::of_decoded(DecodedImage { kind: PixelKind::LumaA8, width, height }) == Ok::<
            ImageInfo,
            ImageInfoError,
        >(ImageInfo { width, height, color_type: 4, bit_depth: 8 }),
        ImageInfo::of_decoded(DecodedImage { kind: PixelKind::Rgb8, width, height }) == Ok::<
            ImageInfo,
            ImageInfoError,
        >(ImageInfo { width, height, color_type: 2, bit_depth: 8 }),
        ImageInfo::of_decoded(DecodedImage { kind: PixelKind::Rgba8, width, height }) == Ok::<
            ImageInfo,
            ImageInfoError,
        >(ImageInfo { width, height, color_type: 6, bit_depth: 8 }),
        ImageInfo::of_decoded(DecodedImage { kind: PixelKind::Luma16, width, height }) == Ok::<
            ImageInfo,
            ImageInfoError,
        >(ImageInfo { width, height, color_type: 0, bit_depth: 16 }),
        ImageInfo::of_decoded(DecodedImage { kind: PixelKind::LumaA16, width, height }) == Ok::<
            ImageInfo,
            ImageInfoError,
        >(ImageInfo { width, height, color_type: 4, bit_depth: 16 }),
        ImageInfo::of_decoded(DecodedImage { kind: PixelKind::Rgb16, width, height }) == Ok::<
            ImageInfo,
            ImageInfoError,
        >(ImageInfo { width, height, color_type: 2, bit_depth: 16 }),
        ImageInfo::of_decoded(DecodedImage { kind: PixelKind::Rgba16, width, height }) == Ok::<
            ImageInfo,
            ImageInfoError,
        >(ImageInfo { width, height, color_type: 6, bit_depth: 16 }),
        ImageInfo::of_decoded(DecodedImage { kind: PixelKind::Other, width, height }) == Err::<
            ImageInfo,
            ImageInfoError,
        >(ImageInfoError::UnsupportedPixelType),
{
}

/// Extraction yields a record exactly for the supported storage kinds, and
/// the record carries the dimensions of the decoded image, the code of a
/// layout other than the palette, and a depth of 8 or 16 bits.
pub proof fn lemma_extracted_record(image: DecodedImage)
    ensures
        ImageInfo::of_decoded(image) is Ok <==> image.kind.is_supported(),
        ImageInfo::of_decoded(image) matches Ok(info) ==> {
            &&& info.width == image.width
            &&& info.height == image.height
            &&& info.color_type == 0 || info.color_type == 2 || info.color_type == 4
                || info.color_type == 6
            &&& info.bit_depth == 8 || info.bit_depth == 16
        },
{
}

} // verus!
