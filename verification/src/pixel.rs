//! What the decoder reports of an image it has decoded, and the closed table
//! that turns a pixel storage kind into a channel layout and a bit depth.

use vstd::prelude::*;

use crate::color::{BitDepth, ColorType};

verus! {

/// How a decoded image stores one pixel in memory.
#[derive(Clone, Copy, Debug, PartialEq, Eq, Structural)]
pub enum PixelKind {
    /// One 8-bit luminance sample.
    Luma8,
    /// 8-bit luminance and alpha.
    LumaA8,
    /// 8-bit red, green and blue.
    Rgb8,
    /// 8-bit red, green, blue and alpha.
    Rgba8,
    /// One 16-bit luminance sample.
    Luma16,
    /// 16-bit luminance and alpha.
    LumaA16,
    /// 16-bit red, green and blue.
    Rgb16,
    /// 16-bit red, green, blue and alpha.
    Rgba16,
    /// Any other storage, such as palette indices or floating-point samples.
    /// No metadata is defined for it.
    Other,
}

impl PixelKind {
    /// The layout and depth of a storage kind; `None` for a kind that has
    /// none.
    pub open spec fn layout(self) -> Option<(ColorType, BitDepth)> {
        match self {
            PixelKind::Luma8 => Some((ColorType::Grayscale, BitDepth::Depth8)),
            PixelKind::LumaA8 => Some((ColorType::GrayscaleAlpha, BitDepth::Depth8)),
            PixelKind::Rgb8 => Some((ColorType::Rgb, BitDepth::Depth8)),
            PixelKind::Rgba8 => Some((ColorType::RgbAlpha, BitDepth::Depth8)),
            PixelKind::Luma16 => Some((ColorType::Grayscale, BitDepth::Depth16)),
            PixelKind::LumaA16 => Some((ColorType::GrayscaleAlpha, BitDepth::Depth16)),
            PixelKind::Rgb16 => Some((ColorType::Rgb, BitDepth::Depth16)),
            PixelKind::Rgba16 => Some((ColorType::RgbAlpha, BitDepth::Depth16)),
            PixelKind::Other => None,
        }
    }

    /// Whether metadata is defined for this kind: true of the eight kinds
    /// with 8-bit or 16-bit samples, false of `Other`.
    pub open spec fn is_supported(self) -> bool {
        self != PixelKind::Other
    }

    /// Looks a storage kind up in the table. Every kind has an arm of its
    /// own, so a kind added later cannot fall into another's.
    pub fn classify(self) -> (found: Option<(ColorType, BitDepth)>)
        ensures
            found == self.layout(),
            found is Some <==> self.is_supported(),
    {
        match self {
            PixelKind::Luma8 => Some((ColorType::Grayscale, BitDepth::Depth8)),
            PixelKind::LumaA8 => Some((ColorType::GrayscaleAlpha, BitDepth::Depth8)),
            PixelKind::Rgb8 => Some((ColorType::Rgb, BitDepth::Depth8)),
            PixelKind::Rgba8 => Some((ColorType::RgbAlpha, BitDepth::Depth8)),
            PixelKind::Luma16 => Some((ColorType::Grayscale, BitDepth::Depth16)),
            PixelKind::LumaA16 => Some((ColorType::GrayscaleAlpha, BitDepth::Depth16)),
            PixelKind::Rgb16 => Some((ColorType::Rgb, BitDepth::Depth16)),
            PixelKind::Rgba16 => Some((ColorType::RgbAlpha, BitDepth::Depth16)),
            PixelKind::Other => None,
        }
    }
}

/// A decoded image as far as metadata extraction reads it: the storage kind
/// of its pixels and its dimensions in pixels.
#[derive(Clone, Copy, Debug, PartialEq, Eq, Structural)]
pub struct DecodedImage {
    pub kind: PixelKind,
    pub width: u32,
    pub height: u32,
}

/// The table never yields the palette layout, and the depth it yields is 8
/// or 16 bits.
pub proof fn lemma_layout_is_never_palette(kind: PixelKind)
    ensures
        kind.layout() matches Some((color, depth)) ==> {
            &&& color != ColorType::Palette
            &&& depth == BitDepth::Depth8 || depth == BitDepth::Depth16
        },
{
}

} // verus!
