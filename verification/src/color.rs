//! Channel layouts and bit depths, and the numeric codes under which a
//! metadata record carries them.

use vstd::prelude::*;
use vstd::std_specs::convert::FromSpecImpl;

verus! {

/// The channels that make up one pixel.
#[derive(Clone, Copy, Debug, PartialEq, Eq, Structural)]
pub enum ColorType {
    /// One luminance channel.
    Grayscale,
    /// Red, green and blue.
    Rgb,
    /// One index into a colour table.
    Palette,
    /// Luminance and opacity.
    GrayscaleAlpha,
    /// Red, green, blue and opacity.
    RgbAlpha,
}

impl ColorType {
    /// The code that stands for this layout in a metadata record.
    pub open spec fn code(self) -> u32 {
        match self {
            ColorType::Grayscale => 0,
            ColorType::Rgb => 2,
            ColorType::Palette => 3,
            ColorType::GrayscaleAlpha => 4,
            ColorType::RgbAlpha => 6,
        }
    }

    /// The number of samples that one pixel of this layout holds.
    pub open spec fn channels(self) -> u32 {
        match self {
            ColorType::Grayscale => 1,
            ColorType::Rgb => 3,
            ColorType::Palette => 1,
            ColorType::GrayscaleAlpha => 2,
            ColorType::RgbAlpha => 4,
        }
    }

    /// The layout that `code` stands for, if it stands for one.
    pub open spec fn of_code(code: u32) -> Option<ColorType> {
        if code == 0 {
            Some(ColorType::Grayscale)
        } else if code == 2 {
            Some(ColorType::Rgb)
        } else if code == 3 {
            Some(ColorType::Palette)
        } else if code == 4 {
            Some(ColorType::GrayscaleAlpha)
        } else if code == 6 {
            Some(ColorType::RgbAlpha)
        } else {
            None
        }
    }

    /// Reads a layout code back. The five codes 0, 2, 3, 4 and 6 name a
    /// layout; every other number names none.
    pub fn from_code(code: u32) -> (layout: Option<ColorType>)
        ensures
            layout == Self::of_code(code),
            layout matches Some(c) ==> c.code() == code,
            layout is None <==> forall|c: ColorType| c.code() != code,
    {
        match code {
            0 => Some(ColorType::Grayscale),
            2 => Some(ColorType::Rgb),
            3 => Some(ColorType::Palette),
            4 => Some(ColorType::GrayscaleAlpha),
            6 => Some(ColorType::RgbAlpha),
            _ => None,
        }
    }

    /// The number of samples per pixel: 1 for grayscale and for palette
    /// indices, 2 for grayscale with alpha, 3 for RGB, 4 for RGB with alpha.
    pub fn channel_count(self) -> (n: u32)
        ensures
            n == self.channels(),
            1 <= n <= 4,
    {
        match self {
            ColorType::Grayscale => 1,
            ColorType::Rgb => 3,
            ColorType::Palette => 1,
            ColorType::GrayscaleAlpha => 2,
            ColorType::RgbAlpha => 4,
        }
    }
}

impl From<ColorType> for u32 {
    /// The layout's code: 0, 2, 3, 4 or 6.
    fn from(value: ColorType) -> (code: u32)
        ensures
            code == value.code(),
    {
        match value {
            ColorType::Grayscale => 0,
            ColorType::Rgb => 2,
            ColorType::Palette => 3,
            ColorType::GrayscaleAlpha => 4,
            ColorType::RgbAlpha => 6,
        }
    }
}

impl FromSpecImpl<ColorType> for u32 {
    open spec fn obeys_from_spec() -> bool {
        true
    }

    open spec fn from_spec(value: ColorType) -> u32 {
        value.code()
    }
}

/// The number of bits in one channel sample.
#[derive(Clone, Copy, Debug, PartialEq, Eq, Structural)]
pub enum BitDepth {
    Depth1,
    Depth2,
    Depth4,
    Depth8,
    Depth16,
}

impl BitDepth {
    /// The number of bits, which is also the code that stands for this depth
    /// in a metadata record.
    pub open spec fn code(self) -> u32 {
        match self {
            BitDepth::Depth1 => 1,
            BitDepth::Depth2 => 2,
            BitDepth::Depth4 => 4,
            BitDepth::Depth8 => 8,
            BitDepth::Depth16 => 16,
        }
    }
}

impl From<BitDepth> for u32 {
    /// The depth's number of bits: 1, 2, 4, 8 or 16.
    fn from(value: BitDepth) -> (code: u32)
        ensures
            code == value.code(),
    {
        match value {
            BitDepth::Depth1 => 1,
            BitDepth::Depth2 => 2,
            BitDepth::Depth4 => 4,
            BitDepth::Depth8 => 8,
            BitDepth::Depth16 => 16,
        }
    }
}

impl FromSpecImpl<BitDepth> for u32 {
    open spec fn obeys_from_spec() -> bool {
        true
    }

    open spec fn from_spec(value: BitDepth) -> u32 {
        value.code()
    }
}

/// The number by which a record's width is multiplied to size a row: the
/// channel count of the layout that `code` stands for. No record is
/// validated, so a code that stands for no layout is taken as the multiplier
/// itself.
pub open spec fn channels_of_code(code: u32) -> u32 {
    match ColorType::of_code(code) {
        Some(layout) => layout.channels(),
        None => code,
    }
}

/// Computes `channels_of_code`.
pub fn channel_count_of_code(code: u32) -> (n: u32)
    ensures
        n == channels_of_code(code),
{
    match ColorType::from_code(code) {
        Some(layout) => layout.channel_count(),
        None => code,
    }
}

/// Every layout is found again from its code, so no two layouts share one.
pub proof fn lemma_code_names_one_layout(layout: ColorType)
    ensures
        ColorType::of_code(layout.code()) == Some(layout),
        channels_of_code(layout.code()) == layout.channels(),
{
}

} // verus!
