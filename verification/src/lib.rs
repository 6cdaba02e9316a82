//! Structural metadata of raster images: the pixel dimensions, the channel
//! layout and the bit depth of one channel sample, with the buffer sizes that
//! follow from them.

pub mod boundary;
pub mod color;
pub mod decode;
pub mod error;
pub mod info;
pub mod pixel;

pub use boundary::{
    image_buf_size, image_info, image_info_path, image_info_start, image_row_size, Probe,
    STATUS_FAILED, STATUS_OK,
};
pub use color::{BitDepth, ColorType};
pub use error::ImageInfoError;
pub use info::ImageInfo;
pub use pixel::{DecodedImage, PixelKind};
