//! The adapter for callers that hand over pointers and take back a status
//! code: the probe, in steps around what only the caller can do, and the two
//! sizes that follow from a record.
//!
//! The caller tests the two pointers and calls `image_info_start`; follows
//! the path pointer to its terminator and calls `image_info_path`; reads the
//! file and calls `image_info`; and copies the record out where the status
//! is `STATUS_OK`. It stops at the first step that fails.

use image::ImageError;
use vstd::prelude::*;
use vstd::utf8::{decode_utf8, valid_utf8};

use crate::color::{channel_count_of_code, channels_of_code};
use crate::info::ImageInfo;

verus! {

/// The status of a probe that wrote a record.
pub const STATUS_OK: i32 = 0;

/// The status of a probe that failed, whatever the reason.
pub const STATUS_FAILED: i32 = -1;

/// What a step of a probe asks of its caller.
#[derive(Clone, Copy, Debug)]
pub enum Probe<'a> {
    /// The probe has failed with `STATUS_FAILED`. Nothing more is to be
    /// read, and nothing is to be written.
    Failed,
    /// Both pointers can be followed. The bytes of the path, up to its
    /// terminator, are to be handed to `image_info_path`.
    FollowPath,
    /// The file at this path is to be read, and the outcome handed to
    /// `image_info`.
    ReadFile(&'a str),
}

impl ImageInfo {
    /// The number of samples in one row of pixels: the width times the
    /// channel count of the layout, reduced modulo 2^32. The bit depth plays
    /// no part, so this is the size of a row in bytes only at a depth of 8
    /// bits; at 16 bits a row takes twice as many bytes.
    pub open spec fn row_size(self) -> u32 {
        ((self.width as int * channels_of_code(self.color_type) as int)
            % 0x1_0000_0000) as u32
    }

    /// The number of samples in the whole image: the height times
    /// `row_size`, reduced modulo 2^32.
    pub open spec fn buf_size(self) -> u32 {
        ((self.height as int * self.row_size() as int) % 0x1_0000_0000) as u32
    }
}

/// First step of a probe: the two pointers. The probe fails at once where
/// the pointer to the path or the pointer to the record is null, before
/// either is followed and before anything is read.
pub fn image_info_start(path_is_null: bool, out_is_null: bool) -> (step: Probe<'static>)
    ensures
        step is Failed <==> path_is_null || out_is_null,
        step is FollowPath <==> !path_is_null && !out_is_null,
{
    if path_is_null {
        return Probe::Failed;
    }
    if out_is_null {
        return Probe::Failed;
    }
    Probe::FollowPath
}

/// Second step of a probe: the path. The probe fails, before any file is
/// read, where the bytes are not valid UTF-8. Otherwise it asks for the file
/// at the path that the bytes spell.
pub fn image_info_path<'a>(path: &'a [u8]) -> (step: Probe<'a>)
    ensures
        step is Failed <==> !valid_utf8(path@),
        valid_utf8(path@) ==> (step matches Probe::ReadFile(text) && text@ == decode_utf8(path@)),
{
    match ImageInfo::path_text(path) {
        Ok(text) => Probe::ReadFile(text),
        Err(_) => Probe::Failed,
    }
}

/// Last step of a probe. `file` is what reading the file at `path` gave.
/// On success the record is written to `img_info` and the status is
/// `STATUS_OK`. On any failure the status is `STATUS_FAILED`, with nothing
/// left of the cause, and `img_info` keeps the value it had.
pub fn image_info(path: &[u8], file: Result<Vec<u8>, ImageError>, img_info: &mut ImageInfo) -> (status:
    i32)
    ensures
        match ImageInfo::extracted(path@, file) {
            Some(info) => status == STATUS_OK && *final(img_info) == info,
            None => status == STATUS_FAILED && *final(img_info) == *old(img_info),
        },
{
    match ImageInfo::read_from_path(path, file) {
        Ok(info) => {
            *img_info = info;
            STATUS_OK
        },
        Err(_) => STATUS_FAILED,
    }
}

/// The row size of a record: `width` times the channel count of
/// `color_type`, in wrapping 32-bit arithmetic. The record is not validated.
pub fn image_row_size(info: ImageInfo) -> (size: u32)
    ensures
        size == info.row_size(),
        info.width * channels_of_code(info.color_type) <= u32::MAX ==> size == info.width
            * channels_of_code(info.color_type),
{
    let channels = channel_count_of_code(info.color_type);
    info.width.wrapping_mul(channels)
}

/// The buffer size of a record: `height` times its row size, in wrapping
/// 32-bit arithmetic. The record is not validated.
pub fn image_buf_size(info: ImageInfo) -> (size: u32)
    ensures
        size == info.buf_size(),
        info.height * info.row_size() <= u32::MAX ==> size == info.height * info.row_size(),
{
    info.height.wrapping_mul(image_row_size(info))
}

/// The buffer size is the height times the row size wherever that product
/// fits in 32 bits, and the product reduced modulo 2^32 in general. A record
/// of zeros has the sizes 0.
pub proof fn lemma_buf_size_is_height_times_row_size(info: ImageInfo)
    ensures
        info.buf_size() == (info.height * info.row_size()) % 0x1_0000_0000,
        info.height * info.row_size() <= u32::MAX ==> info.buf_size() == info.height
            * info.row_size(),
        info.height == 0 || info.row_size() == 0 ==> info.buf_size() == 0,
        info.width == 0 ==> info.row_size() == 0,
{
    assert(info.width == 0 ==> info.width as int * channels_of_code(info.color_type) as int == 0)
        by (nonlinear_arith);
    assert(info.height == 0 || info.row_size() == 0 ==> info.height as int
        * info.row_size() as int == 0) by (nonlinear_arith);
    assert(0 <= info.height as int * info.row_size() as int) by (nonlinear_arith);
}

/// The two sizes depend on the width, the height and the layout code alone.
/// Records that differ in nothing but the bit depth have the same sizes.
pub proof fn lemma_sizes_ignore_bit_depth(a: ImageInfo, b: ImageInfo)
    requires
        a.width == b.width,
        a.height == b.height,
        a.color_type == b.color_type,
    ensures
        a.row_size() == b.row_size(),
        a.buf_size() == b.buf_size(),
{
}

} // verus!
