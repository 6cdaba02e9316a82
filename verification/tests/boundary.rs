use std::io::Cursor;

use image::{DynamicImage, ImageError, ImageFormat};
use rembrandt::{
    image_buf_size, image_info, image_info_path, image_info_start, image_row_size, ImageInfo,
    Probe, STATUS_FAILED, STATUS_OK,
};

fn encoded(image: DynamicImage, format: ImageFormat) -> Vec<u8> {
    let mut bytes = Vec::new();
    image
        .write_to(&mut Cursor::new(&mut bytes), format)
        .unwrap();
    bytes
}

fn rec(width: u32, height: u32, color_type: u32, bit_depth: u32) -> ImageInfo {
    ImageInfo {
        width,
        height,
        color_type,
        bit_depth,
    }
}

fn untouched() -> ImageInfo {
    rec(0xdead, 0xbeef, 77, 99)
}

#[test]
fn status_codes_are_zero_and_minus_one() {
    assert_eq!(STATUS_OK, 0);
    assert_eq!(STATUS_FAILED, -1);
}

#[test]
fn probe_with_null_path_fails_at_once() {
    assert!(matches!(image_info_start(true, false), Probe::Failed));
}

#[test]
fn probe_with_null_output_fails_at_once() {
    assert!(matches!(image_info_start(false, true), Probe::Failed));
}

#[test]
fn probe_with_both_pointers_null_fails_at_once() {
    assert!(matches!(image_info_start(true, true), Probe::Failed));
}

#[test]
fn probe_with_both_pointers_set_follows_the_path() {
    assert!(matches!(image_info_start(false, false), Probe::FollowPath));
}

#[test]
fn probe_with_bad_path_encoding_fails_before_reading() {
    assert!(matches!(image_info_path(b"a\x80.png"), Probe::Failed));
    assert!(matches!(image_info_path(b"\xe2\x82"), Probe::Failed));
}

#[test]
fn probe_asks_for_the_file_at_the_path() {
    match image_info_path(b"dir/a.png") {
        Probe::ReadFile(path) => assert_eq!(path, "dir/a.png"),
        _ => panic!("expected a request to read the file"),
    }
    match image_info_path("caf\u{e9}.png".as_bytes()) {
        Probe::ReadFile(path) => assert_eq!(path, "caf\u{e9}.png"),
        _ => panic!("expected a request to read the file"),
    }
}

#[test]
fn probe_rgb8_100_by_50() {
    let path = b"photo.png";
    assert!(matches!(image_info_start(false, false), Probe::FollowPath));
    assert!(matches!(image_info_path(path), Probe::ReadFile("photo.png")));
    let data = encoded(DynamicImage::new_rgb8(100, 50), ImageFormat::Png);
    let mut out = untouched();
    let status = image_info(path, Ok(data), &mut out);
    assert_eq!(status, 0);
    assert_eq!(out.width, 100);
    assert_eq!(out.height, 50);
    assert_eq!(out.color_type, 2);
    assert_eq!(out.bit_depth, 8);
    assert_eq!(image_row_size(out), 300);
    assert_eq!(image_buf_size(out), 15000);
}

#[test]
fn probe_gray_alpha16_10_by_10() {
    let data = encoded(DynamicImage::new_luma_a16(10, 10), ImageFormat::Png);
    let mut out = untouched();
    let status = image_info(b"mask.png", Ok(data), &mut out);
    assert_eq!(status, STATUS_OK);
    assert_eq!(out.color_type, 4);
    assert_eq!(out.bit_depth, 16);
    // Samples, not bytes: at 16 bits a row takes 40 bytes.
    assert_eq!(image_row_size(out), 20);
    assert_eq!(image_buf_size(out), 200);
}

#[test]
fn failed_read_leaves_the_record_alone() {
    let cause = ImageError::IoError(std::io::Error::from(std::io::ErrorKind::NotFound));
    let mut out = untouched();
    let status = image_info(b"missing.png", Err(cause), &mut out);
    assert_eq!(status, -1);
    assert_eq!(out, untouched());
}

#[test]
fn failed_decode_leaves_the_record_alone() {
    let mut out = untouched();
    let status = image_info(b"noise.png", Ok(vec![1, 2, 3, 4, 5]), &mut out);
    assert_eq!(status, STATUS_FAILED);
    assert_eq!(out, untouched());
}

#[test]
fn bad_path_encoding_leaves_the_record_alone() {
    let data = encoded(DynamicImage::new_rgb8(2, 2), ImageFormat::Png);
    let mut out = untouched();
    let status = image_info(b"\xff\xfe.png", Ok(data), &mut out);
    assert_eq!(status, STATUS_FAILED);
    assert_eq!(out, untouched());
}

#[test]
fn unsupported_pixel_type_leaves_the_record_alone() {
    let data = encoded(DynamicImage::new_rgb32f(3, 3), ImageFormat::Hdr);
    let mut out = untouched();
    let status = image_info(b"sky.hdr", Ok(data), &mut out);
    assert_eq!(status, STATUS_FAILED);
    assert_eq!(out, untouched());
}

#[test]
fn row_size_by_layout() {
    assert_eq!(image_row_size(rec(10, 1, 0, 8)), 10);
    assert_eq!(image_row_size(rec(10, 1, 2, 8)), 30);
    assert_eq!(image_row_size(rec(10, 1, 3, 8)), 10);
    assert_eq!(image_row_size(rec(10, 1, 4, 8)), 20);
    assert_eq!(image_row_size(rec(10, 1, 6, 8)), 40);
}

#[test]
fn row_size_ignores_height_and_bit_depth() {
    assert_eq!(image_row_size(rec(10, 1, 6, 8)), image_row_size(rec(10, 999, 6, 16)));
    assert_eq!(image_row_size(rec(10, 0, 6, 1)), 40);
}

#[test]
fn row_size_of_an_unknown_layout_code() {
    assert_eq!(image_row_size(rec(10, 1, 1, 8)), 10);
    assert_eq!(image_row_size(rec(10, 1, 5, 8)), 50);
    assert_eq!(image_row_size(rec(10, 1, 7, 8)), 70);
    assert_eq!(image_row_size(rec(2, 1, u32::MAX, 8)), u32::MAX - 1);
}

#[test]
fn buf_size_is_height_times_row_size() {
    let records = [
        rec(100, 50, 2, 8),
        rec(1, 1, 0, 8),
        rec(640, 480, 6, 16),
        rec(17, 0, 4, 8),
        rec(0, 17, 4, 8),
        rec(3, 5, 9, 8),
    ];
    for info in records {
        assert_eq!(
            u64::from(image_buf_size(info)),
            u64::from(info.height) * u64::from(image_row_size(info))
        );
    }
    assert_eq!(image_buf_size(rec(640, 480, 6, 16)), 1_228_800);
}

#[test]
fn sizes_of_the_zero_record_are_zero() {
    let zero = rec(0, 0, 0, 0);
    assert_eq!(image_row_size(zero), 0);
    assert_eq!(image_buf_size(zero), 0);
}

#[test]
fn sizes_wrap_at_32_bits() {
    // 0x8000_0000 * 4 = 2^33
    assert_eq!(image_row_size(rec(0x8000_0000, 1, 6, 8)), 0);
    // 0x4000_0001 * 4 = 2^32 + 4
    assert_eq!(image_row_size(rec(0x4000_0001, 1, 6, 8)), 4);
    // 65536 * (65536 * 1) = 2^32
    assert_eq!(image_buf_size(rec(65536, 65536, 0, 8)), 0);
    // 65537 * (65536 * 3) = 3 * 2^32 + 196608
    assert_eq!(image_buf_size(rec(65536, 65537, 2, 8)), 196_608);
    assert_eq!(image_buf_size(rec(u32::MAX, u32::MAX, 0, 8)), 1);
}

#[test]
fn sizes_are_the_same_on_every_call() {
    let info = rec(1920, 1080, 6, 8);
    assert_eq!(image_row_size(info), image_row_size(info));
    assert_eq!(image_buf_size(info), image_buf_size(info));
    assert_eq!(image_row_size(info), 7680);
    assert_eq!(image_buf_size(info), 8_294_400);
}
