use std::io::Cursor;

use pet2d::{decode_image, rgba8_row_bytes, ImageKind};

fn encoded(pixels: Vec<u8>, width: u32, height: u32, format: image::ImageFormat) -> Vec<u8> {
    let img = image::RgbaImage::from_raw(width, height, pixels).unwrap();
    let mut bytes = Vec::new();
    img.write_to(&mut Cursor::new(&mut bytes), format).unwrap();
    bytes
}

#[test]
fn png_bytes_decode_to_rgba_with_transparency() {
    // 2x1: left opaque green, right fully transparent
    let bytes = encoded(vec![0, 255, 0, 255, 0, 0, 0, 0], 2, 1, image::ImageFormat::Png);
    match decode_image(&bytes, ImageKind::Png) {
        Ok(img) => {
            assert_eq!((img.width, img.height), (2, 1));
            assert_eq!(img.pixels, vec![0, 255, 0, 255, 0, 0, 0, 0]);
        }
        Err(_) => panic!("a valid PNG must decode"),
    }
}

#[test]
fn garbage_bytes_report_an_error() {
    assert!(decode_image(b"definitely not an image", ImageKind::Png).is_err());
    assert!(decode_image(&[], ImageKind::Jpeg).is_err());
}

#[test]
fn png_bytes_read_as_jpeg_report_an_error() {
    let bytes = encoded(vec![1, 2, 3, 255], 1, 1, image::ImageFormat::Png);
    assert!(decode_image(&bytes, ImageKind::Jpeg).is_err());
}

#[test]
fn row_bytes_require_exactly_width_times_height_pixels() {
    assert_eq!(rgba8_row_bytes(2, 1, 8), Some(8));
    assert_eq!(rgba8_row_bytes(2, 1, 7), None);
    assert_eq!(rgba8_row_bytes(2, 1, 9), None);
    assert_eq!(rgba8_row_bytes(0, 5, 0), Some(0));
    assert_eq!(rgba8_row_bytes(u32::MAX, 1, 0), None);
}

#[test]
fn file_format_follows_the_path_extension() {
    let bytes = encoded(vec![9, 8, 7, 255], 1, 1, image::ImageFormat::Png);
    match pet2d::decode_image_file("sprite.png", &bytes) {
        Ok(img) => assert_eq!(img.pixels, vec![9, 8, 7, 255]),
        Err(_) => panic!("a .png path with PNG bytes must decode"),
    }
    // the same bytes under a JPEG name are read as JPEG and fail
    assert!(pet2d::decode_image_file("sprite.jpg", &bytes).is_err());
    // extensions the engine does not decode, or none at all, are errors
    assert!(pet2d::decode_image_file("sprite.gif", &bytes).is_err());
    assert!(pet2d::decode_image_file("sprite", &bytes).is_err());
}
