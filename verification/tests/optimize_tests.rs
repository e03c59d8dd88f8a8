use mdcopy::config::ImageConfig;
use mdcopy::image::ImageError;
use mdcopy::optimize::{optimize_image, resize_dimensions};
use zune_core::bytestream::ZCursor;
use zune_core::colorspace::ColorSpace;
use zune_core::options::DecoderOptions;
use zune_image::codecs::ImageFormat;
use zune_image::image::Image;

fn config_with(max_dimension: u32, quality: u8) -> ImageConfig {
    ImageConfig {
        embed_local: true,
        embed_remote: false,
        optimize_local: true,
        optimize_remote: false,
        max_dimension,
        quality,
    }
}

fn png_bytes(width: usize, height: usize, colorspace: ColorSpace, pixel: &[u8]) -> Vec<u8> {
    let mut pixels = Vec::new();
    for _ in 0..(width * height) {
        pixels.extend_from_slice(pixel);
    }
    let img = Image::from_u8(&pixels, width, height, colorspace);
    let mut out: Vec<u8> = Vec::new();
    img.encode(ImageFormat::PNG, &mut out).unwrap();
    out
}

#[test]
fn test_resize_dimensions_longer_side_hits_cap() {
    assert_eq!(resize_dimensions(64, 32, 16), (16, 8));
    assert_eq!(resize_dimensions(30, 60, 15), (7, 15));
    assert_eq!(resize_dimensions(2000, 2000, 1200), (1200, 1200));
}

#[test]
fn test_optimize_oversized_rgba_returns_capped_png() {
    // A transparent RGBA image wider than the cap comes back as a PNG
    // whose longer side equals the cap.
    let bytes = png_bytes(64, 32, ColorSpace::RGBA, &[10, 200, 30, 128]);
    let out = optimize_image(&bytes, &config_with(16, 80)).unwrap();
    assert_eq!(out.mime_type, "image/png");
    let decoded = Image::read(ZCursor::new(&out.data), DecoderOptions::default()).unwrap();
    assert_eq!(decoded.dimensions(), (16, 8));
}

#[test]
fn test_optimize_opaque_rgb_returns_jpeg() {
    let bytes = png_bytes(20, 10, ColorSpace::RGB, &[10, 200, 30]);
    let out = optimize_image(&bytes, &config_with(1200, 80)).unwrap();
    assert_eq!(out.mime_type, "image/jpeg");
    // JPEG magic bytes: the payload really is JPEG.
    assert_eq!(&out.data[0..3], &[0xFF, 0xD8, 0xFF]);
}

#[test]
fn test_optimize_small_image_keeps_dimensions() {
    let bytes = png_bytes(12, 8, ColorSpace::RGBA, &[1, 2, 3, 100]);
    let out = optimize_image(&bytes, &config_with(1200, 80)).unwrap();
    assert_eq!(out.mime_type, "image/png");
    let decoded = Image::read(ZCursor::new(&out.data), DecoderOptions::default()).unwrap();
    assert_eq!(decoded.dimensions(), (12, 8));
}

#[test]
fn test_optimize_invalid_bytes_is_invalid_image() {
    let r = optimize_image(b"not an image at all", &config_with(1200, 80));
    match r {
        Err(ImageError::InvalidImage(m)) => {
            // Undecodable bytes are reported as a decode failure.
            assert!(m.starts_with("Failed to decode image: "));
        }
        other => panic!("expected a decode failure, got {:?}", other),
    }
}
