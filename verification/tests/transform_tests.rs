use rust_image_processor::errors::{ImageProcessorError, ImageProcessorRuntimeError,
    ImageProcessorValidationError};
use rust_image_processor::raster::{select_encoding, ColorModel, Encoding, ImageBuffer};
use rust_image_processor::transform::{compress, resolve_target, transform, ResizeTarget};
use rust_image_processor::validate::QualityLevel;

fn rgb_buffer(w: u32, h: u32) -> ImageBuffer {
    ImageBuffer::from_pixels(image::DynamicImage::new_rgb8(w, h)).unwrap()
}

#[test]
fn explicit_dimensions_are_used_as_given() {
    let target = ResizeTarget { width: Some(123), height: Some(45) };
    assert_eq!(resolve_target(800, 600, target), (123, 45));
}

#[test]
fn missing_height_is_inferred_from_aspect_ratio() {
    let target = ResizeTarget { width: Some(200), height: None };
    assert_eq!(resolve_target(1000, 500, target), (200, 100));
}

#[test]
fn missing_width_is_inferred_from_aspect_ratio() {
    let target = ResizeTarget { width: None, height: Some(100) };
    assert_eq!(resolve_target(1000, 500, target), (200, 100));
}

#[test]
fn inferred_dimension_uses_floor_division() {
    let target = ResizeTarget { width: Some(100), height: None };
    assert_eq!(resolve_target(300, 200, target), (100, 66));
}

#[test]
fn quality_fifty_halves_both_dimensions() {
    let img = rgb_buffer(800, 600);
    let out = compress(img, 50).unwrap();
    assert_eq!(out.width, 400);
    assert_eq!(out.height, 300);
    assert_eq!(out.color, ColorModel::Rgb8);
}

#[test]
fn quality_hundred_leaves_the_image_untouched() {
    let img = rgb_buffer(800, 600);
    let out = compress(img, 100).unwrap();
    assert_eq!(out.width, 800);
    assert_eq!(out.height, 600);
    assert_eq!(out.color, ColorModel::Rgb8);
}

#[test]
fn compression_keeps_the_aspect_ratio_within_rounding() {
    let img = rgb_buffer(800, 600);
    let out = compress(img, 33).unwrap();
    assert_eq!(out.width, 264);
    assert_eq!(out.height, 198);
    let cross = i64::from(out.width) * 600 - i64::from(out.height) * 800;
    assert!(-600 < cross && cross < 800);
}

#[test]
fn quality_zero_fails_fast() {
    let img = rgb_buffer(8, 8);
    assert!(matches!(
        compress(img, 0),
        Err(ImageProcessorError::Validation(ImageProcessorValidationError::InvalidQuality))
    ));
}

#[test]
fn quality_above_hundred_fails_fast() {
    let img = rgb_buffer(8, 8);
    assert!(matches!(
        compress(img, 101),
        Err(ImageProcessorError::Validation(ImageProcessorValidationError::InvalidQuality))
    ));
}

#[test]
fn degenerate_compression_is_rejected() {
    let img = rgb_buffer(1, 1);
    assert!(matches!(
        compress(img, 50),
        Err(ImageProcessorError::Runtime(ImageProcessorRuntimeError::InvalidDimensions))
    ));
}

#[test]
fn transform_with_both_dimensions_ignores_aspect_ratio() {
    let img = rgb_buffer(800, 600);
    let target = ResizeTarget { width: Some(200), height: Some(200) };
    let out = transform(img, target, QualityLevel { value: 100 }).unwrap();
    assert_eq!(out.width, 200);
    assert_eq!(out.height, 200);
    assert_eq!(out.color, ColorModel::Rgb8);
}

#[test]
fn transform_infers_the_missing_dimension() {
    let img = rgb_buffer(1000, 500);
    let target = ResizeTarget { width: Some(200), height: None };
    let out = transform(img, target, QualityLevel { value: 100 }).unwrap();
    assert_eq!(out.width, 200);
    assert_eq!(out.height, 100);
}

#[test]
fn transform_without_dimensions_compresses() {
    let img = rgb_buffer(640, 480);
    let target = ResizeTarget { width: None, height: None };
    let out = transform(img, target, QualityLevel { value: 25 }).unwrap();
    assert_eq!(out.width, 160);
    assert_eq!(out.height, 120);
}

#[test]
fn transform_rejects_explicit_zero_dimension() {
    let img = rgb_buffer(100, 100);
    let target = ResizeTarget { width: Some(0), height: Some(50) };
    assert!(matches!(
        transform(img, target, QualityLevel { value: 100 }),
        Err(ImageProcessorError::Runtime(ImageProcessorRuntimeError::InvalidDimensions))
    ));
}

#[test]
fn sixteen_bit_grayscale_defaults_to_png() {
    assert_eq!(select_encoding(ColorModel::L16, None), Encoding::Png);
}

#[test]
fn integer_models_default_to_png() {
    assert_eq!(select_encoding(ColorModel::L8, None), Encoding::Png);
    assert_eq!(select_encoding(ColorModel::Rgba16, None), Encoding::Png);
    assert_eq!(select_encoding(ColorModel::Other, None), Encoding::Png);
}

#[test]
fn float_models_default_to_openexr() {
    assert_eq!(select_encoding(ColorModel::Rgb32F, None), Encoding::OpenExr);
    assert_eq!(select_encoding(ColorModel::Rgba32F, None), Encoding::OpenExr);
}

#[test]
fn an_explicit_encoding_request_is_honoured() {
    assert_eq!(select_encoding(ColorModel::Rgb8, Some(Encoding::OpenExr)), Encoding::OpenExr);
    assert_eq!(select_encoding(ColorModel::Rgb32F, Some(Encoding::Png)), Encoding::Png);
}
