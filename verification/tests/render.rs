use std::io::Cursor;

use meme_catalog::error::AppError;
use meme_catalog::render::{
    can_scale, finish_rendering, internal_error, plan_rendering, render_resized, resize_target,
    RenderFault,
};

fn png(width: u32, height: u32) -> Vec<u8> {
    let picture = image::RgbaImage::from_pixel(width, height, image::Rgba([200, 30, 30, 255]));
    let mut bytes = Vec::new();
    image::DynamicImage::ImageRgba8(picture)
        .write_to(&mut Cursor::new(&mut bytes), image::ImageFormat::Png)
        .unwrap();
    bytes
}

fn gif(width: u32, height: u32) -> Vec<u8> {
    let picture = image::RgbaImage::from_pixel(width, height, image::Rgba([0, 0, 250, 255]));
    let mut bytes = Vec::new();
    image::DynamicImage::ImageRgba8(picture)
        .write_to(&mut Cursor::new(&mut bytes), image::ImageFormat::Gif)
        .unwrap();
    bytes
}

fn size_of(bytes: &[u8]) -> (u32, u32) {
    let picture = image::load_from_memory(bytes).unwrap();
    (picture.width(), picture.height())
}

#[test]
fn a_size_not_asked_for_is_that_of_the_source() {
    assert_eq!(resize_target((40, 20), Some(10), None), (10, 20));
    assert_eq!(resize_target((40, 20), None, Some(5)), (40, 5));
    assert_eq!(resize_target((40, 20), Some(7), Some(9)), (7, 9));
    assert_eq!(resize_target((40, 20), None, None), (40, 20));
    assert_eq!(resize_target((40, 20), Some(0), None), (0, 20));
}

#[test]
fn an_empty_source_cannot_be_scaled() {
    assert!(!can_scale((0, 10), (5, 5)));
    assert!(!can_scale((10, 0), (5, 5)));
    assert!(can_scale((1, 1), (5, 5)));
}

#[test]
fn a_target_beyond_any_allocation_cannot_be_scaled_to() {
    assert!(can_scale((100, 100), (0, 0)));
    assert!(can_scale((100, 100), (20_000, 20_000)));
    assert!(!can_scale((100, 100), (u32::MAX, u32::MAX)));
    let most = isize::MAX as u128 / 16;
    let height = (most / 65_536) as u32;
    if (height as u128) < u32::MAX as u128 {
        assert!(can_scale((1, 1), (65_536, height)));
        assert!(!can_scale((1, 1), (65_536, height + 1)));
        assert!(!can_scale((65_537, 1), (1, height)));
    }
}

#[test]
fn width_alone_scales_within_the_source_height() {
    let out = render_resized(&png(40, 20), Some(10), None).unwrap();
    assert_eq!(size_of(&out), (10, 5));
}

#[test]
fn height_alone_scales_within_the_source_width() {
    let out = render_resized(&png(40, 20), None, Some(10)).unwrap();
    assert_eq!(size_of(&out), (20, 10));
}

#[test]
fn both_bounds_hold_and_proportions_stay() {
    let out = render_resized(&png(40, 20), Some(10), Some(10)).unwrap();
    assert_eq!(size_of(&out), (10, 5));
    let out = render_resized(&png(40, 20), Some(80), Some(20)).unwrap();
    assert_eq!(size_of(&out), (40, 20));
    let out = render_resized(&png(40, 20), Some(80), Some(80)).unwrap();
    assert_eq!(size_of(&out), (80, 40));
}

#[test]
fn the_output_is_png_whatever_the_source_was() {
    let out = render_resized(&gif(8, 8), Some(4), Some(4)).unwrap();
    assert_eq!(&out[..8], &[0x89, b'P', b'N', b'G', 0x0d, 0x0a, 0x1a, 0x0a]);
    assert_eq!(image::guess_format(&out).unwrap(), image::ImageFormat::Png);
    assert_eq!(size_of(&out), (4, 4));
}

#[test]
fn photographs_are_rendered_too() {
    let picture = image::RgbImage::from_pixel(64, 48, image::Rgb([90, 120, 30]));
    let mut jpeg = Vec::new();
    image::DynamicImage::ImageRgb8(picture)
        .write_to(&mut Cursor::new(&mut jpeg), image::ImageFormat::Jpeg)
        .unwrap();
    let out = render_resized(&jpeg, None, Some(12)).unwrap();
    assert_eq!(image::guess_format(&out).unwrap(), image::ImageFormat::Png);
    assert_eq!(size_of(&out), (16, 12));
}

#[test]
fn rendering_is_repeatable() {
    let source = png(30, 30);
    let a = render_resized(&source, Some(7), Some(9)).unwrap();
    let b = render_resized(&source, Some(7), Some(9)).unwrap();
    assert_eq!(a, b);
}

#[test]
fn bytes_that_are_no_image_give_an_internal_error() {
    match render_resized(b"certainly not an image", Some(10), None) {
        Err(AppError::Internal(message)) => {
            assert!(message.starts_with("Failed to load image: "));
            assert!(message.len() > "Failed to load image: ".len());
        },
        other => panic!("unexpected: {:?}", other),
    }
    assert!(matches!(render_resized(&[], None, Some(3)), Err(AppError::Internal(_))));
}

#[test]
fn a_truncated_image_gives_an_internal_error() {
    let mut bytes = png(40, 20);
    bytes.truncate(40);
    match render_resized(&bytes, Some(10), None) {
        Err(AppError::Internal(message)) => {
            assert!(message.starts_with("Failed to load image: "));
        },
        other => panic!("unexpected: {:?}", other),
    }
    bytes.truncate(12);
    assert!(matches!(render_resized(&bytes, Some(10), None), Err(AppError::Internal(_))));
}

#[test]
fn the_plan_of_a_rendering_is_its_target() {
    assert_eq!(plan_rendering(Ok((40, 20)), Some(10), None), Ok((10, 20)));
    assert_eq!(plan_rendering(Ok((40, 20)), None, None), Ok((40, 20)));
    assert_eq!(plan_rendering(Ok((40, 20)), Some(0), Some(0)), Ok((0, 0)));
}

#[test]
fn no_plan_without_an_image_or_beyond_the_range() {
    assert_eq!(
        plan_rendering(Err(String::from("unknown format")), Some(10), None),
        Err(AppError::Internal(String::from("Failed to load image: unknown format")))
    );
    assert_eq!(
        plan_rendering(Ok((40, 20)), Some(u32::MAX), Some(u32::MAX)),
        Err(AppError::Internal(String::from("Failed to resize image: the size is out of range")))
    );
    assert_eq!(
        plan_rendering(Ok((0, 20)), Some(1), Some(1)),
        Err(AppError::Internal(String::from("Failed to resize image: the size is out of range")))
    );
}

#[test]
fn the_end_of_a_rendering_tells_decoding_from_encoding() {
    assert_eq!(finish_rendering(Ok(vec![1, 2, 3])), Ok(vec![1, 2, 3]));
    assert_eq!(
        finish_rendering(Err(RenderFault::Decode(String::from("broken")))),
        Err(AppError::Internal(String::from("Failed to load image: broken")))
    );
    assert_eq!(
        finish_rendering(Err(RenderFault::Encode(String::from("too deep")))),
        Err(AppError::Internal(String::from("Failed to encode image: too deep")))
    );
}

#[test]
fn a_size_out_of_range_gives_an_internal_error() {
    let r = render_resized(&png(2, 2), Some(u32::MAX), Some(u32::MAX));
    assert_eq!(
        r,
        Err(AppError::Internal(String::from("Failed to resize image: the size is out of range")))
    );
}

#[test]
fn internal_errors_join_head_and_detail() {
    assert_eq!(internal_error("a: ", "b"), AppError::Internal(String::from("a: b")));
    assert_eq!(internal_error("", ""), AppError::Internal(String::new()));
}
