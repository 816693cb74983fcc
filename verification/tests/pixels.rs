use fltk_image::depth::ColorDepth;
use fltk_image::error::FltkError;
use fltk_image::error::FltkErrorKind;
use fltk_image::image::Image;
use fltk_image::pixels::byte_count;
use fltk_image::pixels::copy_pixels;
use fltk_image::rgb::RgbImage;

fn ramp(len: usize) -> Vec<u8> {
    let mut bytes = Vec::with_capacity(len);
    for i in 0..len {
        bytes.push((i % 251) as u8);
    }
    bytes
}

#[test]
fn ten_by_twenty_rgb_extracts_six_hundred_bytes() {
    let (image, _) = Image::from_image_ptr(0x1000);
    let depth = ColorDepth::from_u8(3).unwrap();
    assert_eq!(depth, ColorDepth::Rgb8);
    let store = ramp(600);
    let data = image.to_rgb_data(10, 20, depth, &store);
    assert_eq!(data.len(), 600);
    assert_eq!(data, store);
}

#[test]
fn ten_by_twenty_rgb_converts_with_matching_dimensions() {
    let (image, count) = Image::from_image_ptr(0x1000);
    let store = ramp(600);
    match image.to_rgb(1, 10, 20, ColorDepth::Rgb8, &store) {
        Ok(rgb) => {
            assert_eq!(rgb.width(), 10);
            assert_eq!(rgb.height(), 20);
            assert_eq!(rgb.depth(), ColorDepth::Rgb8);
            assert_eq!(rgb.data().len(), 600);
            assert_eq!(rgb.data(), &store);
        },
        Err(error) => panic!("one frame must convert, got {:?}", error),
    }
    assert!(!image.was_deleted());
    assert_eq!(count.get(), 1);
}

#[test]
fn two_frames_give_the_image_format_error() {
    let (image, count) = Image::from_image_ptr(0x1000);
    let store = ramp(600);
    match image.to_rgb(2, 10, 20, ColorDepth::Rgb8, &store) {
        Ok(_) => panic!("two frames must not convert"),
        Err(error) => assert_eq!(error, FltkError::Internal(FltkErrorKind::ImageFormatError)),
    }
    assert!(!image.was_deleted());
    assert_eq!(count.get(), 1);
}

#[test]
fn no_frame_and_a_negative_count_give_the_error_too() {
    let (image, _) = Image::from_image_ptr(0x1000);
    let nothing: Vec<u8> = Vec::new();
    assert!(matches!(
        image.to_rgb(0, 10, 20, ColorDepth::Rgb8, &nothing),
        Err(FltkError::Internal(FltkErrorKind::ImageFormatError))
    ));
    assert!(matches!(
        image.to_rgb(-1, 10, 20, ColorDepth::Rgb8, &nothing),
        Err(FltkError::Internal(FltkErrorKind::ImageFormatError))
    ));
}

#[test]
fn extraction_stops_where_the_image_ends() {
    let (image, _) = Image::from_image_ptr(0x1000);
    let store = ramp(100);
    let data = image.to_rgb_data(3, 2, ColorDepth::Rgba8, &store);
    assert_eq!(data.len(), 24);
    assert_eq!(&data[..], &store[..24]);
}

#[test]
fn an_empty_image_extracts_nothing() {
    let (image, _) = Image::from_image_ptr(0x1000);
    let store = ramp(16);
    assert!(image.to_rgb_data(0, 20, ColorDepth::Rgb8, &store).is_empty());
    assert!(image.to_rgb_data(20, 0, ColorDepth::L8, &store).is_empty());
}

#[test]
fn copy_pixels_takes_the_head_of_the_store() {
    let store = ramp(10);
    assert_eq!(copy_pixels(2, 2, ColorDepth::La8, &store), store[..8].to_vec());
    assert_eq!(copy_pixels(5, 2, ColorDepth::L8, &store), store);
}

#[test]
fn byte_count_is_width_times_height_times_depth() {
    assert_eq!(byte_count(10, 20, ColorDepth::Rgb8), Some(600));
    assert_eq!(byte_count(10, 20, ColorDepth::L8), Some(200));
    assert_eq!(byte_count(10, 20, ColorDepth::La8), Some(400));
    assert_eq!(byte_count(10, 20, ColorDepth::Rgba8), Some(800));
    assert_eq!(byte_count(1, 1, ColorDepth::L8), Some(1));
    assert_eq!(byte_count(0, 7, ColorDepth::Rgba8), Some(0));
}

#[test]
fn byte_count_does_not_wrap_at_32_bits() {
    assert_eq!(byte_count(65536, 65536, ColorDepth::L8), Some(4_294_967_296));
    assert_eq!(
        byte_count(i32::MAX, i32::MAX, ColorDepth::Rgba8),
        Some(18_446_744_056_529_682_436)
    );
}

#[test]
fn byte_count_refuses_a_negative_size() {
    assert_eq!(byte_count(-1, 20, ColorDepth::Rgb8), None);
    assert_eq!(byte_count(10, -20, ColorDepth::Rgb8), None);
    assert_eq!(byte_count(i32::MIN, 1, ColorDepth::L8), None);
}

#[test]
fn byte_count_goes_by_the_product() {
    assert_eq!(byte_count(-2, -3, ColorDepth::Rgb8), Some(18));
    assert_eq!(byte_count(i32::MIN, i32::MIN, ColorDepth::Rgba8), None);
}

#[test]
fn depths_read_from_one_to_four() {
    assert_eq!(ColorDepth::from_u8(1), Some(ColorDepth::L8));
    assert_eq!(ColorDepth::from_u8(2), Some(ColorDepth::La8));
    assert_eq!(ColorDepth::from_u8(3), Some(ColorDepth::Rgb8));
    assert_eq!(ColorDepth::from_u8(4), Some(ColorDepth::Rgba8));
}

#[test]
fn other_numbers_are_no_depth() {
    assert_eq!(ColorDepth::from_u8(0), None);
    assert_eq!(ColorDepth::from_u8(5), None);
    assert_eq!(ColorDepth::from_u8(255), None);
}

#[test]
fn a_depth_reads_back_from_its_number() {
    for depth in [ColorDepth::L8, ColorDepth::La8, ColorDepth::Rgb8, ColorDepth::Rgba8] {
        assert_eq!(ColorDepth::from_u8(depth.to_u8()), Some(depth));
    }
    assert_eq!(ColorDepth::Rgb8.to_u8(), 3);
}

#[test]
fn an_rgb_image_owns_a_copy_of_its_pixels() {
    let mut pixels = ramp(12);
    let rgb = RgbImage::new(&pixels, 2, 2, ColorDepth::Rgb8);
    pixels[0] = 99;
    assert_eq!(rgb.data()[0], 0);
    assert_eq!(rgb.data().len(), 12);
    assert_eq!(rgb.width(), 2);
    assert_eq!(rgb.height(), 2);
    assert_eq!(rgb.depth(), ColorDepth::Rgb8);
}
