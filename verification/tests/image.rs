use std::io::Cursor;

use rust_service::image::{preprocess, resize_image, to_chw_tensor, ImageError, RgbImage};
use rust_service::ImageTensor;

fn encode(image: image::DynamicImage, format: image::ImageFormat) -> Vec<u8> {
    let mut bytes = Vec::new();
    image.write_to(&mut Cursor::new(&mut bytes), format).unwrap();
    bytes
}

fn gradient(width: u32, height: u32) -> image::RgbImage {
    image::RgbImage::from_fn(width, height, |x, y| {
        image::Rgb([(x * 7 % 256) as u8, (y * 11 % 256) as u8, ((x + y) * 3 % 256) as u8])
    })
}

fn assert_tensor_shape(tensor: &ImageTensor) {
    assert_eq!(tensor.shape, vec![1, 3, 224, 224]);
    assert_eq!(tensor.data.len(), 150528);
    for bits in &tensor.data {
        let value = f32::from_bits(*bits);
        assert!((0.0..=1.0).contains(&value));
    }
}

#[test]
fn preprocess_png_gives_the_fixed_shape_and_unit_values() {
    let bytes = encode(image::DynamicImage::ImageRgb8(gradient(64, 48)), image::ImageFormat::Png);
    let tensor = preprocess(&bytes).unwrap();
    assert_tensor_shape(&tensor);
}

#[test]
fn preprocess_jpeg_and_bmp_and_gif() {
    for format in [image::ImageFormat::Jpeg, image::ImageFormat::Bmp, image::ImageFormat::Gif] {
        let bytes = encode(image::DynamicImage::ImageRgb8(gradient(30, 50)), format);
        let tensor = preprocess(&bytes).unwrap();
        assert_tensor_shape(&tensor);
    }
}

#[test]
fn preprocess_enlarges_a_single_pixel() {
    let pixel = image::RgbImage::from_pixel(1, 1, image::Rgb([255, 0, 51]));
    let bytes = encode(image::DynamicImage::ImageRgb8(pixel), image::ImageFormat::Png);
    let tensor = preprocess(&bytes).unwrap();
    assert_tensor_shape(&tensor);
    let plane = 224 * 224;
    for i in 0..plane {
        assert_eq!(tensor.data[i], 1.0f32.to_bits());
        assert_eq!(tensor.data[plane + i], 0.0f32.to_bits());
        assert_eq!(tensor.data[2 * plane + i], (51.0f32 / 255.0).to_bits());
    }
}

#[test]
fn preprocess_keeps_an_image_of_the_target_size_sample_for_sample() {
    let source = gradient(224, 224);
    let bytes = encode(image::DynamicImage::ImageRgb8(source.clone()), image::ImageFormat::Png);
    let tensor = preprocess(&bytes).unwrap();
    assert_tensor_shape(&tensor);
    for channel in 0..3usize {
        for y in 0..224u32 {
            for x in 0..224u32 {
                let expected = source.get_pixel(x, y)[channel] as f32 / 255.0;
                let index = channel * 224 * 224 + (y as usize) * 224 + x as usize;
                assert_eq!(tensor.data[index], expected.to_bits());
            }
        }
    }
}

#[test]
fn preprocess_drops_alpha() {
    let source = image::RgbaImage::from_fn(224, 224, |x, y| {
        image::Rgba([(x % 256) as u8, (y % 256) as u8, 200, ((x + y) % 256) as u8])
    });
    let bytes = encode(image::DynamicImage::ImageRgba8(source.clone()), image::ImageFormat::Png);
    let tensor = preprocess(&bytes).unwrap();
    assert_tensor_shape(&tensor);
    let plane = 224 * 224;
    for y in 0..224usize {
        for x in 0..224usize {
            let pixel = source.get_pixel(x as u32, y as u32);
            let index = y * 224 + x;
            assert_eq!(tensor.data[index], (pixel[0] as f32 / 255.0).to_bits());
            assert_eq!(tensor.data[plane + index], (pixel[1] as f32 / 255.0).to_bits());
            assert_eq!(tensor.data[2 * plane + index], (200.0f32 / 255.0).to_bits());
        }
    }
}

#[test]
fn preprocess_grayscale_fills_all_three_planes() {
    let source = image::GrayImage::from_fn(224, 224, |x, y| image::Luma([((x * y) % 256) as u8]));
    let bytes = encode(image::DynamicImage::ImageLuma8(source.clone()), image::ImageFormat::Png);
    let tensor = preprocess(&bytes).unwrap();
    assert_tensor_shape(&tensor);
    let plane = 224 * 224;
    for index in 0..plane {
        assert_eq!(tensor.data[index], tensor.data[plane + index]);
        assert_eq!(tensor.data[index], tensor.data[2 * plane + index]);
    }
}

#[test]
fn preprocess_rejects_bytes_that_are_no_image() {
    let error = preprocess(b"this is not an image").unwrap_err();
    assert!(matches!(error, ImageError::Decode(_)));
    let text = error.message();
    assert!(text.starts_with("image decoding failed: "));
    assert!(text.len() > "image decoding failed: ".len());
}

#[test]
fn preprocess_rejects_an_empty_buffer() {
    assert!(matches!(preprocess(&[]), Err(ImageError::Decode(_))));
}

#[test]
fn preprocess_rejects_a_truncated_image() {
    let bytes = encode(image::DynamicImage::ImageRgb8(gradient(64, 48)), image::ImageFormat::Png);
    let cut = &bytes[..bytes.len() / 2];
    assert!(matches!(preprocess(cut), Err(ImageError::Decode(_))));
}

#[test]
fn image_error_message_has_the_fixed_sentence_and_the_diagnostic() {
    let error = ImageError::Decode("unexpected end of file".to_string());
    assert_eq!(error.message(), "image decoding failed: unexpected end of file");
}

#[test]
fn resize_image_gives_the_target_size() {
    for (width, height) in [(1u32, 1u32), (10, 300), (224, 224), (500, 20), (225, 223)] {
        let source = image::DynamicImage::ImageRgb8(gradient(width, height));
        let resized = resize_image(&source);
        assert_eq!((resized.width(), resized.height()), (224, 224));
    }
}

#[test]
fn resize_image_keeps_the_colour_type() {
    let source = image::DynamicImage::ImageRgba8(image::RgbaImage::new(5, 5));
    let resized = resize_image(&source);
    assert_eq!(resized.color(), image::ColorType::Rgba8);
}

#[test]
fn resize_image_leaves_a_flat_image_flat() {
    let flat = image::RgbImage::from_pixel(17, 9, image::Rgb([10, 128, 250]));
    let resized = resize_image(&image::DynamicImage::ImageRgb8(flat)).to_rgb8();
    for pixel in resized.pixels() {
        assert_eq!(pixel.0, [10, 128, 250]);
    }
}

#[test]
fn rgb_image_from_raw_wants_three_samples_per_pixel() {
    assert!(RgbImage::from_raw(2, 2, vec![0; 12]).is_some());
    assert!(RgbImage::from_raw(2, 2, vec![0; 11]).is_none());
    assert!(RgbImage::from_raw(2, 2, vec![0; 13]).is_none());
    assert!(RgbImage::from_raw(0, 5, vec![]).is_some());
    assert!(RgbImage::from_raw(0, 5, vec![1, 2, 3]).is_none());
    assert!(RgbImage::from_raw(u32::MAX, u32::MAX, vec![0; 3]).is_none());
    let image = RgbImage::from_raw(3, 2, vec![0; 18]).unwrap();
    assert_eq!(image.width(), 3);
    assert_eq!(image.height(), 2);
}

#[test]
fn to_chw_tensor_lays_out_channel_then_row_then_column() {
    // Two columns, two rows; pixel (x, y) has the samples 10 * (2 * y + x) + channel.
    let samples = vec![0, 1, 2, 10, 11, 12, 20, 21, 22, 30, 31, 32];
    let image = RgbImage::from_raw(2, 2, samples).unwrap();
    let tensor = to_chw_tensor(&image);
    let expected: Vec<u32> = [0u8, 10, 20, 30, 1, 11, 21, 31, 2, 12, 22, 32]
        .iter()
        .map(|sample| (*sample as f32 / 255.0).to_bits())
        .collect();
    assert_eq!(tensor, expected);
}

#[test]
fn to_chw_tensor_of_a_wide_image() {
    let samples = vec![255, 2, 3, 0, 5, 6, 51, 8, 9];
    let image = RgbImage::from_raw(3, 1, samples).unwrap();
    let tensor = to_chw_tensor(&image);
    let expected: Vec<u32> = [255u8, 0, 51, 2, 5, 8, 3, 6, 9]
        .iter()
        .map(|sample| (*sample as f32 / 255.0).to_bits())
        .collect();
    assert_eq!(tensor, expected);
    assert_eq!(tensor[0], 0x3F80_0000);
    assert_eq!(tensor[1], 0);
    assert_eq!(tensor[2], 0x3E4C_CCCD);
}

#[test]
fn to_chw_tensor_of_an_empty_image() {
    let image = RgbImage::from_raw(0, 0, vec![]).unwrap();
    assert!(to_chw_tensor(&image).is_empty());
}
