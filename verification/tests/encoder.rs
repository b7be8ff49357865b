use frame_sampler::encoder::{expected_buffer_len, save_rgb_to_image};
use frame_sampler::error::SamplerError;
use std::io::Write;
use std::path::Path;

fn store_bytes(path: &Path, bytes: &[u8]) {
    let mut file = tempfile::NamedTempFile::new_in(path.parent().unwrap()).unwrap();
    file.write_all(bytes).unwrap();
    file.persist(path).unwrap();
}

#[test]
fn test_save_rgb_to_image_saves_png() {
    let tmp_dir = tempfile::tempdir().unwrap();
    let img_path = tmp_dir.path().join("output.png");

    let width = 2;
    let height = 2;
    let red_pixel = [255u8, 0, 0];
    let raw_pixels = red_pixel.repeat((width * height) as usize);

    let result = save_rgb_to_image(&raw_pixels, width, height);
    assert!(result.is_ok());

    store_bytes(&img_path, &result.unwrap());
    assert!(img_path.exists());
    let stored = image::open(&img_path).unwrap().to_rgb8();
    assert_eq!((stored.width(), stored.height()), (2, 2));
    assert_eq!(stored.into_raw(), raw_pixels);
}

#[test]
fn test_save_rgb_to_image_invalid_data() {
    // fewer bytes than a 2x2 image needs: 2*2*3 = 12
    let bad_pixels = vec![255u8; 2 * 2 * 2];
    let result = save_rgb_to_image(&bad_pixels, 2, 2);
    assert!(result.is_err());
    assert_eq!(result, Err(SamplerError::BufferSizeMismatch { expected: 12, actual: 8 }));
}

#[test]
fn test_save_rgb_to_image_overwrite() {
    let tmp_dir = tempfile::tempdir().unwrap();
    let img_path = tmp_dir.path().join("overwrite.png");

    let width = 1;
    let height = 1;
    let red_pixel = [255u8, 0, 0];
    let pixels = red_pixel.repeat((width * height) as usize);

    let result = save_rgb_to_image(&pixels, width, height);
    assert!(result.is_ok());
    let first = result.unwrap();
    store_bytes(&img_path, &first);

    let green_pixel = [0u8, 255, 0];
    let pixels = green_pixel.repeat((width * height) as usize);

    let result = save_rgb_to_image(&pixels, width, height);
    assert!(result.is_ok());
    let second = result.unwrap();
    store_bytes(&img_path, &second);

    assert!(img_path.exists());
    assert_ne!(first, second);
    let decoded = image::open(&img_path).unwrap().to_rgb8();
    assert_eq!(decoded.into_raw(), vec![0u8, 255, 0]);
}

#[test]
fn test_save_rgb_to_image_invalid_dimensions() {
    let raw_pixels = vec![255u8; 12];
    let result = save_rgb_to_image(&raw_pixels, 3, 2);
    assert!(result.is_err());
    assert_eq!(result, Err(SamplerError::BufferSizeMismatch { expected: 18, actual: 12 }));
}

#[test]
fn a_buffer_that_is_too_long_is_rejected() {
    let raw_pixels = vec![0u8; 13];
    let result = save_rgb_to_image(&raw_pixels, 2, 2);
    assert_eq!(result, Err(SamplerError::BufferSizeMismatch { expected: 12, actual: 13 }));
}

#[test]
fn dimensions_beyond_any_buffer_are_rejected() {
    let result = save_rgb_to_image(&[], u32::MAX, u32::MAX);
    let expected = (u32::MAX as u128) * (u32::MAX as u128) * 3;
    assert_eq!(result, Err(SamplerError::BufferSizeMismatch { expected, actual: 0 }));
}

#[test]
fn expected_buffer_len_is_three_bytes_per_pixel() {
    assert_eq!(expected_buffer_len(0, 0), 0);
    assert_eq!(expected_buffer_len(64, 64), 12_288);
    assert_eq!(expected_buffer_len(1920, 1080), 6_220_800);
    assert_eq!(expected_buffer_len(u32::MAX, 1), 12_884_901_885);
}

#[test]
fn the_encoded_bytes_are_a_png_of_the_same_pixels() {
    let pixels: Vec<u8> = (0u8..36).collect();
    let bytes = save_rgb_to_image(&pixels, 4, 3).unwrap();
    assert_eq!(&bytes[..8], &[0x89, b'P', b'N', b'G', 0x0d, 0x0a, 0x1a, 0x0a]);
    assert_ne!(bytes, pixels);
    let decoded = image::load_from_memory(&bytes).unwrap().to_rgb8();
    assert_eq!(decoded.width(), 4);
    assert_eq!(decoded.height(), 3);
    assert_eq!(decoded.into_raw(), pixels);
}

#[test]
fn a_black_64_by_64_frame_is_a_valid_image() {
    let pixels = vec![0u8; 64 * 64 * 3];
    let bytes = save_rgb_to_image(&pixels, 64, 64).unwrap();
    let decoded = image::load_from_memory(&bytes).unwrap().to_rgb8();
    assert_eq!((decoded.width(), decoded.height()), (64, 64));
    assert!(decoded.into_raw().iter().all(|byte| *byte == 0));
}

#[test]
fn encoding_is_repeatable() {
    let pixels = vec![7u8; 5 * 5 * 3];
    assert_eq!(save_rgb_to_image(&pixels, 5, 5), save_rgb_to_image(&pixels, 5, 5));
}

#[test]
fn an_image_without_pixels_is_refused_by_the_encoder() {
    assert_eq!(save_rgb_to_image(&[], 0, 0), Err(SamplerError::EncodeOrIoError));
}
