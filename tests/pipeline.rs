use base64::Engine;
use image_fingerprint::error::PipelineError;
use image_fingerprint::hash::{average_hash, calculate_perceptual_hash};
use image_fingerprint::metadata::{get_image_metadata, ColorFormat};
use image_fingerprint::normalize::{normalize_rgb, preprocess_image_for_ml, MODEL_INPUT_LEN};
use image_fingerprint::resample::bounded_dimensions;
use image_fingerprint::thumbnail::{create_thumbnail, jpeg_data_url};

fn encoded(img: &image::DynamicImage, format: image::ImageOutputFormat) -> Vec<u8> {
    let mut buffer = Vec::new();
    img.write_to(&mut std::io::Cursor::new(&mut buffer), format).unwrap();
    buffer
}

fn png_of(img: image::RgbImage) -> Vec<u8> {
    encoded(&image::DynamicImage::ImageRgb8(img), image::ImageOutputFormat::Png)
}

fn gradient(width: u32, height: u32) -> image::RgbImage {
    image::RgbImage::from_fn(width, height, |x, y| {
        image::Rgb([(x * 255 / width) as u8, (y * 255 / height) as u8, ((x + y) % 256) as u8])
    })
}

fn half_black_half_white(side: u32) -> image::RgbImage {
    image::RgbImage::from_fn(side, side, |x, _| {
        if x < side / 2 {
            image::Rgb([0, 0, 0])
        } else {
            image::Rgb([255, 255, 255])
        }
    })
}

fn hamming(a: &str, b: &str) -> usize {
    a.chars().zip(b.chars()).filter(|(x, y)| x != y).count()
}

fn decode_data_url(url: &str) -> image::DynamicImage {
    let text = url.strip_prefix("data:image/jpeg;base64,").unwrap();
    let bytes = base64::engine::general_purpose::STANDARD.decode(text).unwrap();
    image::load_from_memory(&bytes).unwrap()
}

#[test]
fn normalize_maps_extremes_and_middle() {
    let out = normalize_rgb(&vec![0, 255, 127, 128, 51]);
    assert_eq!(out, vec![-255, 255, -1, 1, -153]);
    let values: Vec<f32> = out.iter().map(|&n| n as f32 / 255.0).collect();
    assert_eq!(values[0], -1.0);
    assert_eq!(values[1], 1.0);
    assert!(values[2].abs() < 0.01 && values[3].abs() < 0.01);
    assert_eq!(values[4], (51.0f32 - 127.5) / 127.5);
}

#[test]
fn normalize_empty_is_empty() {
    assert!(normalize_rgb(&Vec::new()).is_empty());
}

#[test]
fn tensor_has_model_shape_and_range() {
    let t = preprocess_image_for_ml(&png_of(gradient(37, 19))).unwrap();
    assert_eq!(t.width, 224);
    assert_eq!(t.height, 224);
    assert_eq!(t.data.len(), 150528);
    assert_eq!(MODEL_INPUT_LEN, 224 * 224 * 3);
    assert!(t.data.iter().all(|&v| (-255..=255).contains(&v)));
}

#[test]
fn tensor_of_uniform_image_is_uniform() {
    let img = image::RgbImage::from_pixel(10, 10, image::Rgb([0, 255, 128]));
    let t = preprocess_image_for_ml(&png_of(img)).unwrap();
    for pixel in t.data.chunks(3) {
        assert_eq!(pixel, &[-255, 255, 1]);
    }
}

#[test]
fn average_hash_splits_at_floor_mean() {
    let luma: Vec<u8> = (0..64).collect();
    let expected = format!("{}{}", "0".repeat(32), "1".repeat(32));
    assert_eq!(average_hash(&luma), expected);
}

#[test]
fn average_hash_of_flat_grid_is_all_zero() {
    assert_eq!(average_hash(&vec![200; 64]), "0".repeat(64));
}

#[test]
fn average_hash_strictly_above_mean() {
    let mut luma = vec![10u8; 64];
    luma[5] = 11;
    let hash = average_hash(&luma);
    assert_eq!(hash.chars().filter(|&c| c == '1').count(), 1);
    assert_eq!(hash.chars().nth(5), Some('1'));
}

#[test]
fn perceptual_hash_of_split_image() {
    let hash = calculate_perceptual_hash(&png_of(half_black_half_white(16))).unwrap();
    assert_eq!(hash, "00001111".repeat(8));
}

#[test]
fn perceptual_hash_shape() {
    let hash = calculate_perceptual_hash(&png_of(gradient(33, 71))).unwrap();
    assert_eq!(hash.len(), 64);
    assert!(hash.chars().all(|c| c == '0' || c == '1'));
}

#[test]
fn operations_are_deterministic() {
    let bytes = png_of(gradient(50, 30));
    assert_eq!(
        calculate_perceptual_hash(&bytes).unwrap(),
        calculate_perceptual_hash(&bytes).unwrap()
    );
    assert_eq!(
        preprocess_image_for_ml(&bytes).unwrap().data,
        preprocess_image_for_ml(&bytes).unwrap().data
    );
    assert_eq!(create_thumbnail(&bytes, 20).unwrap(), create_thumbnail(&bytes, 20).unwrap());
    assert_eq!(get_image_metadata(&bytes).unwrap(), get_image_metadata(&bytes).unwrap());
}

#[test]
fn hash_survives_jpeg_reencoding() {
    let original = image::DynamicImage::ImageRgb8(gradient(64, 64));
    let first = encoded(&original, image::ImageOutputFormat::Jpeg(95));
    let again = image::load_from_memory(&first).unwrap();
    let second = encoded(&again, image::ImageOutputFormat::Jpeg(95));
    let a = calculate_perceptual_hash(&first).unwrap();
    let b = calculate_perceptual_hash(&second).unwrap();
    assert!(hamming(&a, &b) <= 5);
}

#[test]
fn bounded_dimensions_examples() {
    assert_eq!(bounded_dimensions(100, 50, 40), (40, 20));
    assert_eq!(bounded_dimensions(50, 100, 40), (20, 40));
    assert_eq!(bounded_dimensions(100, 50, 200), (100, 50));
    assert_eq!(bounded_dimensions(1000, 1, 10), (10, 1));
    assert_eq!(bounded_dimensions(3, 2, 2), (2, 1));
    assert_eq!(bounded_dimensions(300, 200, 100), (100, 67));
    assert_eq!(bounded_dimensions(64, 64, 16), (16, 16));
    assert_eq!(bounded_dimensions(0, 5, 3), (0, 3));
    assert_eq!(bounded_dimensions(u32::MAX, u32::MAX - 1, u32::MAX), (u32::MAX, u32::MAX - 1));
}

#[test]
fn thumbnail_fits_bound_and_keeps_aspect() {
    let url = create_thumbnail(&png_of(gradient(100, 50)), 40).unwrap();
    assert!(url.starts_with("data:image/jpeg;base64,"));
    let thumb = decode_data_url(&url);
    assert_eq!((thumb.width(), thumb.height()), (40, 20));
    let url = create_thumbnail(&png_of(gradient(300, 200)), 100).unwrap();
    let thumb = decode_data_url(&url);
    assert!(thumb.width().max(thumb.height()) <= 100);
    let ratio = thumb.width() as f32 / thumb.height() as f32;
    assert!((ratio - 1.5).abs() < 0.03);
}

#[test]
fn thumbnail_never_enlarges() {
    let url = create_thumbnail(&png_of(gradient(30, 10)), 500).unwrap();
    let thumb = decode_data_url(&url);
    assert_eq!((thumb.width(), thumb.height()), (30, 10));
}

#[test]
fn data_url_is_prefix_and_base64() {
    assert_eq!(jpeg_data_url(&b"hello".to_vec()), "data:image/jpeg;base64,aGVsbG8=");
    assert_eq!(jpeg_data_url(&Vec::new()), "data:image/jpeg;base64,");
}

#[test]
fn metadata_of_synthetic_image() {
    let meta = get_image_metadata(&png_of(gradient(100, 50))).unwrap();
    assert_eq!(meta.width, 100);
    assert_eq!(meta.height, 50);
    assert_eq!(meta.width as f32 / meta.height as f32, 2.0);
    assert_eq!(meta.format, ColorFormat::Rgb8);
    assert_eq!(meta.format.label(), "Rgb8");
}

#[test]
fn metadata_of_gray_image() {
    let gray = image::DynamicImage::ImageLuma8(image::GrayImage::new(7, 3));
    let meta = get_image_metadata(&encoded(&gray, image::ImageOutputFormat::Png)).unwrap();
    assert_eq!((meta.width, meta.height), (7, 3));
    assert_eq!(meta.format.label(), "L8");
}

#[test]
fn non_image_bytes_fail_to_decode() {
    let junk = b"this is not an image".to_vec();
    assert!(matches!(preprocess_image_for_ml(&junk), Err(PipelineError::Decode(_))));
    assert!(matches!(calculate_perceptual_hash(&junk), Err(PipelineError::Decode(_))));
    assert!(matches!(create_thumbnail(&junk, 64), Err(PipelineError::Decode(_))));
    assert!(matches!(get_image_metadata(&junk), Err(PipelineError::Decode(_))));
    assert!(matches!(get_image_metadata(&Vec::new()), Err(PipelineError::Decode(_))));
}

#[test]
fn sixteen_bit_thumbnail_fails_to_encode() {
    let deep = image::DynamicImage::new_rgb16(20, 20);
    let bytes = encoded(&deep, image::ImageOutputFormat::Png);
    let err = create_thumbnail(&bytes, 10).unwrap_err();
    assert!(matches!(err, PipelineError::Encode(_)));
    assert!(err.message().starts_with("Failed to encode thumbnail: "));
}

#[test]
fn error_messages_name_the_stage() {
    let decode = PipelineError::Decode("bad header".to_string());
    assert_eq!(decode.message(), "Failed to open image: bad header");
    let encode = PipelineError::Encode("no jpeg".to_string());
    assert_eq!(encode.message(), "Failed to encode thumbnail: no jpeg");
}

#[test]
fn tensor_of_black_image_is_all_minus_one() {
    let img = image::RgbImage::from_pixel(32, 16, image::Rgb([0, 0, 0]));
    let t = preprocess_image_for_ml(&png_of(img)).unwrap();
    assert_eq!(t.data, vec![-255; 150528]);
}

#[test]
fn perceptual_hash_of_eight_pixel_split_image() {
    let hash = calculate_perceptual_hash(&png_of(half_black_half_white(8))).unwrap();
    assert_eq!(hash, "00001111".repeat(8));
}

#[test]
fn average_hash_ignores_uniform_shift() {
    let luma: Vec<u8> = (0..64).map(|i| ((i * 37) % 200) as u8).collect();
    let shifted: Vec<u8> = luma.iter().map(|&v| v + 55).collect();
    assert_eq!(average_hash(&luma), average_hash(&shifted));
    assert!(average_hash(&luma).contains('0'));
}

#[test]
fn thumbnail_longer_side_equals_bound() {
    let url = create_thumbnail(&png_of(gradient(90, 120)), 60).unwrap();
    let thumb = decode_data_url(&url);
    assert_eq!((thumb.width(), thumb.height()), (45, 60));
}

#[test]
fn float_image_is_refused_by_resampling_operations() {
    let float = image::DynamicImage::new_rgb32f(6, 4);
    let bytes = encoded(&float, image::ImageOutputFormat::OpenExr);
    let meta = get_image_metadata(&bytes).unwrap();
    assert_eq!((meta.width, meta.height, meta.format), (6, 4, ColorFormat::Rgb32F));
    assert!(meta.format.is_float());
    let expected = "32-bit float samples are not supported";
    match preprocess_image_for_ml(&bytes) {
        Err(PipelineError::Decode(cause)) => assert_eq!(cause, expected),
        _ => panic!("float image was not refused"),
    }
    match calculate_perceptual_hash(&bytes) {
        Err(PipelineError::Decode(cause)) => assert_eq!(cause, expected),
        _ => panic!("float image was not refused"),
    }
    assert!(!ColorFormat::Rgb8.is_float());
}
