use thumbnail_pipeline::transform::{get_thumbnail, TransformError};

fn square_png(side: u32) -> Vec<u8> {
    let img = image::RgbaImage::from_pixel(side, side, image::Rgba([10, 20, 30, 255]));
    let mut cursor = std::io::Cursor::new(Vec::new());
    img.write_to(&mut cursor, image::ImageFormat::Png).unwrap();
    cursor.into_inner()
}

#[test]
fn garbage_bytes_are_undecodable() {
    let result = get_thumbnail(b"not an image at all".to_vec(), 16);
    assert!(matches!(result, Err(TransformError::Undecodable(_))));
}

#[test]
fn empty_input_is_undecodable() {
    let result = get_thumbnail(Vec::new(), 16);
    assert!(result.is_err());
}

#[test]
fn png_source_yields_square_png_thumbnail() {
    let thumbnail = get_thumbnail(square_png(64), 16).unwrap();
    let png_signature: [u8; 8] = [137, 80, 78, 71, 13, 10, 26, 10];
    assert_eq!(&thumbnail[..8], &png_signature);
    let decoded = image::load_from_memory(&thumbnail).unwrap();
    assert_eq!(image::GenericImageView::dimensions(&decoded), (16, 16));
}

#[test]
fn transform_is_a_function_of_bytes_and_size() {
    let source = square_png(32);
    let first = get_thumbnail(source.clone(), 8).unwrap();
    let second = get_thumbnail(source, 8).unwrap();
    assert_eq!(first, second);
}

#[test]
fn transform_output_differs_from_input() {
    let source = square_png(64);
    let thumbnail = get_thumbnail(source.clone(), 16).unwrap();
    assert_ne!(thumbnail, source);
}
