use retro_pixel_test::icon::icon_from_rgba;
use retro_pixel_test::icon::prepare_window_icon;
use retro_pixel_test::icon::IconError;

/// Encodes a 2×3 RGBA image as PNG bytes.
fn sample_png(pixels: &[u8]) -> Vec<u8> {
    let img = image::RgbaImage::from_raw(2, 3, pixels.to_vec()).unwrap();
    let mut bytes: Vec<u8> = Vec::new();
    img.write_to(&mut std::io::Cursor::new(&mut bytes), image::ImageFormat::Png)
        .unwrap();
    bytes
}

#[test]
fn icon_round_trips_through_png() {
    let pixels: Vec<u8> = (0..24).map(|i| (i * 10) as u8).collect();
    let bytes = sample_png(&pixels);
    let icon = prepare_window_icon(&bytes).unwrap();
    assert_eq!(icon.width, 2);
    assert_eq!(icon.height, 3);
    assert_eq!(icon.rgba, pixels);
}

#[test]
fn malformed_png_is_reported() {
    let result = prepare_window_icon(&[1, 2, 3, 4]);
    assert_eq!(result.unwrap_err(), IconError::Decode);

    let empty = prepare_window_icon(&[]);
    assert_eq!(empty.unwrap_err(), IconError::Decode);
}

#[test]
fn rgba_buffer_must_match_dimensions() {
    let exact = icon_from_rgba(2, 2, vec![0; 16]).unwrap();
    assert_eq!(exact.width, 2);
    assert_eq!(exact.height, 2);
    assert_eq!(exact.rgba.len(), 16);

    let short = icon_from_rgba(2, 2, vec![0; 15]);
    assert_eq!(short.unwrap_err(), IconError::PixelCount);

    let long = icon_from_rgba(2, 2, vec![0; 17]);
    assert_eq!(long.unwrap_err(), IconError::PixelCount);

    let degenerate = icon_from_rgba(0, 0, Vec::new()).unwrap();
    assert_eq!(degenerate.rgba.len(), 0);
}
