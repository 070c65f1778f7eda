use mxross_canvas::export::{encode_png, flatten_onto};

/// The straight-alpha "over" composite computed in single-precision
/// floating point, rounded to the nearest integer.
fn float_over(fg: u8, bg: u8, alpha: u8) -> u8 {
    let a = alpha as f32 / 255.0;
    (fg as f32 * a + bg as f32 * (1.0 - a)).round() as u8
}

#[test]
fn flatten_matches_float_composite_for_every_input() {
    for alpha in 0..=255u8 {
        let mut rgba = Vec::with_capacity(256 * 4);
        for fg in 0..=255u8 {
            rgba.extend_from_slice(&[fg, fg, fg, alpha]);
        }
        for bg in [0u8, 1, 17, 100, 127, 128, 200, 254, 255] {
            let out = flatten_onto(&rgba, [bg, 255 - bg, bg / 2]);
            for fg in 0..=255u8 {
                let p = fg as usize * 4;
                assert_eq!(out[p], float_over(fg, bg, alpha), "fg {fg} bg {bg} a {alpha}");
                assert_eq!(out[p + 1], float_over(fg, 255 - bg, alpha));
                assert_eq!(out[p + 2], float_over(fg, bg / 2, alpha));
                assert_eq!(out[p + 3], 255);
            }
        }
    }
}

#[test]
fn flatten_exact_values() {
    // Half-transparent red over white, opaque blue over black, clear over grey.
    let rgba = [255, 0, 0, 128, 0, 0, 255, 255, 10, 20, 30, 0];
    let out = flatten_onto(&rgba, [255, 255, 255]);
    assert_eq!(out, vec![255, 127, 127, 255, 0, 0, 255, 255, 255, 255, 255, 255]);
    let out = flatten_onto(&rgba[4..8], [0, 0, 0]);
    assert_eq!(out, vec![0, 0, 255, 255]);
    let out = flatten_onto(&rgba[8..12], [90, 90, 90]);
    assert_eq!(out, vec![90, 90, 90, 255]);
}

#[test]
fn flatten_drops_a_trailing_partial_pixel() {
    let out = flatten_onto(&[1, 2, 3, 255, 9, 9], [0, 0, 0]);
    assert_eq!(out, vec![1, 2, 3, 255]);
    assert!(flatten_onto(&[], [1, 2, 3]).is_empty());
}

#[test]
fn encode_png_round_trips_pixels() {
    let width = 3u32;
    let height = 2u32;
    let rgba: Vec<u8> = (0..(width * height * 4)).map(|i| (i * 11 % 256) as u8).collect();
    let bytes = encode_png(width, height, &rgba).expect("encodes");
    assert_eq!(&bytes[..8], &[137, 80, 78, 71, 13, 10, 26, 10]);
    assert_ne!(bytes, rgba);

    let decoder = png::Decoder::new(std::io::Cursor::new(bytes));
    let mut reader = decoder.read_info().expect("header decodes");
    let mut buf = vec![0; reader.output_buffer_size().expect("size")];
    let info = reader.next_frame(&mut buf).expect("frame decodes");
    assert_eq!(info.width, width);
    assert_eq!(info.height, height);
    assert_eq!(info.color_type, png::ColorType::Rgba);
    assert_eq!(info.bit_depth, png::BitDepth::Eight);
    assert_eq!(&buf[..info.buffer_size()], &rgba[..]);
}

#[test]
fn encode_png_is_deterministic() {
    let rgba = vec![7u8; 16 * 16 * 4];
    assert_eq!(encode_png(16, 16, &rgba), encode_png(16, 16, &rgba));
}

#[test]
fn encode_png_rejects_wrong_length() {
    let err = encode_png(4, 3, &[0u8; 47]).unwrap_err();
    assert_eq!(err, "encode_png: expected 48 bytes for a 4x3 RGBA8 image, got 47");
    let err = encode_png(1920, 1080, &[]).unwrap_err();
    assert_eq!(err, "encode_png: expected 8294400 bytes for a 1920x1080 RGBA8 image, got 0");
}

#[test]
fn encode_png_rejects_zero_width() {
    let err = encode_png(0, 5, &[]).unwrap_err();
    assert_eq!(err, "PNG header write failed: Zero width not allowed");
}

#[test]
fn encode_png_rejects_zero_height() {
    let err = encode_png(5, 0, &[]).unwrap_err();
    assert_eq!(err, "PNG header write failed: Zero height not allowed");
}
