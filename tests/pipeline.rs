use std::time::Duration;

use image::codecs::png::{PngDecoder, PngEncoder};
use image::{ColorType, ExtendedColorType, ImageDecoder, ImageEncoder};
use pngquant_bits::bits::SignificantBits;
use pngquant_bits::layout::TargetColors;
use pngquant_bits::pipeline::{
    decode_and_mask, encode_and_optimize, encode_masked, reencode, OptimizeSettings, PipelineError,
};

fn png(pixels: &[u8], width: u32, height: u32, color: ExtendedColorType) -> Vec<u8> {
    let mut out = Vec::new();
    PngEncoder::new(&mut out).write_image(pixels, width, height, color).unwrap();
    out
}

fn decode(bytes: &[u8]) -> (u32, u32, ColorType, Vec<u8>) {
    let decoder = PngDecoder::new(std::io::Cursor::new(bytes)).unwrap();
    let (w, h) = decoder.dimensions();
    let color = decoder.color_type();
    let mut buf = vec![0; decoder.total_bytes() as usize];
    decoder.read_image(&mut buf).unwrap();
    (w, h, color, buf)
}

fn settings() -> OptimizeSettings {
    OptimizeSettings { iterations: 1, timeout: Duration::from_secs(10) }
}

fn rgba_pixels() -> Vec<u8> {
    (0..4 * 3 * 2).map(|i| (i * 37 % 256) as u8).collect()
}

#[test]
fn decode_and_mask_quantizes_rgba() {
    let pixels = rgba_pixels();
    let input = png(&pixels, 3, 2, ExtendedColorType::Rgba8);
    let m = decode_and_mask(&input, SignificantBits::Bits3).ok().unwrap();
    assert_eq!((m.width, m.height, m.layout), (3, 2, TargetColors::Rgba8));
    let mut expected = pixels.clone();
    SignificantBits::Bits3.run(&mut expected, TargetColors::Rgba8);
    assert_eq!(m.pixels, expected);
    assert_ne!(m.pixels, pixels);
}

#[test]
fn reencoded_png_decodes_to_masked_pixels() {
    let pixels = rgba_pixels();
    let input = png(&pixels, 3, 2, ExtendedColorType::Rgba8);
    let output = reencode(&input, SignificantBits::Bits5, &settings()).ok().unwrap();
    let (w, h, color, decoded) = decode(&output);
    assert_eq!((w, h, color), (3, 2, ColorType::Rgba8));
    let mut expected = pixels.clone();
    SignificantBits::Bits5.run(&mut expected, TargetColors::Rgba8);
    assert_eq!(decoded, expected);
}

#[test]
fn reencoded_luma_round_trips() {
    let pixels: Vec<u8> = (0..64u8).map(|i| i * 4).collect();
    let input = png(&pixels, 8, 8, ExtendedColorType::L8);
    let output = reencode(&input, SignificantBits::Bits2, &settings()).ok().unwrap();
    let (_, _, color, decoded) = decode(&output);
    assert_eq!(color, ColorType::L8);
    let mut expected = pixels.clone();
    SignificantBits::Bits2.run(&mut expected, TargetColors::L8);
    assert_eq!(decoded, expected);
}

#[test]
fn sixteen_bit_input_is_refused() {
    let pixels = vec![0x12u8; 2 * 2 * 2];
    let input = png(&pixels, 2, 2, ExtendedColorType::L16);
    match reencode(&input, SignificantBits::Bits6, &settings()) {
        Err(PipelineError::ColorType(c)) => assert_eq!(c, ColorType::L16),
        _ => panic!("expected a color type error"),
    }
}

#[test]
fn garbage_is_a_header_error() {
    match decode_and_mask(b"not a png", SignificantBits::Bits6) {
        Err(PipelineError::Header(_)) => {}
        _ => panic!("expected a header error"),
    }
}

#[test]
fn truncated_pixel_data_is_a_read_error() {
    let pixels: Vec<u8> = (0..32 * 32 * 3).map(|i| (i * 7 % 251) as u8).collect();
    let mut input = png(&pixels, 32, 32, ExtendedColorType::Rgb8);
    input.truncate(input.len() - 40);
    match decode_and_mask(&input, SignificantBits::Bits6) {
        Err(PipelineError::Read(_)) => {}
        Err(PipelineError::Header(_)) => panic!("header should still decode"),
        _ => panic!("expected a read error"),
    }
}

#[test]
fn encode_masked_writes_fast_unfiltered_png_of_masked_pixels() {
    let pixels = rgba_pixels();
    let input = png(&pixels, 3, 2, ExtendedColorType::Rgba8);
    let m = decode_and_mask(&input, SignificantBits::Bits4).ok().unwrap();
    let encoded = encode_masked(&m).ok().unwrap();
    let mut expected = Vec::new();
    PngEncoder::new_with_quality(
        &mut expected,
        image::codecs::png::CompressionType::Fast,
        image::codecs::png::FilterType::NoFilter,
    )
    .write_image(&m.pixels, 3, 2, ExtendedColorType::Rgba8)
    .unwrap();
    assert_eq!(encoded, expected);
    let (_, _, _, decoded) = decode(&encoded);
    assert_eq!(decoded, m.pixels);
}

#[test]
fn encode_and_optimize_output_decodes_to_masked_pixels() {
    let pixels: Vec<u8> = (0..4 * 4 * 2).map(|i| (i * 13 % 256) as u8).collect();
    let input = png(&pixels, 4, 4, ExtendedColorType::La8);
    let m = decode_and_mask(&input, SignificantBits::Bits6).ok().unwrap();
    let out = encode_and_optimize(&m, &settings()).ok().unwrap();
    let (w, h, color, decoded) = decode(&out);
    assert_eq!((w, h, color), (4, 4, ColorType::La8));
    assert_eq!(decoded, m.pixels);
}
