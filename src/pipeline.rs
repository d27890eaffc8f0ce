//! Decode, quantize, re-encode and optimize a PNG held in memory.

use crate::bits::{masked_pixels, SignificantBits};
use crate::layout::TargetColors;
use image::codecs::png::{CompressionType, FilterType, PngDecoder, PngEncoder};
use image::{ColorType, ExtendedColorType, ImageDecoder, ImageEncoder, ImageError};
use oxipng::{Deflaters, Options, PngError, StripChunks};
use std::io::Cursor;
use std::num::NonZeroU8;
use std::time::Duration;
use vstd::prelude::*;

verus! {

#[verifier::external_type_specification]
#[verifier::external_body]
pub struct ExImageError(ImageError);

#[verifier::external_type_specification]
#[verifier::external_body]
pub struct ExPngError(PngError);

#[verifier::external_type_specification]
pub struct ExCompressionType(CompressionType);

#[verifier::external_type_specification]
pub struct ExFilterType(FilterType);

/// Width, height and color type that the PNG decoder reads from a file's
/// header; `None` where the header cannot be decoded.
pub uninterp spec fn png_header(bytes: Seq<u8>) -> Option<(u32, u32, ColorType)>;

/// The pixel data that the PNG decoder reads from a file; `None` where it
/// cannot be decoded.
pub uninterp spec fn png_pixels(bytes: Seq<u8>) -> Option<Seq<u8>>;

/// The PNG stream that the encoder writes for 8-bit pixels with `channels`
/// channels per pixel; `None` where the encoder refuses them.
pub uninterp spec fn png_encoding(
    pixels: Seq<u8>,
    width: u32,
    height: u32,
    channels: nat,
    compression: CompressionType,
    filter: FilterType,
) -> Option<Seq<u8>>;

/// Which chunks the optimizer removes.
#[derive(Debug, Clone, Copy, PartialEq, Eq, Structural)]
pub enum StripPolicy {
    /// Keep every chunk.
    KeepAll,
    /// Remove the chunks that do not affect how the image is displayed.
    Safe,
    /// Remove every ancillary chunk.
    All,
}

/// The deflate implementation the optimizer compresses with.
#[derive(Debug, Clone, Copy, PartialEq, Eq, Structural)]
pub enum Deflater {
    /// libdeflate at a compression level.
    Libdeflater { compression: u8 },
    /// Zopfli with a number of iterations, at least one.
    Zopfli { iterations: u8 },
}

/// Every result the optimizer may return for `png` with the options of
/// `preset` overridden by the strip policy, the deflater, `fast_evaluation`
/// and the timeout. Which of them comes back depends on the time the work
/// takes.
pub uninterp spec fn png_optimizations(
    png: Seq<u8>,
    preset: u8,
    strip: StripPolicy,
    deflater: Deflater,
    fast_evaluation: bool,
    timeout: Duration,
) -> Set<Seq<u8>>;

/// Bytes per pixel of each color type the decoder can report.
pub open spec fn color_type_len(c: ColorType) -> nat {
    match c {
        ColorType::L8 => 1,
        ColorType::L16 | ColorType::La8 => 2,
        ColorType::Rgb8 => 3,
        ColorType::Rgba8 | ColorType::La16 => 4,
        ColorType::Rgb16 => 6,
        ColorType::Rgba16 => 8,
        ColorType::Rgb32F => 12,
        ColorType::Rgba32F => 16,
        _ => 0,
    }
}

/// The size of an image buffer: width times height times bytes per pixel,
/// saturated at the largest `u64`.
pub open spec fn buffer_len(width: u32, height: u32, pixel_len: nat) -> nat {
    let n = width as nat * height as nat * pixel_len;
    if n > u64::MAX as nat {
        u64::MAX as nat
    } else {
        n
    }
}

/// Channels of the 8-bit color types the encoder is given; zero for others.
pub open spec fn eight_bit_channels(c: ExtendedColorType) -> nat {
    match c {
        ExtendedColorType::L8 => 1,
        ExtendedColorType::La8 => 2,
        ExtendedColorType::Rgb8 => 3,
        ExtendedColorType::Rgba8 => 4,
        _ => 0,
    }
}

/// What the PNG header says.
pub struct PngHeader {
    pub width: u32,
    pub height: u32,
    pub color: ColorType,
}

/// Relies on `PngDecoder::new`, `ImageDecoder::dimensions` and
/// `ImageDecoder::color_type`: the header is read from the bytes alone.
#[verifier::external_body]
fn read_header(bytes: &[u8]) -> (r: Result<PngHeader, ImageError>)
    ensures
        r is Ok <==> png_header(bytes@) is Some,
        r is Ok ==> png_header(bytes@) == Some((r->Ok_0.width, r->Ok_0.height, r->Ok_0.color)),
{
    let decoder = PngDecoder::new(Cursor::new(bytes))?;
    let (width, height) = decoder.dimensions();
    Ok(PngHeader { width, height, color: decoder.color_type() })
}

/// Relies on `PngDecoder::new` and `ImageDecoder::read_image`, which
/// asserts that the buffer holds `total_bytes` bytes: width times height
/// times bytes per pixel, saturated. The pixels depend on the bytes alone.
#[verifier::external_body]
fn read_pixels(bytes: &[u8], pixels: &mut Vec<u8>) -> (r: Result<(), ImageError>)
    requires
        png_header(bytes@) is Some,
        old(pixels)@.len() == buffer_len(
            png_header(bytes@)->Some_0.0,
            png_header(bytes@)->Some_0.1,
            color_type_len(png_header(bytes@)->Some_0.2),
        ),
    ensures
        final(pixels)@.len() == old(pixels)@.len(),
        r is Ok <==> png_pixels(bytes@) is Some,
        r is Ok ==> png_pixels(bytes@) == Some(final(pixels)@),
{
    let decoder = PngDecoder::new(Cursor::new(bytes))?;
    decoder.read_image(pixels.as_mut_slice())
}

/// Relies on `PngEncoder::new_with_quality` and `ImageEncoder::write_image`,
/// which asserts that the buffer holds exactly width times height pixels of
/// the color type.
#[verifier::external_body]
fn encode_png(
    pixels: &[u8],
    width: u32,
    height: u32,
    color: ExtendedColorType,
    compression: CompressionType,
    filter: FilterType,
) -> (r: Result<Vec<u8>, ImageError>)
    requires
        eight_bit_channels(color) > 0,
        pixels@.len() == buffer_len(width, height, eight_bit_channels(color)),
    ensures
        r is Ok <==> png_encoding(
            pixels@,
            width,
            height,
            eight_bit_channels(color),
            compression,
            filter,
        ) is Some,
        r is Ok ==> png_encoding(pixels@, width, height, eight_bit_channels(color), compression, filter)
            == Some(r->Ok_0@),
{
    let mut encoded = Vec::new();
    PngEncoder::new_with_quality(&mut encoded, compression, filter).write_image(
        pixels,
        width,
        height,
        color,
    )?;
    Ok(encoded)
}

/// Relies on `oxipng::optimize_from_memory`, with the options of `preset`
/// overridden by the strip policy, the deflater, `fast_evaluation` and the
/// timeout. Which result comes back depends on the time taken; it is one of
/// those the options allow.
#[verifier::external_body]
fn optimize_png(
    png: &[u8],
    preset: u8,
    strip: StripPolicy,
    deflater: Deflater,
    fast_evaluation: bool,
    timeout: Duration,
) -> (r: Result<Vec<u8>, PngError>)
    requires
        deflater matches Deflater::Zopfli { iterations } ==> iterations > 0,
    ensures
        r is Ok ==> png_optimizations(png@, preset, strip, deflater, fast_evaluation, timeout).contains(
            r->Ok_0@,
        ),
{
    let strip = match strip {
        StripPolicy::KeepAll => StripChunks::None,
        StripPolicy::Safe => StripChunks::Safe,
        StripPolicy::All => StripChunks::All,
    };
    let deflate = match deflater {
        Deflater::Libdeflater { compression } => Deflaters::Libdeflater { compression },
        Deflater::Zopfli { iterations } => Deflaters::Zopfli { iterations: NonZeroU8::try_from(iterations).unwrap() },
    };
    let options = Options { strip, deflate, fast_evaluation, timeout: Some(timeout), ..Options::from_preset(preset) };
    oxipng::optimize_from_memory(png, &options)
}

/// The optimizer's compression preset, before the settings below override it.
pub const OPTIMIZE_PRESET: u8 = 6;

/// The optimizer removes every ancillary chunk.
pub const OPTIMIZE_STRIP: StripPolicy = StripPolicy::All;

/// The optimizer's effort.
pub struct OptimizeSettings {
    /// Zopfli iterations; at least one.
    pub iterations: u8,
    /// After this long the optimizer returns the best result it has.
    pub timeout: Duration,
}

/// A decoded image whose color bytes have been quantized.
pub struct MaskedImage {
    pub width: u32,
    pub height: u32,
    pub layout: TargetColors,
    pub pixels: Vec<u8>,
}

impl MaskedImage {
    /// The buffer holds exactly `width * height` pixels of the layout.
    pub open spec fn wf(&self) -> bool {
        self.pixels@.len() == buffer_len(self.width, self.height, self.layout.pixel_len())
    }
}

/// Why re-encoding failed, by stage.
pub enum PipelineError {
    /// The PNG header could not be decoded.
    Header(ImageError),
    /// The color type is not one of the four supported layouts.
    ColorType(ColorType),
    /// The pixel data could not be decoded.
    Read(ImageError),
    /// The pixel data has more bytes than memory can address; the size is
    /// given.
    TooLarge(u64),
    /// The quantized pixels could not be encoded.
    Encode(ImageError),
    /// The optimizer failed.
    Optimize(PngError),
}

/// The layout of a PNG whose header decodes to a supported color type.
pub open spec fn png_layout(input: Seq<u8>) -> Option<TargetColors> {
    match png_header(input) {
        Some(h) => TargetColors::of_color_type(h.2),
        None => None,
    }
}

/// The pixel buffer of a PNG of a supported layout fits in memory.
pub open spec fn png_fits(input: Seq<u8>) -> bool {
    match png_layout(input) {
        Some(layout) => png_header(input)->Some_0.0 as nat * png_header(input)->Some_0.1 as nat
            * layout.pixel_len() <= usize::MAX as nat,
        None => false,
    }
}

/// What decoding and quantizing owes, stage by stage.
pub open spec fn decoded_as(
    input: Seq<u8>,
    bits: SignificantBits,
    r: Result<MaskedImage, PipelineError>,
) -> bool {
    match png_header(input) {
        None => r matches Err(PipelineError::Header(_)),
        Some(h) => match TargetColors::of_color_type(h.2) {
            None => r matches Err(PipelineError::ColorType(c)) && c == h.2,
            Some(layout) => if h.0 as nat * h.1 as nat * layout.pixel_len() > usize::MAX as nat {
                r matches Err(PipelineError::TooLarge(n)) && n as nat == buffer_len(
                    h.0,
                    h.1,
                    layout.pixel_len(),
                )
            } else {
                match png_pixels(input) {
                None => r matches Err(PipelineError::Read(_)),
                Some(px) => r is Ok && {
                    let m = r->Ok_0;
                    &&& m.wf()
                    &&& m.width == h.0
                    &&& m.height == h.1
                    &&& m.layout == layout
                    &&& m.pixels@ == masked_pixels(px, layout, bits)
                },
                }
            },
        },
    }
}

/// The encoding of a quantized image, with fast compression and no filter.
pub open spec fn masked_encoding(image: MaskedImage) -> Option<Seq<u8>> {
    png_encoding(
        image.pixels@,
        image.width,
        image.height,
        image.layout.pixel_len(),
        CompressionType::Fast,
        FilterType::NoFilter,
    )
}

/// Decodes a PNG and quantizes its color bytes to `bits` significant bits.
/// A color type other than the four supported layouts is refused before the
/// pixel data is decoded.
pub fn decode_and_mask(input: &[u8], bits: SignificantBits) -> (r: Result<MaskedImage, PipelineError>)
    ensures
        decoded_as(input@, bits, r),
{
    let header = match read_header(input) {
        Ok(header) => header,
        Err(err) => return Err(PipelineError::Header(err)),
    };
    let layout = match TargetColors::try_from(header.color) {
        Ok(layout) => layout,
        Err(color) => return Err(PipelineError::ColorType(color)),
    };
    let w = header.width as u128;
    let h = header.height as u128;
    let bpp = layout.bytes_per_pixel() as u128;
    proof {
        assert(w * h <= 0xffff_ffff_ffff_ffff) by (nonlinear_arith)
            requires
                w <= 0xffff_ffff,
                h <= 0xffff_ffff,
        ;
        assert(w * h * bpp <= 4 * 0xffff_ffff_ffff_ffff) by (nonlinear_arith)
            requires
                w * h <= 0xffff_ffff_ffff_ffff,
                bpp <= 4,
        ;
    }
    let count: u128 = w * h;
    let total: u128 = count * bpp;
    assert(total as nat == header.width as nat * header.height as nat * layout.pixel_len());
    assert(total as nat > u64::MAX as nat ==> buffer_len(header.width, header.height, layout.pixel_len()) == u64::MAX as nat);
    assert(total as nat <= u64::MAX as nat ==> buffer_len(header.width, header.height, layout.pixel_len()) == total as nat);
    if total > usize::MAX as u128 {
        return Err(PipelineError::TooLarge(if total > u64::MAX as u128 {
            u64::MAX
        } else {
            total as u64
        }));
    }
    let mut pixels: Vec<u8> = vec![0u8; total as usize];
    if let Err(err) = read_pixels(input, &mut pixels) {
        return Err(PipelineError::Read(err));
    }
    bits.run(pixels.as_mut_slice(), layout);
    Ok(MaskedImage { width: header.width, height: header.height, layout, pixels })
}

/// Encodes a quantized image with fast compression and no filter.
pub fn encode_masked(image: &MaskedImage) -> (r: Result<Vec<u8>, PipelineError>)
    requires
        image.wf(),
    ensures
        r is Ok <==> masked_encoding(*image) is Some,
        r is Ok ==> masked_encoding(*image) == Some(r->Ok_0@),
        r is Err ==> r->Err_0 is Encode,
{
    let color = ExtendedColorType::from(image.layout);
    match encode_png(
        image.pixels.as_slice(),
        image.width,
        image.height,
        color,
        CompressionType::Fast,
        FilterType::NoFilter,
    ) {
        Ok(encoded) => Ok(encoded),
        Err(err) => Err(PipelineError::Encode(err)),
    }
}

/// What optimizing owes for an encoding: one of the optimizer's results
/// with the fixed preset, every ancillary chunk stripped, Zopfli with the
/// settings' iterations, full evaluation and the settings' timeout.
pub open spec fn optimized_as(png: Seq<u8>, settings: OptimizeSettings, out: Seq<u8>) -> bool {
    png_optimizations(
        png,
        OPTIMIZE_PRESET,
        OPTIMIZE_STRIP,
        Deflater::Zopfli { iterations: settings.iterations },
        false,
        settings.timeout,
    ).contains(out)
}

/// Encodes a quantized image with fast compression and no filter, then
/// optimizes the encoding.
pub fn encode_and_optimize(image: &MaskedImage, settings: &OptimizeSettings) -> (r: Result<
    Vec<u8>,
    PipelineError,
>)
    requires
        image.wf(),
        settings.iterations > 0,
    ensures
        masked_encoding(*image) is None ==> r matches Err(PipelineError::Encode(_)),
        masked_encoding(*image) is Some && r is Err ==> r->Err_0 is Optimize,
        r is Ok ==> masked_encoding(*image) is Some && optimized_as(
            masked_encoding(*image)->Some_0,
            *settings,
            r->Ok_0@,
        ),
        r is Err ==> r->Err_0 is Encode || r->Err_0 is Optimize,
{
    let encoded = encode_masked(image)?;
    match optimize_png(
        encoded.as_slice(),
        OPTIMIZE_PRESET,
        OPTIMIZE_STRIP,
        Deflater::Zopfli { iterations: settings.iterations },
        false,
        settings.timeout,
    ) {
        Ok(optimized) => Ok(optimized),
        Err(err) => Err(PipelineError::Optimize(err)),
    }
}

/// The whole transformation: decode, quantize, encode, optimize.
pub fn reencode(input: &[u8], bits: SignificantBits, settings: &OptimizeSettings) -> (r: Result<
    Vec<u8>,
    PipelineError,
>)
    requires
        settings.iterations > 0,
    ensures
        png_header(input@) is None ==> r matches Err(PipelineError::Header(_)),
        png_header(input@) is Some && png_layout(input@) is None ==> (r matches Err(
            PipelineError::ColorType(c),
        ) && c == png_header(input@)->Some_0.2),
        png_layout(input@) is Some && !png_fits(input@) ==> r matches Err(
            PipelineError::TooLarge(_),
        ),
        png_fits(input@) && png_pixels(input@) is None ==> r matches Err(PipelineError::Read(_)),
        png_fits(input@) && png_pixels(input@) is Some ==> {
            let h = png_header(input@)->Some_0;
            let layout = png_layout(input@)->Some_0;
            let enc = png_encoding(
                masked_pixels(png_pixels(input@)->Some_0, layout, bits),
                h.0,
                h.1,
                layout.pixel_len(),
                CompressionType::Fast,
                FilterType::NoFilter,
            );
            &&& enc is None ==> (r matches Err(PipelineError::Encode(_)))
            &&& r is Ok ==> enc is Some && optimized_as(enc->Some_0, *settings, r->Ok_0@)
            &&& enc is Some && r is Err ==> r->Err_0 is Optimize
        },
{
    let image = decode_and_mask(input, bits)?;
    encode_and_optimize(&image, settings)
}

} // verus!
