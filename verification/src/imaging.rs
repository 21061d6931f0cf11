//! The calls into the `image` and `base64` crates.
//!
//! An image is opaque to the verifier. What the `image` crate returns is
//! named by the functions without a body below, so that the pipeline built
//! on them can say exactly which bytes it hands to which call.

use vstd::prelude::*;

verus! {

/// `image::DynamicImage`, a decoded image.
#[verifier::external_type_specification]
#[verifier::external_body]
pub struct ExDynamicImage(image::DynamicImage);

/// `image::ImageError`, the error of decoding and encoding.
#[verifier::external_type_specification]
#[verifier::external_body]
pub struct ExImageError(image::ImageError);

/// What decoding makes of `data` in the format that `image::guess_format`
/// reads from its first bytes: the image that
/// `image::load_from_memory_with_format` hands back for that format, or the
/// error of either call.
pub uninterp spec fn decoded(data: Seq<u8>) -> Result<image::DynamicImage, image::ImageError>;

/// What `image::load_from_memory_with_format` makes of `data` read as PNG.
pub uninterp spec fn png_decoded(data: Seq<u8>) -> Result<image::DynamicImage, image::ImageError>;

/// The width of an image in pixels.
pub uninterp spec fn image_width(img: image::DynamicImage) -> u32;

/// The height of an image in pixels.
pub uninterp spec fn image_height(img: image::DynamicImage) -> u32;

/// The JPEG stream that the `image` crate writes for an image at a quality.
pub uninterp spec fn jpeg_encoded(img: image::DynamicImage, quality: u8) -> Result<
    Seq<u8>,
    image::ImageError,
>;

/// The PNG stream that the `image` crate writes for an image.
pub uninterp spec fn png_encoded(img: image::DynamicImage) -> Result<Seq<u8>, image::ImageError>;

/// The text by which an error of the `image` crate describes itself.
pub uninterp spec fn image_error_text(e: image::ImageError) -> Seq<char>;

/// The 64 digits of base64 in the standard alphabet, by their value.
pub const BASE64_DIGITS: &'static str =
    "ABCDEFGHIJKLMNOPQRSTUVWXYZabcdefghijklmnopqrstuvwxyz0123456789+/";

/// The digit of base64 that stands for the six bits `v`.
pub open spec fn base64_digit(v: int) -> char
    recommends
        0 <= v < 64,
{
    BASE64_DIGITS@[v]
}

/// The base64 text of `data` in the standard alphabet, with padding: four
/// digits for every three bytes, most significant bits first, and a last
/// group that is filled up with `=` where one or two bytes are left.
pub open spec fn base64_text(data: Seq<u8>) -> Seq<char>
    decreases data.len(),
{
    if data.len() == 0 {
        Seq::empty()
    } else if data.len() == 1 {
        let a = data[0] as int;
        seq![base64_digit(a / 4), base64_digit(a % 4 * 16), '=', '=']
    } else if data.len() == 2 {
        let a = data[0] as int;
        let b = data[1] as int;
        seq![
            base64_digit(a / 4),
            base64_digit(a % 4 * 16 + b / 16),
            base64_digit(b % 16 * 4),
            '=',
        ]
    } else {
        let a = data[0] as int;
        let b = data[1] as int;
        let c = data[2] as int;
        seq![
            base64_digit(a / 4),
            base64_digit(a % 4 * 16 + b / 16),
            base64_digit(b % 16 * 4 + c / 64),
            base64_digit(c % 64),
        ] + base64_text(data.subrange(3, data.len() as int))
    }
}

/// The bytes of an encoding, or its error.
pub open spec fn bytes_view(r: Result<Vec<u8>, image::ImageError>) -> Result<
    Seq<u8>,
    image::ImageError,
> {
    match r {
        Ok(bytes) => Ok(bytes@),
        Err(e) => Err(e),
    }
}

/// `image::guess_format`, then `image::load_from_memory_with_format` with
/// the format it found: the image that the bytes encode in the format that
/// their first bytes announce, or the crate's error. Both calls go by the
/// bytes and the signatures built into the crate alone, so that the same
/// bytes always give the same result.
#[verifier::external_body]
pub(crate) fn decode(data: &[u8]) -> (r: Result<image::DynamicImage, image::ImageError>)
    ensures
        r == decoded(data@),
{
    let format = image::guess_format(data)?;
    image::load_from_memory_with_format(data, format)
}

/// `image::load_from_memory_with_format` with the PNG format: the image
/// that the bytes encode as PNG, or the crate's error.
#[verifier::external_body]
pub(crate) fn decode_png(data: &[u8]) -> (r: Result<image::DynamicImage, image::ImageError>)
    ensures
        r == png_decoded(data@),
{
    image::load_from_memory_with_format(data, image::ImageFormat::Png)
}

/// `DynamicImage::width`.
#[verifier::external_body]
pub(crate) fn width(img: &image::DynamicImage) -> (r: u32)
    ensures
        r == image_width(*img),
{
    img.width()
}

/// `DynamicImage::height`.
#[verifier::external_body]
pub(crate) fn height(img: &image::DynamicImage) -> (r: u32)
    ensures
        r == image_height(*img),
{
    img.height()
}

/// `DynamicImage::resize_exact` with the Lanczos filter of window 3: a new
/// image of exactly the given size. Nothing is claimed of its samples, which
/// the crate computes in floating point. The size may not exceed the image,
/// so that the new image needs no more memory than the old one.
#[verifier::external_body]
pub(crate) fn resample(img: &image::DynamicImage, width: u32, height: u32) -> (r:
    image::DynamicImage)
    requires
        0 < width <= image_width(*img),
        0 < height <= image_height(*img),
    ensures
        image_width(r) == width,
        image_height(r) == height,
{
    img.resize_exact(width, height, image::imageops::FilterType::Lanczos3)
}

/// `DynamicImage::write_with_encoder` with a JPEG encoder of the given
/// quality, into memory: the stream, or the crate's error.
#[verifier::external_body]
pub(crate) fn encode_jpeg(img: &image::DynamicImage, quality: u8) -> (r: Result<
    Vec<u8>,
    image::ImageError,
>)
    ensures
        bytes_view(r) == jpeg_encoded(*img, quality),
{
    let mut buffer = std::io::Cursor::new(Vec::new());
    let encoder = image::codecs::jpeg::JpegEncoder::new_with_quality(&mut buffer, quality);
    img.write_with_encoder(encoder)?;
    Ok(buffer.into_inner())
}

/// `DynamicImage::write_to` with the PNG format, into memory: the stream,
/// or the crate's error.
#[verifier::external_body]
pub(crate) fn encode_png(img: &image::DynamicImage) -> (r: Result<Vec<u8>, image::ImageError>)
    ensures
        bytes_view(r) == png_encoded(*img),
{
    let mut buffer = std::io::Cursor::new(Vec::new());
    img.write_to(&mut buffer, image::ImageFormat::Png)?;
    Ok(buffer.into_inner())
}

/// `ImageError`'s `to_string`: the text by which the error describes
/// itself.
#[verifier::external_body]
pub(crate) fn error_text(e: &image::ImageError) -> (r: String)
    ensures
        r@ == image_error_text(*e),
{
    e.to_string()
}

/// `Engine::encode` of `base64`'s standard engine: the base64 text of the
/// bytes, in the standard alphabet and padded. The call fails only where
/// the length of the text exceeds `usize`, which no slice is long enough
/// for.
#[verifier::external_body]
pub(crate) fn base64(data: &[u8]) -> (r: String)
    ensures
        r@ == base64_text(data@),
{
    base64::Engine::encode(&base64::engine::general_purpose::STANDARD, data)
}

} // verus!
