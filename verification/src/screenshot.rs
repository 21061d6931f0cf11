//! The image rendering pipeline: from the bytes of a capture to a data URL,
//! resized and re-encoded on the way as the request asks.

use crate::imaging;
use crate::imaging::{
    base64_text, decoded, image_error_text, image_height, image_width, jpeg_encoded,
    png_decoded, png_encoded,
};
use crate::text::{join2, same_text};
use vstd::prelude::*;
use vstd::string::StrSliceExecFns;
use vstd::string::StringExecFns;

verus! {

/// A captured viewport.
#[derive(Debug)]
pub struct Screenshot {
    /// The capture, encoded as PNG.
    pub data: Vec<u8>,
}

/// Why a screenshot could not be delivered.
#[derive(Debug, PartialEq, Eq)]
pub enum ScreenshotError {
    /// The platform offers no way to capture a viewport.
    PlatformUnsupported,
    /// The platform failed to capture.
    CaptureFailed(String),
    /// The capture could not be re-encoded.
    EncodeFailed(String),
    /// The capture could not be resized.
    ResizeFailed(String),
    /// The platform did not answer in time.
    Timeout,
}

/// The content of a [`ScreenshotError`].
pub enum ScreenshotErrorModel {
    PlatformUnsupported,
    CaptureFailed(Seq<char>),
    EncodeFailed(Seq<char>),
    ResizeFailed(Seq<char>),
    Timeout,
}

impl View for ScreenshotError {
    type V = ScreenshotErrorModel;

    open spec fn view(&self) -> ScreenshotErrorModel {
        match self {
            ScreenshotError::PlatformUnsupported => ScreenshotErrorModel::PlatformUnsupported,
            ScreenshotError::CaptureFailed(m) => ScreenshotErrorModel::CaptureFailed(m@),
            ScreenshotError::EncodeFailed(m) => ScreenshotErrorModel::EncodeFailed(m@),
            ScreenshotError::ResizeFailed(m) => ScreenshotErrorModel::ResizeFailed(m@),
            ScreenshotError::Timeout => ScreenshotErrorModel::Timeout,
        }
    }
}

impl ScreenshotErrorModel {
    /// The text that reports the error.
    pub open spec fn message(self) -> Seq<char> {
        match self {
            ScreenshotErrorModel::PlatformUnsupported => "Platform not supported"@,
            ScreenshotErrorModel::CaptureFailed(m) => "Webview capture failed: "@ + m,
            ScreenshotErrorModel::EncodeFailed(m) => "Encoding failed: "@ + m,
            ScreenshotErrorModel::ResizeFailed(m) => "Resize failed: "@ + m,
            ScreenshotErrorModel::Timeout => "Timeout exceeded"@,
        }
    }
}

impl ScreenshotError {
    /// The text that reports the error.
    pub fn message(&self) -> (r: String)
        ensures
            r@ == self@.message(),
    {
        match self {
            ScreenshotError::PlatformUnsupported => String::from_str("Platform not supported"),
            ScreenshotError::CaptureFailed(m) => join2("Webview capture failed: ", m.as_str()),
            ScreenshotError::EncodeFailed(m) => join2("Encoding failed: ", m.as_str()),
            ScreenshotError::ResizeFailed(m) => join2("Resize failed: ", m.as_str()),
            ScreenshotError::Timeout => String::from_str("Timeout exceeded"),
        }
    }
}

/// Whether `data` starts with the two bytes that open every JPEG stream.
pub open spec fn jpeg_magic(data: Seq<u8>) -> bool {
    data.len() >= 2 && data[0] == 0xFF && data[1] == 0xD8
}

/// Tells a JPEG stream from any other by its first two bytes.
pub fn is_jpeg(data: &[u8]) -> (r: bool)
    ensures
        r == jpeg_magic(data@),
{
    data.len() >= 2 && data[0] == 0xFF && data[1] == 0xD8
}

/// The height that keeps the aspect ratio when an image of `width` by
/// `height` is scaled to `max_width`: `height * max_width / width`, rounded
/// to the nearest integer, halves upwards.
pub open spec fn scaled_height(width: nat, height: nat, max_width: nat) -> nat
    recommends
        width > 0,
{
    (2 * height * max_width + width) / (2 * width)
}

/// The scaled height is the integer nearest to `height * max_width / width`,
/// and the upper one of two that are equally near.
pub proof fn lemma_scaled_height_is_nearest(width: nat, height: nat, max_width: nat)
    requires
        width > 0,
    ensures
        2 * width * scaled_height(width, height, max_width) <= 2 * height * max_width + width,
        2 * height * max_width + width < 2 * width * (scaled_height(width, height, max_width) + 1),
        max_width <= width ==> scaled_height(width, height, max_width) <= height,
{
    let n = (2 * height * max_width + width) as int;
    let d = (2 * width) as int;
    let s = scaled_height(width, height, max_width) as int;
    assert(d * (n / d) <= n < d * (n / d) + d) by (nonlinear_arith)
        requires
            d > 0,
            n >= 0,
    ;
    assert(d * (s + 1) == d * s + d) by (nonlinear_arith);
    assert(2 * width * scaled_height(width, height, max_width) == d * s) by (nonlinear_arith)
        requires
            d == 2 * width,
            s == scaled_height(width, height, max_width),
    ;
    assert(2 * width * (scaled_height(width, height, max_width) + 1) == d * (s + 1))
        by (nonlinear_arith)
        requires
            d == 2 * width,
            s == scaled_height(width, height, max_width),
    ;
    if max_width <= width {
        assert(2 * height * max_width <= 2 * height * width) by (nonlinear_arith)
            requires
                max_width <= width,
        ;
        assert(d * height == 2 * height * width) by (nonlinear_arith)
            requires
                d == 2 * width,
        ;
        assert(n / d <= height) by (nonlinear_arith)
            requires
                n <= d * height + width,
                d == 2 * width,
                width > 0,
                n >= 0,
        ;
    }
}

/// `n`, or 1 where `n` is 0.
pub open spec fn at_least_one(n: u32) -> u32 {
    if n == 0 {
        1
    } else {
        n
    }
}

/// The size to resample to, or `None` where the image is to stay as it is.
///
/// An image is never enlarged, and an image without rows is left alone. A
/// wider image gets the width `max_width` and the height that keeps its
/// aspect ratio; a width or height that would come to nothing is one pixel.
pub open spec fn resize_target(width: u32, height: u32, max_width: u32) -> Option<(u32, u32)> {
    if width <= max_width || height == 0 {
        None
    } else {
        Some(
            (
                at_least_one(max_width),
                at_least_one(
                    scaled_height(width as nat, height as nat, max_width as nat) as u32,
                ),
            ),
        )
    }
}

/// An image that is wider than the limit is resampled to exactly the limit,
/// with the height nearest to what keeps its aspect ratio, unless the limit
/// or that height is less than one pixel.
pub proof fn lemma_resize_target(width: u32, height: u32, max_width: u32)
    requires
        1 <= max_width < width,
        scaled_height(width as nat, height as nat, max_width as nat) >= 1,
    ensures
        resize_target(width, height, max_width) == Some(
            (max_width, scaled_height(width as nat, height as nat, max_width as nat) as u32),
        ),
        scaled_height(width as nat, height as nat, max_width as nat) <= height,
{
    lemma_scaled_height_is_nearest(width as nat, height as nat, max_width as nat);
}

/// Decides whether an image of `width` by `height` is resampled to fit
/// `max_width`, and to which size.
pub fn resize_plan(width: u32, height: u32, max_width: u32) -> (r: Option<(u32, u32)>)
    ensures
        r == resize_target(width, height, max_width),
        r matches Some((w, h)) ==> 1 <= w <= width && 1 <= h <= height,
{
    if width <= max_width || height == 0 {
        return None;
    }
    proof {
        assert((height as int) * (max_width as int) <= 0xFFFF_FFFF * 0xFFFF_FFFF)
            by (nonlinear_arith)
            requires
                0 <= height as int <= 0xFFFF_FFFF,
                0 <= max_width as int <= 0xFFFF_FFFF,
        ;
    }
    let product: u128 = (height as u128) * (max_width as u128);
    let numerator: u128 = 2 * product + (width as u128);
    let denominator: u128 = 2 * (width as u128);
    let scaled: u128 = numerator / denominator;
    proof {
        lemma_scaled_height_is_nearest(width as nat, height as nat, max_width as nat);
        assert(2 * ((height as int) * (max_width as int)) == 2 * (height as int) * (
        max_width as int)) by (nonlinear_arith);
    }
    let new_width: u32 = if max_width == 0 {
        1
    } else {
        max_width
    };
    let new_height: u32 = if scaled == 0 {
        1
    } else {
        scaled as u32
    };
    Some((new_width, new_height))
}

/// The bytes of a result, or the content of its error.
pub open spec fn bytes_result(r: Result<Vec<u8>, ScreenshotError>) -> Result<
    Seq<u8>,
    ScreenshotErrorModel,
> {
    match r {
        Ok(bytes) => Ok(bytes@),
        Err(e) => Err(e@),
    }
}

/// The text of a result, or the content of its error.
pub open spec fn text_result(r: Result<String, ScreenshotError>) -> Result<
    Seq<char>,
    ScreenshotErrorModel,
> {
    match r {
        Ok(text) => Ok(text@),
        Err(e) => Err(e@),
    }
}

/// The encoding of a resampled image in the requested format: JPEG at the
/// given quality for `jpeg`, PNG for anything else. A failure of the encoder
/// is a failure to resize.
pub open spec fn encoding(img: image::DynamicImage, format: Seq<char>, quality: u8) -> Result<
    Seq<u8>,
    ScreenshotErrorModel,
> {
    if format == "jpeg"@ {
        match jpeg_encoded(img, quality) {
            Ok(bytes) => Ok(bytes),
            Err(e) => Err(
                ScreenshotErrorModel::ResizeFailed(
                    "Failed to encode JPEG: "@ + image_error_text(e),
                ),
            ),
        }
    } else {
        match png_encoded(img) {
            Ok(bytes) => Ok(bytes),
            Err(e) => Err(
                ScreenshotErrorModel::ResizeFailed("Failed to encode PNG: "@ + image_error_text(e)),
            ),
        }
    }
}

/// Encodes a resampled image in the requested format.
pub fn encode_resized(img: &image::DynamicImage, format: &str, quality: u8) -> (r: Result<
    Vec<u8>,
    ScreenshotError,
>)
    ensures
        bytes_result(r) == encoding(*img, format@, quality),
{
    if same_text(format, "jpeg") {
        match imaging::encode_jpeg(img, quality) {
            Ok(bytes) => Ok(bytes),
            Err(e) => Err(
                ScreenshotError::ResizeFailed(
                    join2("Failed to encode JPEG: ", imaging::error_text(&e).as_str()),
                ),
            ),
        }
    } else {
        match imaging::encode_png(img) {
            Ok(bytes) => Ok(bytes),
            Err(e) => Err(
                ScreenshotError::ResizeFailed(
                    join2("Failed to encode PNG: ", imaging::error_text(&e).as_str()),
                ),
            ),
        }
    }
}

/// What resizing makes of `data`, where `resampled` is the image that the
/// resampler hands back when it is called.
///
/// Bytes that do not decode fail. An image no wider than `max_width` keeps
/// its bytes. A wider one is resampled, and the result is encoded in the
/// requested format.
pub open spec fn resizing(
    data: Seq<u8>,
    max_width: u32,
    format: Seq<char>,
    quality: u8,
    resampled: image::DynamicImage,
) -> Result<Seq<u8>, ScreenshotErrorModel> {
    match decoded(data) {
        Err(e) => Err(
            ScreenshotErrorModel::ResizeFailed("Failed to decode image: "@ + image_error_text(e)),
        ),
        Ok(img) => match resize_target(image_width(img), image_height(img), max_width) {
            None => Ok(data),
            Some(_) => encoding(resampled, format, quality),
        },
    }
}

/// Whether `resampled` has the size that `data` is resampled to, where it
/// is resampled at all.
pub open spec fn fits_target(data: Seq<u8>, max_width: u32, resampled: image::DynamicImage) -> bool {
    match decoded(data) {
        Ok(img) => match resize_target(image_width(img), image_height(img), max_width) {
            Some((w, h)) => image_width(resampled) == w && image_height(resampled) == h,
            None => true,
        },
        Err(_) => true,
    }
}

/// Resizes an encoded image that is wider than `max_width`, keeping its
/// aspect ratio, and hands back the bytes as they are where it is not.
///
/// The resampled image has the size that [`resize_plan`] gives.
pub fn resize_if_needed(data: Vec<u8>, max_width: u32, format: &str, quality: u8) -> (r: Result<
    Vec<u8>,
    ScreenshotError,
>)
    ensures
        exists|resampled: image::DynamicImage|
            fits_target(data@, max_width, resampled) && bytes_result(r) == resizing(
                data@,
                max_width,
                format@,
                quality,
                resampled,
            ),
{
    let img = match imaging::decode(data.as_slice()) {
        Ok(img) => img,
        Err(e) => {
            let r = Err(
                ScreenshotError::ResizeFailed(
                    join2("Failed to decode image: ", imaging::error_text(&e).as_str()),
                ),
            );
            let ghost any: image::DynamicImage = arbitrary();
            assert(fits_target(data@, max_width, any) && bytes_result(r) == resizing(
                data@,
                max_width,
                format@,
                quality,
                any,
            ));
            return r;
        },
    };
    match resize_plan(imaging::width(&img), imaging::height(&img), max_width) {
        None => {
            let ghost before = data@;
            let r = Ok(data);
            assert(fits_target(before, max_width, img) && bytes_result(r) == resizing(
                before,
                max_width,
                format@,
                quality,
                img,
            ));
            r
        },
        Some((new_width, new_height)) => {
            let resampled = imaging::resample(&img, new_width, new_height);
            let r = encode_resized(&resampled, format, quality);
            assert(fits_target(data@, max_width, resampled) && bytes_result(r) == resizing(
                data@,
                max_width,
                format@,
                quality,
                resampled,
            ));
            r
        },
    }
}

/// What re-encoding a PNG stream as JPEG gives. A stream that does not
/// decode, and an image that does not encode, are failures to encode.
pub open spec fn png_to_jpeg(data: Seq<u8>, quality: u8) -> Result<Seq<u8>, ScreenshotErrorModel> {
    match png_decoded(data) {
        Err(e) => Err(
            ScreenshotErrorModel::EncodeFailed("Failed to decode PNG: "@ + image_error_text(e)),
        ),
        Ok(img) => match jpeg_encoded(img, quality) {
            Ok(bytes) => Ok(bytes),
            Err(e) => Err(
                ScreenshotErrorModel::EncodeFailed(
                    "Failed to encode JPEG: "@ + image_error_text(e),
                ),
            ),
        },
    }
}

/// Re-encodes a PNG stream as JPEG at the given quality.
pub fn convert_png_to_jpeg(png_data: &[u8], quality: u8) -> (r: Result<Vec<u8>, ScreenshotError>)
    ensures
        bytes_result(r) == png_to_jpeg(png_data@, quality),
{
    let img = match imaging::decode_png(png_data) {
        Ok(img) => img,
        Err(e) => {
            return Err(
                ScreenshotError::EncodeFailed(
                    join2("Failed to decode PNG: ", imaging::error_text(&e).as_str()),
                ),
            );
        },
    };
    match imaging::encode_jpeg(&img, quality) {
        Ok(bytes) => Ok(bytes),
        Err(e) => Err(
            ScreenshotError::EncodeFailed(
                join2("Failed to encode JPEG: ", imaging::error_text(&e).as_str()),
            ),
        ),
    }
}

/// The bytes that are delivered and their media type, or the error that
/// fails the delivery.
///
/// For `jpeg`, bytes that are a JPEG stream already are delivered as they
/// are; others are re-encoded, and a failure to re-encode fails the
/// delivery. For any other format the bytes are delivered as PNG.
pub open spec fn delivery(resized: Seq<u8>, format: Seq<char>, quality: u8) -> Result<
    (Seq<u8>, Seq<char>),
    ScreenshotErrorModel,
> {
    if format == "jpeg"@ {
        if jpeg_magic(resized) {
            Ok((resized, "image/jpeg"@))
        } else {
            match png_to_jpeg(resized, quality) {
                Ok(jpeg) => Ok((jpeg, "image/jpeg"@)),
                Err(e) => Err(e),
            }
        }
    } else {
        Ok((resized, "image/png"@))
    }
}

/// The data URL of `data` with the media type `mime`.
pub open spec fn data_url(mime: Seq<char>, data: Seq<u8>) -> Seq<char> {
    "data:"@ + mime + ";base64,"@ + base64_text(data)
}

/// The data URL that delivers `resized` in the requested format, or the
/// error that fails the delivery.
pub open spec fn delivered(resized: Seq<u8>, format: Seq<char>, quality: u8) -> Result<
    Seq<char>,
    ScreenshotErrorModel,
> {
    match delivery(resized, format, quality) {
        Ok((bytes, mime)) => Ok(data_url(mime, bytes)),
        Err(e) => Err(e),
    }
}

/// Brings the bytes to the requested format and wraps them as a data URL.
/// Bytes that are asked for as JPEG and cannot be re-encoded fail.
pub fn deliver(resized: Vec<u8>, format: &str, quality: u8) -> (r: Result<String, ScreenshotError>)
    ensures
        text_result(r) == delivered(resized@, format@, quality),
{
    let (final_data, mime) = if same_text(format, "jpeg") {
        if is_jpeg(resized.as_slice()) {
            (resized, "image/jpeg")
        } else {
            match convert_png_to_jpeg(resized.as_slice(), quality) {
                Ok(jpeg) => (jpeg, "image/jpeg"),
                Err(e) => {
                    return Err(e);
                },
            }
        }
    } else {
        (resized, "image/png")
    };
    let payload = imaging::base64(final_data.as_slice());
    let mut url = String::from_str("data:");
    url.append(mime);
    url.append(";base64,");
    url.append(payload.as_str());
    Ok(url)
}

/// What rendering makes of a capture, where `resampled` is the image that
/// the resampler hands back when it is called.
///
/// Without a width limit the capture is not resized. A failure to resize
/// fails the rendering, and so does a failure to re-encode.
pub open spec fn rendering(
    data: Seq<u8>,
    format: Seq<char>,
    quality: u8,
    max_width: Option<u32>,
    resampled: image::DynamicImage,
) -> Result<Seq<char>, ScreenshotErrorModel> {
    let resized = match max_width {
        Some(w) => resizing(data, w, format, quality, resampled),
        None => Ok(data),
    };
    match resized {
        Ok(bytes) => delivered(bytes, format, quality),
        Err(e) => Err(e),
    }
}

/// Renders a capture: resizes it to the width limit, brings it to the
/// requested format and wraps it as a data URL.
pub fn render_screenshot(data: Vec<u8>, format: &str, quality: u8, max_width: Option<u32>) -> (r:
    Result<String, ScreenshotError>)
    ensures
        exists|resampled: image::DynamicImage|
            (max_width matches Some(w) ==> fits_target(data@, w, resampled)) && text_result(r)
                == rendering(data@, format@, quality, max_width, resampled),
{
    let ghost before = data@;
    let ghost witness: image::DynamicImage = arbitrary();
    let resized = match max_width {
        Some(w) => {
            let resized = resize_if_needed(data, w, format, quality);
            proof {
                witness = choose|resampled: image::DynamicImage|
                    fits_target(before, w, resampled) && bytes_result(resized) == resizing(
                        before,
                        w,
                        format@,
                        quality,
                        resampled,
                    );
            }
            match resized {
                Ok(bytes) => bytes,
                Err(e) => {
                    let r = Err(e);
                    assert(text_result(r) == rendering(
                        before,
                        format@,
                        quality,
                        max_width,
                        witness,
                    ));
                    return r;
                },
            }
        },
        None => data,
    };
    let r = deliver(resized, format, quality);
    assert(text_result(r) == rendering(before, format@, quality, max_width, witness));
    r
}

/// The format of a capture for which the request names none.
pub const DEFAULT_FORMAT: &'static str = "png";

/// The JPEG quality of a capture for which the request names none.
pub const DEFAULT_QUALITY: u8 = 90;

/// Settles format and quality of a capture: what the request names, and
/// the defaults for what it does not.
pub fn capture_options(format: Option<String>, quality: Option<u8>) -> (r: (String, u8))
    ensures
        r.0@ == (match format {
            Some(f) => f@,
            None => DEFAULT_FORMAT@,
        }),
        r.1 == (match quality {
            Some(q) => q,
            None => DEFAULT_QUALITY,
        }),
{
    let format = match format {
        Some(f) => f,
        None => String::from_str(DEFAULT_FORMAT),
    };
    let quality = match quality {
        Some(q) => q,
        None => DEFAULT_QUALITY,
    };
    (format, quality)
}

/// Name of the environment variable that sets the width limit of the
/// process.
pub const ENV_MAX_WIDTH: &'static str = "TAURI_MCP_SCREENSHOT_MAX_WIDTH";

/// Whether `c` is one of the ten decimal digits.
pub open spec fn is_digit(c: char) -> bool {
    48 <= c as u32 <= 57
}

/// The number that a sequence of decimal digits writes.
pub open spec fn digits_value(s: Seq<char>) -> nat
    decreases s.len(),
{
    if s.len() == 0 {
        0
    } else {
        digits_value(s.drop_last()) * 10 + (s.last() as u32 - 48) as nat
    }
}

/// Whether `s` holds decimal digits only.
pub open spec fn all_digits(s: Seq<char>) -> bool {
    forall|i: int| 0 <= i < s.len() ==> is_digit(#[trigger] s[i])
}

/// The width that digits write: there is at least one, all are decimal
/// digits, and their value fits 32 bits. Anything else writes none.
pub open spec fn digits_width(digits: Seq<char>) -> Option<u32> {
    if digits.len() > 0 && all_digits(digits) && digits_value(digits) <= u32::MAX {
        Some(digits_value(digits) as u32)
    } else {
        None
    }
}

/// The width that a text writes: digits, after at most one plus sign.
pub open spec fn written_width(s: Seq<char>) -> Option<u32> {
    if s.len() > 0 && s[0] == '+' {
        digits_width(s.subrange(1, s.len() as int))
    } else {
        digits_width(s)
    }
}

proof fn lemma_value_grows(s: Seq<char>, k: int)
    requires
        0 <= k <= s.len(),
        all_digits(s),
    ensures
        digits_value(s.subrange(0, k)) <= digits_value(s),
    decreases s.len() - k,
{
    if k == s.len() {
        assert(s.subrange(0, k) =~= s);
    } else {
        let shorter = s.drop_last();
        assert forall|i: int| 0 <= i < shorter.len() implies is_digit(#[trigger] shorter[i]) by {
            assert(shorter[i] == s[i]);
        }
        lemma_value_grows(shorter, k);
        assert(shorter.subrange(0, k) =~= s.subrange(0, k));
    }
}

/// Reads a width from a text.
pub fn parse_width(s: &str) -> (r: Option<u32>)
    ensures
        r == written_width(s@),
{
    let n = s.unicode_len();
    let start: usize = if n > 0 && s.get_char(0) == '+' {
        1
    } else {
        0
    };
    let ghost digits = s@.subrange(start as int, n as int);
    proof {
        if start == 0 {
            assert(digits =~= s@);
        }
    }
    if start == n {
        return None;
    }
    let mut acc: u64 = 0;
    let mut i: usize = start;
    while i < n
        invariant
            start <= i <= n,
            n == s@.len(),
            digits == s@.subrange(start as int, n as int),
            written_width(s@) == digits_width(digits),
            acc == digits_value(digits.subrange(0, i - start)),
            acc <= u32::MAX,
            all_digits(digits.subrange(0, i - start)),
        decreases n - i,
    {
        let c = s.get_char(i);
        let d = c as u32;
        let ghost prefix = digits.subrange(0, i - start);
        let ghost longer = digits.subrange(0, i + 1 - start);
        proof {
            assert(longer.drop_last() =~= prefix);
        }
        if d < 48 || d > 57 {
            assert(!is_digit(digits[i - start]));
            return None;
        }
        let next: u64 = acc * 10 + (d - 48) as u64;
        proof {
            assert forall|j: int| 0 <= j < longer.len() implies is_digit(#[trigger] longer[j]) by {
                if j < prefix.len() {
                    assert(longer[j] == prefix[j]);
                }
            }
        }
        if next > 0xFFFF_FFFF {
            proof {
                if all_digits(digits) {
                    lemma_value_grows(digits, i + 1 - start);
                }
            }
            return None;
        }
        acc = next;
        i += 1;
    }
    proof {
        assert(digits.subrange(0, n - start) =~= digits);
    }
    Some(acc as u32)
}

/// The width limit in force: the one the call gives, else the one the
/// process is configured with, else none.
pub open spec fn effective_max_width(param: Option<u32>, configured: Option<Seq<char>>) -> Option<
    u32,
> {
    match param {
        Some(w) => Some(w),
        None => match configured {
            Some(text) => written_width(text),
            None => None,
        },
    }
}

/// Settles the width limit of a capture. `configured` is the value of the
/// process-wide setting, where it is set.
pub fn get_effective_max_width(param: Option<u32>, configured: Option<&str>) -> (r: Option<u32>)
    ensures
        r == effective_max_width(
            param,
            match configured {
                Some(text) => Some(text@),
                None => None,
            },
        ),
{
    if param.is_some() {
        return param;
    }
    match configured {
        Some(text) => parse_width(text),
        None => None,
    }
}

} // verus!
