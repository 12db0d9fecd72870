//! Resized renderings: an image is decoded, scaled to fit the size asked for and encoded
//! as PNG, whatever its format was.

use std::io::Cursor;
use image::imageops::FilterType;
use image::{ImageFormat, ImageReader};
use vstd::prelude::*;
use vstd::string::*;
use crate::error::AppError;

verus! {

/// The width and the height of the picture that `bytes` announce, in pixels; nothing
/// where `bytes` are no image of a known format.
pub uninterp spec fn decoded_size(bytes: Seq<u8>) -> Option<(u32, u32)>;

/// The PNG encoding of the picture of `bytes`, scaled to the largest size within
/// `width` by `height` that keeps its proportions; nothing where `bytes` cannot be
/// decoded or the scaled picture cannot be encoded.
pub uninterp spec fn scaled_png(bytes: Seq<u8>, width: u32, height: u32) -> Option<Seq<u8>>;

/// Why there is no rendering, with the text of the cause.
#[derive(Debug, PartialEq, Eq)]
pub enum RenderFault {
    /// The bytes could not be decoded.
    Decode(String),
    /// The scaled picture could not be encoded.
    Encode(String),
}

/// The most bytes that one pixel takes while a picture is scaled: four channels of four
/// bytes.
pub const BYTES_PER_PIXEL: u128 = 16;

/// The size to scale to: what was asked for, and along an axis for which nothing was
/// asked, the size of the source.
pub open spec fn target_size(source: (u32, u32), width: Option<u32>, height: Option<u32>) -> (
    u32,
    u32,
) {
    (
        match width {
            Some(w) => w,
            None => source.0,
        },
        match height {
            Some(h) => h,
            None => source.1,
        },
    )
}

/// The larger of two numbers.
pub open spec fn larger(a: int, b: int) -> int {
    if a >= b {
        a
    } else {
        b
    }
}

/// Whether a picture of size `source` can be scaled to fit `target`: the source is not
/// empty, and no buffer of the scaling, which has at most the width of the wider of the
/// two and the height of the target, takes more bytes than an allocation can have.
pub open spec fn scaling_fits(source: (u32, u32), target: (u32, u32)) -> bool {
    &&& source.0 > 0
    &&& source.1 > 0
    &&& larger(source.0 as int, larger(target.0 as int, 1)) * larger(target.1 as int, 1)
        * BYTES_PER_PIXEL <= isize::MAX
}

/// The rendering of `original` at the size asked for: the PNG of the picture scaled to
/// its target size; nothing where `original` is no image, the scaling does not fit, or
/// the decoding or the encoding fails.
pub open spec fn rendering(original: Seq<u8>, width: Option<u32>, height: Option<u32>) -> Option<
    Seq<u8>,
> {
    match decoded_size(original) {
        None => None,
        Some(source) => {
            let target = target_size(source, width, height);
            if scaling_fits(source, target) {
                scaled_png(original, target.0, target.1)
            } else {
                None
            }
        },
    }
}

/// Whether `message` is one that a failed rendering gives: that the size is out of
/// range, or that the image could not be loaded, or not be encoded, with the cause.
pub open spec fn tells_render_failure(message: Seq<char>) -> bool {
    ||| message == "Failed to resize image: the size is out of range"@
    ||| "Failed to load image: "@.is_prefix_of(message)
    ||| "Failed to encode image: "@.is_prefix_of(message)
}

/// Calls `ImageReader::new`, `ImageReader::with_guessed_format` and
/// `ImageReader::into_dimensions`: the width and the height that the head of `bytes`
/// announces, or the text of the error where `bytes` are no image of a known format.
/// A picture decoded from `bytes` has this size.
#[verifier::external_body]
fn picture_size(bytes: &[u8]) -> (size: Result<(u32, u32), String>)
    ensures
        size matches Ok(s) ==> decoded_size(bytes@) == Some(s),
        size is Err ==> decoded_size(bytes@) is None,
{
    match ImageReader::new(Cursor::new(bytes)).with_guessed_format() {
        Ok(reader) => reader.into_dimensions().map_err(|e| e.to_string()),
        Err(e) => Err(e.to_string()),
    }
}

/// Calls `image::load_from_memory`, `DynamicImage::resize` with the triangle filter and
/// `DynamicImage::write_to` with the PNG format: the picture of `bytes`, scaled to the
/// largest size within `width` by `height` that keeps its proportions, as PNG; or the
/// text of the error of the decoding or of the encoding. `resize` panics where a buffer
/// of the scaling would be larger than an allocation can be, which `scaling_fits` rules
/// out.
#[verifier::external_body]
fn scale_to_png(bytes: &[u8], width: u32, height: u32) -> (png: Result<Vec<u8>, RenderFault>)
    requires
        decoded_size(bytes@) matches Some(source) && scaling_fits(source, (width, height)),
    ensures
        png matches Ok(encoded) ==> scaled_png(bytes@, width, height) == Some(encoded@),
        png is Err ==> scaled_png(bytes@, width, height) is None,
{
    let picture = match image::load_from_memory(bytes) {
        Ok(picture) => picture,
        Err(e) => return Err(RenderFault::Decode(e.to_string())),
    };
    let scaled = picture.resize(width, height, FilterType::Triangle);
    let mut cursor = Cursor::new(Vec::new());
    match scaled.write_to(&mut cursor, ImageFormat::Png) {
        Ok(()) => Ok(cursor.into_inner()),
        Err(e) => Err(RenderFault::Encode(e.to_string())),
    }
}

/// The size to scale a picture of size `source` to.
pub fn resize_target(source: (u32, u32), width: Option<u32>, height: Option<u32>) -> (target: (
    u32,
    u32,
))
    ensures
        target == target_size(source, width, height),
{
    let w = match width {
        Some(w) => w,
        None => source.0,
    };
    let h = match height {
        Some(h) => h,
        None => source.1,
    };
    (w, h)
}

/// Whether a picture of size `source` can be scaled to fit `target`.
pub fn can_scale(source: (u32, u32), target: (u32, u32)) -> (fits: bool)
    ensures
        fits == scaling_fits(source, target),
{
    if source.0 == 0 || source.1 == 0 {
        return false;
    }
    let floor_w: u32 = if target.0 >= 1 {
        target.0
    } else {
        1
    };
    let w: u32 = if source.0 >= floor_w {
        source.0
    } else {
        floor_w
    };
    let h: u32 = if target.1 >= 1 {
        target.1
    } else {
        1
    };
    assert(w * h <= 0xFFFF_FFFF * 0xFFFF_FFFF) by (nonlinear_arith)
        requires
            w <= 0xFFFF_FFFF,
            h <= 0xFFFF_FFFF,
    ;
    let pixels: u128 = (w as u128) * (h as u128);
    let bytes: u128 = pixels * BYTES_PER_PIXEL;
    assert(bytes == larger(source.0 as int, larger(target.0 as int, 1)) * larger(
        target.1 as int,
        1,
    ) * BYTES_PER_PIXEL);
    bytes <= isize::MAX as u128
}

/// An internal error whose message is `head` followed by `detail`.
pub fn internal_error(head: &str, detail: &str) -> (e: AppError)
    ensures
        e matches AppError::Internal(m) && m@ == head@ + detail@,
{
    let mut message = String::from_str(head);
    message.append(detail);
    AppError::Internal(message)
}

/// The size to scale to, given what is known of the source: its size, or the text of
/// the error that said it is no image. No image, and a size that does not fit, are
/// internal errors.
pub fn plan_rendering(
    source: Result<(u32, u32), String>,
    width: Option<u32>,
    height: Option<u32>,
) -> (r: Result<(u32, u32), AppError>)
    ensures
        r is Ok <==> (source matches Ok(s) && scaling_fits(s, target_size(s, width, height))),
        r matches Ok(target) ==> source matches Ok(s) && target == target_size(s, width, height),
        r matches Err(e) ==> e matches AppError::Internal(m) && m@ == (match source {
            Ok(_) => "Failed to resize image: the size is out of range"@,
            Err(text) => "Failed to load image: "@ + text@,
        }),
{
    match source {
        Ok(size) => {
            let target = resize_target(size, width, height);
            if can_scale(size, target) {
                Ok(target)
            } else {
                let e = internal_error("Failed to resize image: ", "the size is out of range");
                proof {
                    reveal_strlit("Failed to resize image: ");
                    reveal_strlit("the size is out of range");
                    reveal_strlit("Failed to resize image: the size is out of range");
                    assert("Failed to resize image: "@ + "the size is out of range"@
                        =~= "Failed to resize image: the size is out of range"@);
                }
                Err(e)
            }
        },
        Err(text) => Err(internal_error("Failed to load image: ", text.as_str())),
    }
}

/// The result of a rendering, given how the scaling went: the bytes, or an internal
/// error that says whether the decoding or the encoding failed.
pub fn finish_rendering(scaled: Result<Vec<u8>, RenderFault>) -> (r: Result<Vec<u8>, AppError>)
    ensures
        scaled matches Ok(bytes) ==> r == Ok::<Vec<u8>, AppError>(bytes),
        scaled matches Err(fault) ==> r matches Err(AppError::Internal(m)) && m@ == (match fault {
            RenderFault::Decode(text) => "Failed to load image: "@ + text@,
            RenderFault::Encode(text) => "Failed to encode image: "@ + text@,
        }),
{
    match scaled {
        Ok(bytes) => Ok(bytes),
        Err(RenderFault::Decode(text)) => Err(
            internal_error("Failed to load image: ", text.as_str()),
        ),
        Err(RenderFault::Encode(text)) => Err(
            internal_error("Failed to encode image: ", text.as_str()),
        ),
    }
}

/// Renders `original` at the size asked for, as PNG. Bytes that are no image, or whose
/// picture cannot be scaled to that size or encoded, give an internal error.
pub fn render_resized(original: &[u8], width: Option<u32>, height: Option<u32>) -> (r: Result<
    Vec<u8>,
    AppError,
>)
    ensures
        r is Ok <==> rendering(original@, width, height) is Some,
        r matches Ok(bytes) ==> rendering(original@, width, height) == Some(bytes@),
        r matches Err(e) ==> e matches AppError::Internal(m) && tells_render_failure(m@),
{
    let target = match plan_rendering(picture_size(original), width, height) {
        Ok(target) => target,
        Err(e) => {
            return Err(e);
        },
    };
    finish_rendering(scale_to_png(original, target.0, target.1))
}

/// Bytes that are no image have no rendering, at whatever size.
pub proof fn lemma_no_image_no_rendering(bytes: Seq<u8>, width: Option<u32>, height: Option<u32>)
    requires
        decoded_size(bytes) is None,
    ensures
        rendering(bytes, width, height) is None,
{
}

/// Where no size is asked for along an axis, the target has the size of the source
/// along it; where one is asked for, the target has that size, whatever the source.
pub proof fn lemma_axes_are_independent(
    source: (u32, u32),
    other: (u32, u32),
    width: u32,
    height: u32,
)
    ensures
        target_size(source, Some(width), None) == (width, source.1),
        target_size(source, None, Some(height)) == (source.0, height),
        target_size(source, None, None) == source,
        target_size(source, Some(width), Some(height)) == target_size(
            other,
            Some(width),
            Some(height),
        ),
{
}

} // verus!
