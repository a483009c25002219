//! Trusted boundary to the external image codec.
//!
//! A decoded image is opaque to the verified code: the two names below
//! stand for what the logic reads of it — its dimensions and its packed
//! RGB bytes — and each wrapper states what the codec's own source shows
//! about them.  Decoding, resampling and pixel-format conversion stay
//! entirely inside the external crate.

use vstd::prelude::*;
use crate::report::Error;

verus! {

#[verifier::external_type_specification]
#[verifier::external_body]
pub struct ExDynamicImage(image::DynamicImage);

/// The width and height of a decoded image, in pixels.
pub uninterp spec fn image_dims(img: image::DynamicImage) -> (u32, u32);

/// The packed RGB bytes of a decoded image: row-major, three bytes per
/// pixel, alpha dropped.
pub uninterp spec fn image_rgb_bytes(img: image::DynamicImage) -> Seq<u8>;

/// Whether a byte sequence decodes as an image, and what it decodes to —
/// the native dimensions and the packed RGB content: a function of the
/// bytes alone.
pub uninterp spec fn decoded_image_of(bytes: Seq<u8>) -> Option<((u32, u32), Seq<u8>)>;

/// Relies on image::load_from_memory: guesses the container format from
/// the bytes and decodes them, deterministically in the bytes; a failure
/// is a decode failure.  Every decoder builds its pixel container at
/// exactly the image's size, so the decoded image's packed RGB bytes are
/// exactly three per pixel.
#[verifier::external_body]
pub(crate) fn decode_image(bytes: &Vec<u8>) -> (r: Result<image::DynamicImage, Error>)
    ensures
        r is Ok <==> decoded_image_of(bytes@) is Some,
        r matches Ok(img) ==> decoded_image_of(bytes@) == Some(
            (image_dims(img), image_rgb_bytes(img)),
        ),
        r matches Ok(img) ==> image_rgb_bytes(img).len() == image_dims(img).0 * image_dims(img).1
            * 3,
        r matches Err(e) ==> e is Decode,
{
    image::load_from_memory(bytes.as_slice()).map_err(|e| Error::Decode(e.to_string()))
}

/// Relies on GenericImageView::dimensions for DynamicImage: returns the
/// image's width and height.
#[verifier::external_body]
pub(crate) fn image_dimensions(img: &image::DynamicImage) -> (r: (u32, u32))
    ensures
        r == image_dims(*img),
{
    image::GenericImageView::dimensions(img)
}

/// Relies on DynamicImage::resize_exact: the result has exactly the
/// requested dimensions, not preserving aspect ratio, resampled with a
/// high-quality filter into a freshly allocated, exactly sized buffer.
/// The target is kept within the sane range the size argument admits,
/// well clear of the resampler's allocation limits.
#[verifier::external_body]
pub(crate) fn resize_image(img: &image::DynamicImage, w: u32, h: u32) -> (r: image::DynamicImage)
    requires
        w <= crate::dims::MAX_WIDTH,
        h <= crate::dims::MAX_HEIGHT,
    ensures
        image_dims(r) == (w, h),
        image_rgb_bytes(r).len() == w * h * 3,
{
    img.resize_exact(w, h, image::imageops::FilterType::Lanczos3)
}

/// Relies on DynamicImage::to_rgb8 and ImageBuffer::{dimensions, into_raw}:
/// the conversion keeps the image's dimensions and hands out the image's
/// packed RGB bytes.  No length is stated here: a pixel container built
/// from an over-long caller-supplied buffer keeps that buffer, so the
/// exactly-three-bytes-per-pixel law belongs to the decoder's and
/// resampler's outputs.
#[verifier::external_body]
pub(crate) fn rgb_raw_bytes(img: &image::DynamicImage) -> (r: (u32, u32, Vec<u8>))
    ensures
        (r.0, r.1) == image_dims(*img),
        r.2@ == image_rgb_bytes(*img),
{
    let rgb = img.to_rgb8();
    let (w, h) = rgb.dimensions();
    (w, h, rgb.into_raw())
}

/// Relies on RgbImage::from_raw and the DynamicImage::ImageRgb8
/// constructor: the buffer is accepted exactly when the needed length,
/// computed as `(3 * w) * h` with each step checked against the
/// platform's unsigned range, exists and is at most the buffer's length;
/// an exactly-fitting buffer is stored as given.
#[verifier::external_body]
pub(crate) fn rgb_image_of_bytes(w: u32, h: u32, data: Vec<u8>) -> (r: Option<image::DynamicImage>)
    ensures
        r is Some <==> (3 * w <= usize::MAX && 3 * w * h <= usize::MAX && 3 * w * h
            <= data@.len()),
        match r {
            Some(img) => data@.len() == w * h * 3 ==> (image_dims(img) == (w, h)
                && image_rgb_bytes(img) == data@),
            None => true,
        },
{
    image::RgbImage::from_raw(w, h, data).map(image::DynamicImage::ImageRgb8)
}

} // verus!
