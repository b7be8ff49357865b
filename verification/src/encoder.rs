//! The pixel encoder adapter: validates a raw RGB buffer against its
//! dimensions and turns it into the bytes of a PNG file.
//!
//! The caller persists the returned bytes with a single write; a file that
//! already exists at the target path is replaced.

use crate::error::SamplerError;
use vstd::prelude::*;

verus! {

/// The number of bytes of an RGB image of the given dimensions.
pub open spec fn rgb_len(width: u32, height: u32) -> nat {
    (width as nat) * (height as nat) * 3
}

/// The PNG file that the `image` crate encodes from an 8-bit RGB buffer of
/// the given dimensions, or `None` where its encoder refuses them.
pub uninterp spec fn png_encoding(pixels: Seq<u8>, width: u32, height: u32) -> Option<Seq<u8>>;

/// `image::ImageError`, the `image` crate's error, carried as an opaque
/// value.
#[verifier::external_type_specification]
#[verifier::external_body]
pub struct ExImageError(image::ImageError);

/// Calls `image::write_buffer_with_format` with the colour type `Rgb8` and
/// the format `Png` on an in-memory writer.
///
/// Trusted: the encoder's output depends on the buffer and the dimensions
/// alone, so it is given the name [`png_encoding`]; nothing more is claimed
/// of it. The encoder panics on a buffer whose length differs from
/// `width * height * 3`, which the precondition excludes.
#[verifier::external_body]
fn encode_png(pixels: &[u8], width: u32, height: u32) -> (encoded: Result<
    Vec<u8>,
    image::ImageError,
>)
    requires
        pixels@.len() == rgb_len(width, height),
    ensures
        match encoded {
            Ok(bytes) => png_encoding(pixels@, width, height) == Some(bytes@),
            Err(_) => png_encoding(pixels@, width, height).is_none(),
        },
{
    let mut bytes = Vec::new();
    let written = image::write_buffer_with_format(
        &mut std::io::Cursor::new(&mut bytes),
        pixels,
        width,
        height,
        image::ExtendedColorType::Rgb8,
        image::ImageFormat::Png,
    );
    match written {
        Ok(()) => Ok(bytes),
        Err(error) => Err(error),
    }
}

/// What [`save_rgb_to_image`] returns for a buffer of `pixels`.
pub open spec fn saved_image(pixels: Seq<u8>, width: u32, height: u32) -> Result<
    Seq<u8>,
    SamplerError,
> {
    if pixels.len() != rgb_len(width, height) {
        Err(
            SamplerError::BufferSizeMismatch {
                expected: rgb_len(width, height) as u128,
                actual: pixels.len() as usize,
            },
        )
    } else {
        match png_encoding(pixels, width, height) {
            Some(bytes) => Ok(bytes),
            None => Err(SamplerError::EncodeOrIoError),
        }
    }
}

/// The number of bytes that an RGB image of the given dimensions takes.
pub fn expected_buffer_len(width: u32, height: u32) -> (len: u128)
    ensures
        len == rgb_len(width, height),
{
    assert((width as nat) * (height as nat) <= 0xFFFF_FFFF * 0xFFFF_FFFF) by (nonlinear_arith)
        requires
            width <= 0xFFFF_FFFF,
            height <= 0xFFFF_FFFF,
    ;
    (width as u128) * (height as u128) * 3
}

/// Encodes a raw RGB buffer (three bytes per pixel, rows top to bottom) as
/// the PNG file to store for it.
///
/// A buffer whose length is not exactly `width * height * 3` is rejected
/// with `BufferSizeMismatch`, whether it is too short or too long; a buffer
/// that the encoder refuses gives `EncodeOrIoError`.
pub fn save_rgb_to_image(raw_pixels: &[u8], width: u32, height: u32) -> (saved: Result<
    Vec<u8>,
    SamplerError,
>)
    ensures
        match saved {
            Ok(bytes) => saved_image(raw_pixels@, width, height) == Ok::<Seq<u8>, SamplerError>(
                bytes@,
            ),
            Err(e) => saved_image(raw_pixels@, width, height) == Err::<Seq<u8>, SamplerError>(e),
        },
{
    let expected = expected_buffer_len(width, height);
    let actual = raw_pixels.len();
    if actual as u128 != expected {
        return Err(SamplerError::BufferSizeMismatch { expected, actual });
    }
    match encode_png(raw_pixels, width, height) {
        Ok(bytes) => Ok(bytes),
        Err(_) => Err(SamplerError::EncodeOrIoError),
    }
}

} // verus!
