//! The PNG form of a pixel buffer.

use vstd::prelude::*;
use image::ImageEncoder;
use crate::errors::ErrorKind;

verus! {

/// image's error type, `image::ImageError`. Nothing is claimed of what a
/// value of it holds.
#[verifier::external_type_specification]
#[verifier::external_body]
pub struct ExImageError(image::ImageError);

/// The PNG stream that image's encoder writes for a single-channel 8-bit
/// image of `width` columns and `height` rows with the given pixels in
/// row-major order; `None` where the encoder reports an error.
pub uninterp spec fn png_bytes(pixels: Seq<u8>, width: int, height: int) -> Option<Seq<u8>>;

/// Encodes a pixel buffer with `image::codecs::png::PngEncoder::write_image`
/// as an 8-bit grayscale image.
///
/// Believed, not proved: the stream is a function of the pixels and the
/// size alone. The encoder panics on a buffer that does not hold one byte
/// per pixel, which `requires` leaves out.
#[verifier::external_body]
fn encode_png(pixels: &Vec<u8>, width: u32, height: u32) -> (r: Result<Vec<u8>, image::ImageError>)
    requires
        pixels@.len() == width as int * height as int,
    ensures
        r is Ok <==> png_bytes(pixels@, width as int, height as int) is Some,
        r matches Ok(bytes) ==> Some(bytes@) == png_bytes(pixels@, width as int, height as int),
{
    let mut bytes = Vec::new();
    let encoder = image::codecs::png::PngEncoder::new(&mut bytes);
    encoder.write_image(pixels, width, height, image::ExtendedColorType::L8)?;
    Ok(bytes)
}

/// Turns the outcome of the encoder into the outcome of a request: the
/// stream as it is, and any failure of the encoder as `IoError`.
pub fn encoded(outcome: Result<Vec<u8>, image::ImageError>) -> (r: Result<Vec<u8>, ErrorKind>)
    ensures
        outcome matches Ok(bytes) ==> r == Ok::<Vec<u8>, ErrorKind>(bytes),
        outcome is Err ==> r == Err::<Vec<u8>, ErrorKind>(ErrorKind::IoError),
{
    match outcome {
        Ok(bytes) => Ok(bytes),
        Err(_) => Err(ErrorKind::IoError),
    }
}

/// The PNG image of `size.0` columns and `size.1` rows with the given
/// pixels. The buffer must hold exactly one pixel per position.
pub fn to_png(pixels: &Vec<u8>, size: (u32, u32)) -> (r: Result<Vec<u8>, ErrorKind>)
    requires
        pixels@.len() == size.0 as int * size.1 as int,
    ensures
        r is Ok <==> png_bytes(pixels@, size.0 as int, size.1 as int) is Some,
        r matches Ok(bytes) ==> Some(bytes@) == png_bytes(
            pixels@,
            size.0 as int,
            size.1 as int,
        ),
        r matches Err(e) ==> e == ErrorKind::IoError,
{
    encoded(encode_png(pixels, size.0, size.1))
}

} // verus!
