//! The last step: the finished canvas as the bytes of a PNG file.

use crate::raster::{PixelBuffer, Raster};
use vstd::prelude::*;

verus! {

#[verifier::external_type_specification]
#[verifier::external_body]
pub struct ExImageError(image::ImageError);

/// The bytes that `image::ImageBuffer::write_to` writes for an image of four
/// 8-bit channels in the PNG format, or `None` where it reports an error.
pub uninterp spec fn png_encoding(image: Raster) -> Option<Seq<u8>>;

/// `image::ImageBuffer::write_to` into memory, in the PNG format.
///
/// Trusted: the bytes depend on the image alone, and an image without pixels
/// is refused.
#[verifier::external_body]
fn write_png(canvas: &PixelBuffer) -> (written: Result<Vec<u8>, image::ImageError>)
    ensures
        match written {
            Ok(bytes) => png_encoding(canvas@) == Some(bytes@),
            Err(_) => png_encoding(canvas@) is None,
        },
        canvas@.width == 0 || canvas@.height == 0 ==> written is Err,
{
    let samples = canvas.data.as_slice();
    let pixels = image::ImageBuffer::<image::Rgba<u8>, &[u8]>::from_raw(
        canvas.width,
        canvas.height,
        samples,
    );
    let mut bytes = Vec::new();
    let mut cursor = std::io::Cursor::new(&mut bytes);
    pixels.unwrap().write_to(&mut cursor, image::ImageFormat::Png)?;
    Ok(bytes)
}

/// The canvas could not be written as a PNG file.
#[derive(Clone, Copy, Debug, PartialEq, Eq, Structural)]
pub struct EncodeError;

/// Serialises the canvas as a PNG file in memory. Whether an image can be
/// written is the encoder's decision; one without pixels never can.
pub fn to_buffer(canvas: &PixelBuffer) -> (encoded: Result<Vec<u8>, EncodeError>)
    ensures
        match encoded {
            Ok(bytes) => png_encoding(canvas@) == Some(bytes@),
            Err(_) => png_encoding(canvas@) is None,
        },
        canvas@.width == 0 || canvas@.height == 0 ==> encoded is Err,
{
    match write_png(canvas) {
        Ok(bytes) => Ok(bytes),
        Err(_) => Err(EncodeError),
    }
}

} // verus!
