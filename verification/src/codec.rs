//! The raster file format. Reading and writing PNG is left to the `image`
//! crate; this module is where the library meets it.

use vstd::prelude::*;

verus! {

/// `image::ImageError`, as the codec of the `image` crate reports it. The
/// library looks at nothing inside: it only tells a failure from a success.
#[verifier::external_type_specification]
#[verifier::external_body]
pub struct ExImageError(image::ImageError);

/// What the `image` crate makes of the bytes of a PNG file, as RGBA: the
/// width, the height and the pixel bytes, or `None` where it rejects the file.
pub uninterp spec fn png_decoding(file: Seq<u8>) -> Option<(u32, u32, Seq<u8>)>;

/// The bytes of the PNG file that the `image` crate writes for an RGBA raster
/// of the given size, or `None` where it refuses to write one.
pub uninterp spec fn png_encoding(width: u32, height: u32, rgba: Seq<u8>) -> Option<Seq<u8>>;

/// Calls `image::load_from_memory_with_format` with the PNG format, then
/// `DynamicImage::to_rgba8` on what it returns. Not proved: that the outcome
/// is a function of the file's bytes alone, which is what naming it
/// [`png_decoding`] claims, and nothing more. In particular the length of the
/// pixel buffer is not taken on trust: callers check it.
#[verifier::external_body]
pub(crate) fn decode_png(file: &[u8]) -> (r: Result<(u32, u32, Vec<u8>), image::ImageError>)
    ensures
        png_decoding(file@) == (match r {
            Ok(d) => Some((d.0, d.1, d.2@)),
            Err(_) => None,
        }),
{
    let decoded = image::load_from_memory_with_format(file, image::ImageFormat::Png)?;
    let rgba = decoded.to_rgba8();
    Ok((rgba.width(), rgba.height(), rgba.into_raw()))
}

/// Calls `PngEncoder::write_image` of the `image` crate on an in-memory
/// buffer, with the colour type RGBA8. That method panics unless the buffer
/// holds `width * height * 4` bytes, which `requires` therefore demands. Not
/// proved: that the outcome is a function of the size and the pixel bytes
/// alone, which is what naming it [`png_encoding`] claims.
#[verifier::external_body]
pub(crate) fn encode_png(width: u32, height: u32, rgba: &[u8]) -> (r: Result<
    Vec<u8>,
    image::ImageError,
>)
    requires
        rgba@.len() == width * height * 4,
    ensures
        png_encoding(width, height, rgba@) == (match r {
            Ok(file) => Some(file@),
            Err(_) => None,
        }),
{
    let mut file: Vec<u8> = Vec::new();
    let encoder = image::codecs::png::PngEncoder::new(&mut file);
    image::ImageEncoder::write_image(encoder, rgba, width, height, image::ColorType::Rgba8)?;
    Ok(file)
}

} // verus!
