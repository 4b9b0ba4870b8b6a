//! Image decoding: the bytes of an image file become RGBA8 pixels, ready to
//! upload as a texture.

use vstd::prelude::*;

verus! {

/// The image formats the engine decodes.
#[derive(Debug, Clone, Copy, PartialEq, Eq, Hash)]
pub enum ImageKind {
    Png,
    Jpeg,
}

/// The image crate's decoding error, carried through unchanged.
#[verifier::external_type_specification]
#[verifier::external_body]
pub struct ExImageError(image::ImageError);

/// The (width, height, RGBA8 pixels) that the image crate decodes from
/// `bytes` read as `kind`, or `None` where it reports an error. Decoding
/// depends on the bytes and the format alone.
pub uninterp spec fn decoded_rgba8(bytes: Seq<u8>, kind: ImageKind) -> Option<(u32, u32, Seq<u8>)>;

/// Decodes `bytes` as an image of `kind` with the image crate
/// (`image::load_from_memory_with_format`) and converts it to RGBA8
/// (`DynamicImage::to_rgba8`, `ImageBuffer::dimensions`,
/// `ImageBuffer::into_raw`). Claimed: the result is the named decoding of
/// these bytes, and the pixel buffer holds at least `width * height * 4`
/// bytes, the length every `ImageBuffer` constructor checks or allocates.
/// What the error holds is not stated.
#[verifier::external_body]
fn decode_rgba8(bytes: &[u8], kind: ImageKind) -> (decoded: Result<
    (u32, u32, Vec<u8>),
    image::ImageError,
>)
    ensures
        decoded is Ok <==> decoded_rgba8(bytes@, kind) is Some,
        decoded matches Ok((w, h, px)) ==> {
            &&& decoded_rgba8(bytes@, kind) == Some((w, h, px@))
            &&& w * h * 4 <= px@.len()
        },
{
    let format = match kind {
        ImageKind::Png => image::ImageFormat::Png,
        ImageKind::Jpeg => image::ImageFormat::Jpeg,
    };
    let rgba = image::load_from_memory_with_format(bytes, format)?.to_rgba8();
    let (width, height) = rgba.dimensions();
    Ok((width, height, rgba.into_raw()))
}

/// A decoded image: its size in pixels and its RGBA8 pixels, row by row
/// from the top-left corner.
pub struct DecodedImage {
    pub width: u32,
    pub height: u32,
    pub pixels: Vec<u8>,
}

/// Why an image could not be decoded.
pub struct DecodeError {
    /// The decoder's own report.
    pub source: image::ImageError,
}

/// Decodes the bytes of an image file of `kind` into RGBA8 pixels.
pub fn decode_image(bytes: &[u8], kind: ImageKind) -> (decoded: Result<DecodedImage, DecodeError>)
    ensures
        decoded is Ok <==> decoded_rgba8(bytes@, kind) is Some,
        decoded matches Ok(image) ==> {
            &&& decoded_rgba8(bytes@, kind) == Some((image.width, image.height, image.pixels@))
            &&& image.width * image.height * 4 <= image.pixels@.len()
        },
{
    match decode_rgba8(bytes, kind) {
        Ok((width, height, pixels)) => Ok(DecodedImage { width, height, pixels }),
        Err(source) => Err(DecodeError { source }),
    }
}

/// The row pitch in bytes of an RGBA8 texture upload: `width * 4`, when the
/// pixel buffer holds exactly `width * height` pixels and the pitch fits the
/// GPU's 32-bit row field; `None` otherwise.
pub fn rgba8_row_bytes(width: u32, height: u32, len: usize) -> (row: Option<u32>)
    ensures
        row == if width * 4 <= u32::MAX && len == width * height * 4 {
            Some((width * 4) as u32)
        } else {
            None::<u32>
        },
{
    if width > u32::MAX / 4 {
        return None;
    }
    let row: u32 = width * 4;
    assert((row as int) * (height as int) <= u32::MAX * u32::MAX) by (nonlinear_arith)
        requires
            row <= u32::MAX,
            height <= u32::MAX,
    ;
    let expected: u128 = (row as u128) * (height as u128);
    assert(expected == width * height * 4) by (nonlinear_arith)
        requires
            expected == row * height,
            row == width * 4,
    ;
    if (len as u128) == expected {
        Some(row)
    } else {
        None
    }
}

/// The image format the image crate reads a file of this path as, judged by
/// the path's extension, when it is one the engine decodes; `None` for any
/// other path. It depends on the path alone.
pub uninterp spec fn path_kind(path: Seq<char>) -> Option<ImageKind>;

/// The format of the file at `path`, from its extension, as the image crate
/// judges it (`image::ImageFormat::from_path`). Claimed: the result is the
/// named format of this path; PNG and JPEG come back as such, any other
/// format or an unknown extension as the crate's error. What the error holds
/// is not stated.
#[verifier::external_body]
fn image_kind_of_path(path: &str) -> (kind: Result<ImageKind, image::ImageError>)
    ensures
        kind is Ok <==> path_kind(path@) is Some,
        kind matches Ok(k) ==> path_kind(path@) == Some(k),
{
    match image::ImageFormat::from_path(path)? {
        image::ImageFormat::Png => Ok(ImageKind::Png),
        image::ImageFormat::Jpeg => Ok(ImageKind::Jpeg),
        other => Err(image::ImageError::Unsupported(
            image::error::ImageFormatHint::Exact(other).into(),
        )),
    }
}

/// Decodes the `bytes` read from the image file at `path` into RGBA8
/// pixels, in the format the path's extension names. A path that names no
/// format the engine decodes is an error.
pub fn decode_image_file(path: &str, bytes: &[u8]) -> (decoded: Result<DecodedImage, DecodeError>)
    ensures
        match path_kind(path@) {
            Some(kind) => {
                &&& (decoded is Ok <==> decoded_rgba8(bytes@, kind) is Some)
                &&& decoded matches Ok(image) ==> {
                    &&& decoded_rgba8(bytes@, kind) == Some(
                        (image.width, image.height, image.pixels@),
                    )
                    &&& image.width * image.height * 4 <= image.pixels@.len()
                }
            },
            None => decoded is Err,
        },
{
    match image_kind_of_path(path) {
        Ok(kind) => decode_image(bytes, kind),
        Err(source) => Err(DecodeError { source }),
    }
}

} // verus!
