//! The thumbnail transform: source image bytes in, fixed-size thumbnail
//! bytes out.
//!
//! The pixel-level decode, resize and encode work is done by the image-codec
//! library behind `thumbnail_png`; it is a pure function of the source bytes
//! and the target size, so its result is given the name `spec_thumbnail` and
//! every contract of this crate speaks of the transform through that name.

use vstd::prelude::*;

verus! {

/// Why a source object yielded no thumbnail. Record-scoped and non-fatal:
/// the record is abandoned, the batch goes on.
#[derive(Debug)]
pub enum TransformError {
    /// The source bytes could not be decoded as an image.
    Undecodable(String),
    /// Decoding succeeded but no thumbnail came back.
    NoThumbnail,
    /// The derived raster could not be encoded.
    EncodeFailed,
}

/// What the codec library derives from the given source bytes at the given
/// target size: the encoded thumbnail bytes, or nothing when any stage of
/// the derivation fails. A function of its arguments alone.
pub uninterp spec fn spec_thumbnail(image: Seq<u8>, size: u32) -> Option<Seq<u8>>;

/// Relies on thumbnailer::create_thumbnails and thumbnailer::Thumbnail::write_png:
/// decode the source bytes as a PNG image, derive one size-by-size thumbnail,
/// and encode it as PNG. Both depend on the source bytes and the target size
/// alone, so the composite result is named `spec_thumbnail`.
#[verifier::external_body]
fn thumbnail_png(image: &Vec<u8>, size: u32) -> (r: Result<Vec<u8>, TransformError>)
    requires
        1 <= size,
    ensures
        r is Ok <==> spec_thumbnail(image@, size) is Some,
        r matches Ok(v) ==> v@ == spec_thumbnail(image@, size)->0,
{
    let reader = std::io::Cursor::new(image.clone());
    let sizes = [thumbnailer::ThumbnailSize::Custom((size, size))];
    let mut thumbnails = match thumbnailer::create_thumbnails(reader, mime::IMAGE_PNG, sizes) {
        Ok(t) => t,
        Err(e) => return Err(TransformError::Undecodable(e.to_string())),
    };
    let thumbnail = match thumbnails.pop() {
        Some(t) => t,
        None => return Err(TransformError::NoThumbnail),
    };
    let mut buffer = std::io::Cursor::new(Vec::new());
    match thumbnail.write_png(&mut buffer) {
        Ok(_) => Ok(buffer.into_inner()),
        Err(_) => Err(TransformError::EncodeFailed),
    }
}

/// Derive the thumbnail for one source object: exactly the named transform,
/// succeeding on exactly the sources the codec can handle.
pub fn get_thumbnail(image: Vec<u8>, size: u32) -> (r: Result<Vec<u8>, TransformError>)
    requires
        1 <= size,
    ensures
        r is Ok <==> spec_thumbnail(image@, size) is Some,
        r matches Ok(v) ==> v@ == spec_thumbnail(image@, size)->0,
{
    thumbnail_png(&image, size)
}

} // verus!
