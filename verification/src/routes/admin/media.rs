//! Image uploads of the editor: what is accepted and where it is stored.
use vstd::prelude::*;

use crate::error::AppError;
use crate::text::{owned, starts_with, starts_with_seq};

verus! {

/// The largest upload, in bytes (10 MiB).
pub const MAX_UPLOAD_BYTES: usize = 10485760;

/// The longest side of a stored image, in pixels.
pub const MAX_IMAGE_DIMENSION: u32 = 1024;

/// Only parts whose content type is an image are read.
pub fn is_image_content_type(content_type: &str) -> (r: bool)
    ensures
        r == starts_with_seq(content_type@, "image/"@),
{
    starts_with(content_type, "image/")
}

/// An upload stops being read once it is larger than the limit.
pub fn upload_too_large(len: usize) -> (r: bool)
    ensures
        r == (len > 10485760),
{
    len > MAX_UPLOAD_BYTES
}

/// An image larger than the limit in either dimension is scaled down to fit
/// (keeping its aspect ratio).
pub fn needs_resize(width: u32, height: u32) -> (r: bool)
    ensures
        r == (width > 1024 || height > 1024),
{
    width > MAX_IMAGE_DIMENSION || height > MAX_IMAGE_DIMENSION
}

/// The file path and the public URL of an upload named by `id`, stored as WebP.
pub fn upload_locations(id: &str) -> (r: (String, String))
    ensures
        r.0@ == "src/static/uploads/"@ + id@ + ".webp"@,
        r.1@ == "/blog/static/uploads/"@ + id@ + ".webp"@,
{
    let mut path = owned("src/static/uploads/");
    path.append(id);
    path.append(".webp");
    let mut url = owned("/blog/static/uploads/");
    url.append(id);
    url.append(".webp");
    (path, url)
}

/// What the `image` crate decodes `bytes` to, as the image's width and
/// height, or the decoding error's text.
pub uninterp spec fn decoded_size(bytes: Seq<u8>) -> Result<(u32, u32), Seq<char>>;

/// The WebP file the `image` crate writes for the image decoded from
/// `bytes`, first scaled to fit a `d`×`d` box (Lanczos3, aspect ratio kept)
/// when `fit` is `Some(d)`; or the error's text.
pub uninterp spec fn webp_of(bytes: Seq<u8>, fit: Option<u32>) -> Result<Seq<u8>, Seq<char>>;

/// image: `load_from_memory`, then the decoded image's width and height.
/// The contract names the decoder's answer.
#[verifier::external_body]
fn image_size(bytes: &[u8]) -> (r: Result<(u32, u32), String>)
    ensures
        match r {
            Ok(d) => decoded_size(bytes@) == Ok::<(u32, u32), Seq<char>>(d),
            Err(m) => decoded_size(bytes@) == Err::<(u32, u32), Seq<char>>(m@),
        },
{
    match image::load_from_memory(bytes) {
        Ok(img) => Ok((img.width(), img.height())),
        Err(e) => Err(e.to_string()),
    }
}

/// image: `load_from_memory`, then `resize(d, d, Lanczos3)` when `fit` is
/// `Some(d)`, then `write_to` a byte buffer as WebP. The contract names the
/// bytes written.
#[verifier::external_body]
fn encode_webp(bytes: &[u8], fit: Option<u32>) -> (r: Result<Vec<u8>, String>)
    ensures
        match r {
            Ok(v) => webp_of(bytes@, fit) == Ok::<Seq<u8>, Seq<char>>(v@),
            Err(m) => webp_of(bytes@, fit) == Err::<Seq<u8>, Seq<char>>(m@),
        },
{
    let img = match image::load_from_memory(bytes) {
        Ok(img) => img,
        Err(e) => return Err(e.to_string()),
    };
    let img = match fit {
        Some(d) => img.resize(d, d, image::imageops::FilterType::Lanczos3),
        None => img,
    };
    let mut out = std::io::Cursor::new(Vec::new());
    match img.write_to(&mut out, image::ImageFormat::WebP) {
        Ok(()) => Ok(out.into_inner()),
        Err(e) => Err(e.to_string()),
    }
}

/// The box an image of `w`×`h` is scaled into: 1024×1024 when it is larger
/// in either dimension, none otherwise.
pub open spec fn upload_fit(w: u32, h: u32) -> Option<u32> {
    if w > 1024 || h > 1024 { Some(1024u32) } else { None }
}

/// Law: an image is scaled into the 1024×1024 box exactly when it is wider
/// or taller than 1024 pixels, whichever of the two dimensions that is; one
/// that fits in both is stored at its own size.
pub proof fn law_upload_fit_two_dimensions(w: u32, h: u32)
    ensures
        upload_fit(w, h) is Some <==> (w > 1024 || h > 1024),
        w <= 1024 < h ==> upload_fit(w, h) == Some(1024u32),
        h <= 1024 < w ==> upload_fit(w, h) == Some(1024u32),
        w <= 1024 && h <= 1024 ==> upload_fit(w, h) is None,
        upload_fit(w, h) matches Some(d) ==> d == 1024,
{
}

/// The stored form of an uploaded image: an invalid image is a bad request
/// naming the decoder's error; otherwise the image, scaled down to fit
/// 1024×1024 when larger, encoded as WebP; an encoding failure is an
/// internal error.
pub fn process_upload(bytes: &[u8]) -> (r: Result<Vec<u8>, AppError>)
    ensures
        match decoded_size(bytes@) {
            Err(m) => r matches Err(AppError::BadRequest(x)) && x@ == "Invalid image: "@ + m,
            Ok((w, h)) => match webp_of(bytes@, upload_fit(w, h)) {
                Ok(v) => r matches Ok(o) && o@ == v,
                Err(m) => r matches Err(AppError::Internal(x)) && x@ == "Failed to save image: "@ + m,
            },
        },
        match (decoded_size(bytes@), webp_of(bytes@, Some(1024u32))) {
            (Ok((w, h)), Ok(v)) => (w > 1024 || h > 1024) ==> (r matches Ok(o) && o@ == v),
            _ => true,
        },
        match (decoded_size(bytes@), webp_of(bytes@, None)) {
            (Ok((w, h)), Ok(v)) => (w <= 1024 && h <= 1024) ==> (r matches Ok(o) && o@ == v),
            _ => true,
        },
{
    let (w, h) = match image_size(bytes) {
        Ok(d) => d,
        Err(m) => {
            let mut msg = owned("Invalid image: ");
            msg.append(m.as_str());
            return Err(AppError::BadRequest(msg));
        },
    };
    let fit = if needs_resize(w, h) { Some(MAX_IMAGE_DIMENSION) } else { None };
    match encode_webp(bytes, fit) {
        Ok(v) => Ok(v),
        Err(m) => {
            let mut msg = owned("Failed to save image: ");
            msg.append(m.as_str());
            Err(AppError::Internal(msg))
        },
    }
}

/// The error of an oversized upload.
pub fn too_large() -> (r: AppError)
    ensures
        r matches AppError::BadRequest(m) && m@ == "File too large"@,
{
    AppError::BadRequest(owned("File too large"))
}

/// The error of a request without an image.
pub fn no_image() -> (r: AppError)
    ensures
        r matches AppError::BadRequest(m) && m@ == "No image provided"@,
{
    AppError::BadRequest(owned("No image provided"))
}

} // verus!
