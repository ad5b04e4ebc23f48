//! The image normalizer: decodes an uploaded byte sequence as a raster
//! image, re-encodes it as JPEG at a fixed quality, and renders the JPEG
//! bytes as base64 text fit for an inline JSON payload field. Decoding,
//! re-encoding and base64 rendering are done by outside crates behind
//! trusted wrappers; the pipeline around them is verified.

use vstd::prelude::*;
use crate::errors::CaptionError;

verus! {

/// Whether the image crate decodes these bytes as a still raster image.
pub uninterp spec fn spec_image_decodable(data: Seq<u8>) -> bool;

/// Whether the JPEG encoder, at the fixed quality, accepts the decoded image
/// (it refuses some color types and oversized dimensions).
pub uninterp spec fn spec_jpeg_encodable(data: Seq<u8>) -> bool;

/// The JPEG re-encoding, at the fixed quality, of a decodable image's bytes.
pub uninterp spec fn spec_jpeg_of(data: Seq<u8>) -> Seq<u8>;

/// The base64 text (standard alphabet, padded) of a byte sequence.
pub uninterp spec fn spec_base64_of(data: Seq<u8>) -> Seq<char>;

/// Whether normalization succeeds on decodable bytes: the JPEG encoder
/// accepts the image, and the JPEG is small enough for the length of its
/// base64 text to fit in `usize`.
pub open spec fn spec_normalizable(data: Seq<u8>) -> bool {
    spec_jpeg_encodable(data) && spec_jpeg_of(data).len() / 3 <= (usize::MAX - 4) / 4
}

/// Relies on image::load_from_memory and image::DynamicImage::write_to:
/// whether the bytes decode, whether the JPEG encoder accepts the decoded
/// image, and the JPEG bytes produced for it at the fixed quality, are all
/// functions of the input alone.
#[verifier::external_body]
fn transcode_to_jpeg(data: &Vec<u8>) -> (r: Result<Vec<u8>, CaptionError>)
    ensures
        r is Ok <==> (spec_image_decodable(data@) && spec_jpeg_encodable(data@)),
        r matches Ok(out) ==> out@ == spec_jpeg_of(data@),
        (r matches Err(e) && e == CaptionError::InvalidImage) <==> !spec_image_decodable(data@),
        r matches Err(e) ==> (e == CaptionError::InvalidImage || e == CaptionError::EncodingFailure),
{
    let img = match image::load_from_memory(data.as_slice()) {
        Ok(img) => img,
        Err(_) => return Err(CaptionError::InvalidImage),
    };
    let mut out: Vec<u8> = Vec::new();
    let mut cursor = std::io::Cursor::new(&mut out);
    match img.write_to(&mut cursor, image::ImageOutputFormat::Jpeg(85)) {
        Ok(()) => Ok(out),
        Err(_) => Err(CaptionError::EncodingFailure),
    }
}

/// Relies on base64's STANDARD engine: the padded encoding is a function of
/// the bytes alone, four output characters for every started group of three
/// input bytes. The engine panics when that length overflows `usize`, so
/// such inputs are excluded here.
#[verifier::external_body]
fn base64_encode(data: &Vec<u8>) -> (r: String)
    requires
        4 * ((data@.len() + 2) / 3) <= usize::MAX,
    ensures
        r@ == spec_base64_of(data@),
        r@.len() == 4 * ((data@.len() + 2) / 3),
{
    base64::Engine::encode(&base64::engine::general_purpose::STANDARD, data.as_slice())
}

/// Normalizes an upload: decodes the bytes as a raster image, re-encodes
/// them as JPEG at the fixed quality, and returns that JPEG as base64 text.
/// Bytes that do not decode are rejected as `InvalidImage`; a failing
/// re-encoding step (including a JPEG too large to render as base64)
/// surfaces as `EncodingFailure`.
pub fn normalize_image(data: &Vec<u8>) -> (r: Result<String, CaptionError>)
    ensures
        r is Ok <==> (spec_image_decodable(data@) && spec_normalizable(data@)),
        r matches Ok(b64) ==> b64@ == spec_base64_of(spec_jpeg_of(data@)),
        (r matches Err(e) && e == CaptionError::InvalidImage) <==> !spec_image_decodable(data@),
        (r matches Err(e) && e == CaptionError::EncodingFailure) <==> (spec_image_decodable(data@) && !spec_normalizable(data@)),
        r matches Err(e) ==> (e == CaptionError::InvalidImage || e == CaptionError::EncodingFailure),
{
    let jpeg = match transcode_to_jpeg(data) {
        Ok(j) => j,
        Err(e) => return Err(e),
    };
    if jpeg.len() / 3 <= (usize::MAX - 4) / 4 {
        proof {
            assert(4 * ((jpeg@.len() + 2) / 3) <= usize::MAX) by (nonlinear_arith)
                requires
                    jpeg@.len() / 3 <= (usize::MAX - 4) / 4,
                    jpeg@.len() <= usize::MAX,
            ;
        }
        Ok(base64_encode(&jpeg))
    } else {
        Err(CaptionError::EncodingFailure)
    }
}

} // verus!
