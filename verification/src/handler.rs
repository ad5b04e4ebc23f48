//! The decision core of one upload request, split around the single network
//! call that the surrounding program performs. `start_upload` turns the
//! uploaded field into the outbound request (or rejects it before any
//! network traffic); `finish_upload` turns the upstream answer and the
//! request's own measured elapsed time into the final caption result.

use vstd::prelude::*;
use crate::errors::{CaptionError, ErrorModel};
use crate::normalize::{
    normalize_image,
    spec_base64_of,
    spec_image_decodable,
    spec_jpeg_of,
    spec_normalizable,
};
use crate::request::{request_body, request_url, spec_request_body, spec_request_url};
use crate::response::{caption_from_response, spec_interpret_response};
use vstd::string::StringExecFns;

verus! {

/// The one HTTP request sent upstream: where to POST and the JSON body.
pub struct OutboundRequest {
    pub url: String,
    pub body: String,
}

/// What a successful upload returns to the service's client.
pub struct CaptionResult {
    pub caption: String,
    pub model: String,
    pub processing_time_ms: u128,
}

/// The mathematical shape of a `CaptionResult`.
pub struct CaptionModel {
    pub caption: Seq<char>,
    pub model: Seq<char>,
    pub processing_time_ms: u128,
}

impl View for CaptionResult {
    type V = CaptionModel;

    open spec fn view(&self) -> CaptionModel {
        CaptionModel {
            caption: self.caption@,
            model: self.model@,
            processing_time_ms: self.processing_time_ms,
        }
    }
}

/// The fixed label reported as `model`; the upstream API does not report one.
pub open spec fn spec_model_label() -> Seq<char> {
    "Google Gemini 1.5 Flash"@
}

/// The uploaded field as a byte sequence, when one was present.
pub open spec fn spec_field_bytes(field: Option<Vec<u8>>) -> Option<Seq<u8>> {
    match field {
        Some(data) => Some(data@),
        None => None,
    }
}

/// Why an upload is turned away before any network call: a missing field
/// and undecodable bytes are rejected outright.
pub open spec fn spec_upload_rejection(field: Option<Seq<u8>>) -> Option<ErrorModel> {
    match field {
        None => Some(ErrorModel::MissingFile),
        Some(data) => if !spec_image_decodable(data) {
            Some(ErrorModel::InvalidImage)
        } else {
            None
        },
    }
}

/// What finishing an upload yields, as a function of the upstream status and
/// body and of this request's own elapsed time.
pub open spec fn spec_finish_upload(status: u16, body: Seq<char>, elapsed_ms: u128) -> Result<
    CaptionModel,
    ErrorModel,
> {
    match spec_interpret_response(status, body) {
        Ok(text) => Ok(
            CaptionModel {
                caption: text,
                model: spec_model_label(),
                processing_time_ms: elapsed_ms,
            },
        ),
        Err(e) => Err(e),
    }
}

/// Maps a finished upload to its mathematical shape.
pub open spec fn spec_upload_outcome(r: Result<CaptionResult, CaptionError>) -> Result<
    CaptionModel,
    ErrorModel,
> {
    match r {
        Ok(c) => Ok(c@),
        Err(e) => Err(e@),
    }
}

/// First half of one upload request, everything before the network call: a
/// missing file field is rejected, the bytes are normalized to base64 JPEG,
/// and the outbound URL and JSON body are built. An `Err` means nothing is
/// sent upstream.
pub fn start_upload(field: Option<Vec<u8>>, api_key: &str) -> (r: Result<
    OutboundRequest,
    CaptionError,
>)
    ensures
        spec_upload_rejection(spec_field_bytes(field)) matches Some(e) ==> (r matches Err(err) && err@ == e),
        r is Ok <==> (field matches Some(data) && spec_image_decodable(data@) && spec_normalizable(data@)),
        (r matches Err(err) && err == CaptionError::MissingFile) <==> field is None,
        (r matches Err(err) && err == CaptionError::InvalidImage) <==> (field matches Some(data) && !spec_image_decodable(data@)),
        (r matches Err(err) && err == CaptionError::EncodingFailure) <==> (field matches Some(data) && spec_image_decodable(data@) && !spec_normalizable(data@)),
        r matches Err(err) ==> (err == CaptionError::MissingFile || err == CaptionError::InvalidImage || err == CaptionError::EncodingFailure),
        r matches Ok(req) ==> (field matches Some(data) && spec_image_decodable(data@) && req.url@ == spec_request_url(api_key@) && req.body@ == spec_request_body(spec_base64_of(spec_jpeg_of(data@)))),
{
    let data = match field {
        Some(data) => data,
        None => return Err(CaptionError::MissingFile),
    };
    let image_base64 = match normalize_image(&data) {
        Ok(b64) => b64,
        Err(e) => return Err(e),
    };
    Ok(
        OutboundRequest {
            url: request_url(api_key),
            body: request_body(image_base64.as_str()),
        },
    )
}

/// Second half of one upload request, everything after the network call:
/// interprets the upstream status and body, and stamps the result with the
/// fixed model label and with this request's own measured elapsed time. A
/// successful result always carries a non-empty caption.
pub fn finish_upload(status: u16, body: &str, elapsed_ms: u128) -> (r: Result<
    CaptionResult,
    CaptionError,
>)
    ensures
        spec_upload_outcome(r) == spec_finish_upload(status, body@, elapsed_ms),
        r matches Ok(c) ==> c.caption@.len() > 0,
{
    match caption_from_response(status, body) {
        Ok(caption) => Ok(
            CaptionResult {
                caption,
                model: String::from_str("Google Gemini 1.5 Flash"),
                processing_time_ms: elapsed_ms,
            },
        ),
        Err(e) => Err(e),
    }
}

} // verus!
