//! Request-level guarantees of the service, each proved from the spec
//! functions that the handler's contracts are stated over.

use vstd::prelude::*;
use crate::errors::ErrorModel;
use crate::handler::{spec_finish_upload, spec_model_label, spec_upload_rejection};
use crate::normalize::spec_image_decodable;
use crate::response::spec_response_caption;
use crate::spec_status_is_success;

verus! {

/// A decodable upload is never turned away, and a success response holding
/// a non-empty caption completes the upload with exactly that caption, the
/// fixed model label, and this request's own elapsed time; a finished
/// upload never carries an empty caption.
pub proof fn lemma_successful_upload(
    data: Seq<u8>,
    status: u16,
    body: Seq<char>,
    elapsed_ms: u128,
)
    ensures
        spec_image_decodable(data) ==> spec_upload_rejection(Some(data)) is None,
        spec_status_is_success(status) && spec_response_caption(body) is Some
            && spec_response_caption(body)->Some_0.len() > 0
            ==> (spec_finish_upload(status, body, elapsed_ms) matches Ok(c)
            && c.caption == spec_response_caption(body)->Some_0
            && c.model == spec_model_label()
            && c.processing_time_ms == elapsed_ms),
        spec_finish_upload(status, body, elapsed_ms) matches Ok(c) ==> c.caption.len() > 0,
{
}

/// A byte sequence that does not decode as an image is rejected as a bad
/// request, before any outbound request is formed.
pub proof fn lemma_non_image_rejected_before_network(data: Seq<u8>)
    ensures
        !spec_image_decodable(data) ==> (spec_upload_rejection(Some(data)) matches Some(e)
            && e == ErrorModel::InvalidImage
            && e.spec_http_status() == 400),
{
}

/// An upload with no file field is rejected as a bad request.
pub proof fn lemma_missing_file_rejected()
    ensures
        spec_upload_rejection(None::<Seq<u8>>) matches Some(e)
            && e == ErrorModel::MissingFile
            && e.spec_http_status() == 400,
{
}

/// An upstream non-success status finishes as an internal error that
/// carries no caption, only the status and raw body for diagnostics.
pub proof fn lemma_upstream_failure_is_internal_error(
    status: u16,
    body: Seq<char>,
    elapsed_ms: u128,
)
    ensures
        !spec_status_is_success(status) ==> (spec_finish_upload(status, body, elapsed_ms)
            matches Err(e)
            && e == ErrorModel::Upstream(status, body)
            && e.spec_http_status() == 500),
{
}

/// A success response whose body does not hold a non-empty caption at the
/// expected path finishes as an internal error.
pub proof fn lemma_malformed_response_is_internal_error(
    status: u16,
    body: Seq<char>,
    elapsed_ms: u128,
)
    ensures
        spec_status_is_success(status) && (spec_response_caption(body) is None
            || spec_response_caption(body)->Some_0.len() == 0)
            ==> (spec_finish_upload(status, body, elapsed_ms) matches Err(e)
            && e == ErrorModel::MalformedResponse
            && e.spec_http_status() == 500),
{
}

/// Each request's reported processing time is exactly its own elapsed
/// measurement: two uploads finished in sequence each report their own
/// value, whatever the other request did.
pub proof fn lemma_processing_time_per_request(
    status1: u16,
    body1: Seq<char>,
    elapsed1: u128,
    status2: u16,
    body2: Seq<char>,
    elapsed2: u128,
)
    ensures
        spec_finish_upload(status1, body1, elapsed1) matches Ok(c1)
            ==> c1.processing_time_ms == elapsed1,
        spec_finish_upload(status2, body2, elapsed2) matches Ok(c2)
            ==> c2.processing_time_ms == elapsed2,
{
}

} // verus!
