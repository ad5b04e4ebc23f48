//! A library for a small image-captioning web service: it normalizes an
//! uploaded raster image into base64-encoded JPEG, builds the one request
//! sent to an external captioning endpoint, and interprets that endpoint's
//! response.

pub mod errors;
pub mod handler;
pub mod json;
pub mod laws;
pub mod normalize;
pub mod request;
pub mod response;

use vstd::prelude::*;

verus! {

/// Upstream HTTP statuses in `200..=299` count as success.
pub open spec fn spec_status_is_success(status: u16) -> bool {
    200 <= status <= 299
}

/// Decides whether an upstream HTTP status is a success status.
pub fn status_is_success(status: u16) -> (r: bool)
    ensures
        r == spec_status_is_success(status),
{
    200 <= status && status <= 299
}

} // verus!
