//! Builds the one outbound request of the service: the upstream URL, with
//! the credential as its query parameter, and the JSON body that carries the
//! fixed instruction prompt plus the inline base64 image payload.

use vstd::prelude::*;
use vstd::string::StringExecFns;

verus! {

/// The upstream endpoint, up to and including the credential parameter.
pub open spec fn spec_endpoint_prefix() -> Seq<char> {
    "https://generativelanguage.googleapis.com/v1beta/models/gemini-2.5-flash:generateContent?key="@
}

/// The full upstream URL for a given credential.
pub open spec fn spec_request_url(api_key: Seq<char>) -> Seq<char> {
    spec_endpoint_prefix() + api_key
}

/// Everything of the request body that comes before the base64 image text.
pub open spec fn spec_body_prefix() -> Seq<char> {
    "{\"contents\":[{\"parts\":[{\"text\":\"Describe this image in detail. Provide a clear, descriptive caption.\"},{\"inline_data\":{\"mime_type\":\"image/jpeg\",\"data\":\""@
}

/// Everything of the request body that comes after the base64 image text.
pub open spec fn spec_body_suffix() -> Seq<char> {
    "\"}}]}]}"@
}

/// The JSON request body for a given base64 image text: the fixed prompt,
/// then the inline payload tagged `image/jpeg`.
pub open spec fn spec_request_body(image_base64: Seq<char>) -> Seq<char> {
    spec_body_prefix() + image_base64 + spec_body_suffix()
}

/// Builds the upstream URL, the credential passed as its query parameter.
pub fn request_url(api_key: &str) -> (r: String)
    ensures
        r@ == spec_request_url(api_key@),
{
    let mut url = String::from_str(
        "https://generativelanguage.googleapis.com/v1beta/models/gemini-2.5-flash:generateContent?key=",
    );
    url.append(api_key);
    url
}

/// Builds the JSON request body around the base64 image text.
pub fn request_body(image_base64: &str) -> (r: String)
    ensures
        r@ == spec_request_body(image_base64@),
{
    let mut body = String::from_str(
        "{\"contents\":[{\"parts\":[{\"text\":\"Describe this image in detail. Provide a clear, descriptive caption.\"},{\"inline_data\":{\"mime_type\":\"image/jpeg\",\"data\":\"",
    );
    body.append(image_base64);
    body.append("\"}}]}]}");
    body
}

} // verus!
