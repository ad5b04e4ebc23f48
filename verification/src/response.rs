//! Interprets the upstream response: a non-success status is surfaced as an
//! upstream error carrying the status and raw body; a success body must be
//! JSON holding a non-empty caption at the fixed path, else it is malformed.

use vstd::prelude::*;
use vstd::string::StringExecFns;
use crate::errors::{CaptionError, ErrorModel};
use crate::json::{parse_json, extract_caption, spec_parse_json, spec_caption_path};
use crate::spec_status_is_success;
use crate::status_is_success;

verus! {

/// The caption a response body carries: the body parsed as JSON, then read
/// at `candidates[0].content.parts[0].text`.
pub open spec fn spec_response_caption(body: Seq<char>) -> Option<Seq<char>> {
    match spec_parse_json(body) {
        Some(root) => spec_caption_path(root),
        None => None,
    }
}

/// What interpreting an upstream response yields, as a function of the
/// status and body alone.
pub open spec fn spec_interpret_response(status: u16, body: Seq<char>) -> Result<
    Seq<char>,
    ErrorModel,
> {
    if !spec_status_is_success(status) {
        Err(ErrorModel::Upstream(status, body))
    } else {
        match spec_response_caption(body) {
            Some(text) => if text.len() > 0 {
                Ok(text)
            } else {
                Err(ErrorModel::MalformedResponse)
            },
            None => Err(ErrorModel::MalformedResponse),
        }
    }
}

/// Maps an interpretation result to its mathematical shape.
pub open spec fn spec_caption_outcome(r: Result<String, CaptionError>) -> Result<
    Seq<char>,
    ErrorModel,
> {
    match r {
        Ok(c) => Ok(c@),
        Err(e) => Err(e@),
    }
}

/// Interprets one upstream response. A non-success status becomes
/// `Upstream` with the status and raw body kept for diagnostics; a success
/// body yields its caption, or `MalformedResponse` when the body is not
/// JSON or the caption path is absent, not a string, or empty (a caption is
/// non-empty text whenever the call succeeds).
pub fn caption_from_response(status: u16, body: &str) -> (r: Result<String, CaptionError>)
    ensures
        spec_caption_outcome(r) == spec_interpret_response(status, body@),
        r matches Ok(c) ==> c@.len() > 0,
{
    if !status_is_success(status) {
        return Err(CaptionError::Upstream { status, body: String::from_str(body) });
    }
    let root = match parse_json(body) {
        Some(root) => root,
        None => return Err(CaptionError::MalformedResponse),
    };
    match extract_caption(&root) {
        Some(caption) => if caption.as_str().is_empty() {
            Err(CaptionError::MalformedResponse)
        } else {
            Ok(caption)
        },
        None => Err(CaptionError::MalformedResponse),
    }
}

} // verus!
