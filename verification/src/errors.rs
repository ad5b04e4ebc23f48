//! The closed error taxonomy of the captioning service, and its mapping to
//! the HTTP status reported to the service's own client.

use vstd::prelude::*;

verus! {

/// Everything that can go wrong while serving one upload request.
#[derive(Debug)]
pub enum CaptionError {
    /// The multipart body carried no file field.
    MissingFile,
    /// The uploaded bytes do not decode as a raster image.
    InvalidImage,
    /// Re-encoding the decoded image failed.
    EncodingFailure,
    /// The upstream endpoint answered with a non-success status; the status
    /// and the raw body are kept for diagnostics only.
    Upstream { status: u16, body: String },
    /// The upstream endpoint answered with success, but the body did not
    /// hold a caption at the expected path.
    MalformedResponse,
}

/// The mathematical shape of a `CaptionError`: the upstream body is a
/// character sequence rather than a heap string.
pub enum ErrorModel {
    MissingFile,
    InvalidImage,
    EncodingFailure,
    Upstream(u16, Seq<char>),
    MalformedResponse,
}

impl View for CaptionError {
    type V = ErrorModel;

    open spec fn view(&self) -> ErrorModel {
        match self {
            CaptionError::MissingFile => ErrorModel::MissingFile,
            CaptionError::InvalidImage => ErrorModel::InvalidImage,
            CaptionError::EncodingFailure => ErrorModel::EncodingFailure,
            CaptionError::Upstream { status, body } => ErrorModel::Upstream(*status, body@),
            CaptionError::MalformedResponse => ErrorModel::MalformedResponse,
        }
    }
}

impl ErrorModel {
    /// The HTTP status this service reports for the error: bad request when
    /// the client's upload itself was unusable, internal error otherwise.
    pub open spec fn spec_http_status(self) -> u16 {
        match self {
            ErrorModel::MissingFile => 400,
            ErrorModel::InvalidImage => 400,
            ErrorModel::EncodingFailure => 500,
            ErrorModel::Upstream(..) => 500,
            ErrorModel::MalformedResponse => 500,
        }
    }
}

impl CaptionError {
    /// Maps the error to the HTTP status returned to the service's client.
    pub fn http_status(&self) -> (r: u16)
        ensures
            r == self@.spec_http_status(),
            r == 400 || r == 500,
    {
        match self {
            CaptionError::MissingFile => 400,
            CaptionError::InvalidImage => 400,
            CaptionError::EncodingFailure => 500,
            CaptionError::Upstream { .. } => 500,
            CaptionError::MalformedResponse => 500,
        }
    }
}

} // verus!
