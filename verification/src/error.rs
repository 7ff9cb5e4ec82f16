//! The typed failures of response-body decoding, and their mathematical
//! model.

use vstd::prelude::*;

verus! {

/// A failure of response-body decoding.
#[derive(Debug)]
pub enum RunnerError {
    /// The `Content-Encoding` header held a value outside the recognized
    /// set; carries the raw header value.
    UnsupportedContentEncoding(String),
    /// A recognized encoding's decoder rejected the body; carries the name
    /// of the codec that failed: `"brotli"`, `"gzip"` or `"zlib"`.
    CouldNotUncompressResponse(String),
}

/// The model of a `RunnerError`: the same two variants over character
/// sequences.
pub enum ErrorModel {
    UnsupportedContentEncoding(Seq<char>),
    CouldNotUncompressResponse(Seq<char>),
}

impl View for RunnerError {
    type V = ErrorModel;

    open spec fn view(&self) -> ErrorModel {
        match self {
            RunnerError::UnsupportedContentEncoding(s) => ErrorModel::UnsupportedContentEncoding(
                s@,
            ),
            RunnerError::CouldNotUncompressResponse(s) => ErrorModel::CouldNotUncompressResponse(
                s@,
            ),
        }
    }
}

impl PartialEq for RunnerError {
    fn eq(&self, other: &RunnerError) -> bool {
        match (self, other) {
            (
                RunnerError::UnsupportedContentEncoding(a),
                RunnerError::UnsupportedContentEncoding(b),
            ) => *a == *b,
            (
                RunnerError::CouldNotUncompressResponse(a),
                RunnerError::CouldNotUncompressResponse(b),
            ) => *a == *b,
            _ => false,
        }
    }
}

impl vstd::std_specs::cmp::PartialEqSpecImpl for RunnerError {
    open spec fn obeys_eq_spec() -> bool {
        true
    }

    open spec fn eq_spec(&self, other: &RunnerError) -> bool {
        self@ == other@
    }
}

} // verus!
