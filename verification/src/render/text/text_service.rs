//! Errors of text shaping.

use vstd::prelude::*;

verus! {

/// Declares `ttf_parser::FaceParsingError` (a font file that could not be parsed).
#[verifier::external_type_specification]
#[verifier::external_body]
pub struct ExFaceParsingError(rustybuzz::ttf_parser::FaceParsingError);

/// Error from a font service.
#[derive(Debug, Clone, Copy)]
pub enum FontServiceError {
    /// Error parsing font face file.
    FaceParsingError(rustybuzz::ttf_parser::FaceParsingError),
    /// Font file not found.
    FontNotFound,
    /// Font service is not initialized.
    NotInitialized,
}

impl From<rustybuzz::ttf_parser::FaceParsingError> for FontServiceError {
    fn from(value: rustybuzz::ttf_parser::FaceParsingError) -> (r: Self) {
        FontServiceError::FaceParsingError(value)
    }
}

impl vstd::std_specs::convert::FromSpecImpl<rustybuzz::ttf_parser::FaceParsingError> for FontServiceError {
    open spec fn obeys_from_spec() -> bool {
        true
    }

    open spec fn from_spec(v: rustybuzz::ttf_parser::FaceParsingError) -> FontServiceError {
        FontServiceError::FaceParsingError(v)
    }
}

} // verus!
