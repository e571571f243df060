//! Errors of the library.

use vstd::prelude::*;

verus! {

/// Error returned by the operations of the library.
#[derive(Debug)]
pub enum GalileoError {
    /// An error described by a message.
    Generic(String),
    /// Image data could not be decoded.
    ImageDecode(image::ImageError),
}

/// `r` is a generic error carrying exactly the message `msg`.
pub open spec fn is_generic_error<T>(r: Result<T, GalileoError>, msg: Seq<char>) -> bool {
    r matches Err(GalileoError::Generic(m)) && m@ == msg
}

} // verus!
