//! Errors reported to the application's callers.
use vstd::prelude::*;
use crate::algorithm::InvalidRating;

verus! {

/// An error surfaced to a caller of the application's commands.
#[derive(Debug)]
pub enum ApiError {
    /// The store failed; the text is its message.
    DatabaseError(String),
    /// A rating code outside `1..=4` was submitted.
    InvalidRating(i32),
}

impl From<InvalidRating> for ApiError {
    fn from(e: InvalidRating) -> (r: ApiError)
        ensures
            r == ApiError::InvalidRating(e.code),
    {
        ApiError::InvalidRating(e.code)
    }
}

impl vstd::std_specs::convert::FromSpecImpl<InvalidRating> for ApiError {
    open spec fn obeys_from_spec() -> bool {
        true
    }

    open spec fn from_spec(e: InvalidRating) -> ApiError {
        ApiError::InvalidRating(e.code)
    }
}

} // verus!
