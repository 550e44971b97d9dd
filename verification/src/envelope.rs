//! The one shape in which every outcome is answered: a success with its
//! data, or a failure with its text.

use vstd::prelude::*;
use vstd::std_specs::convert::FromSpecImpl;
use crate::error::ApiError;

verus! {

/// The envelope of an answer. The flag repeats which of the two shapes it
/// is.
#[derive(Clone, Debug, PartialEq, Eq)]
pub enum ApiResponse<T> {
    Success { success: bool, data: T },
    Error { success: bool, error: String },
}

impl<T> ApiResponse<T> {
    /// The flag says which shape the envelope has.
    pub open spec fn well_formed(&self) -> bool {
        match self {
            ApiResponse::Success { success, .. } => *success,
            ApiResponse::Error { success, .. } => !*success,
        }
    }

    /// The flag that the envelope carries.
    pub fn is_success(&self) -> (r: bool)
        ensures
            self.well_formed() ==> r == (self is Success),
            r == match self {
                ApiResponse::Success { success, .. } => *success,
                ApiResponse::Error { success, .. } => *success,
            },
    {
        match self {
            ApiResponse::Success { success, .. } => *success,
            ApiResponse::Error { success, .. } => *success,
        }
    }
}

impl<T> From<Result<T, String>> for ApiResponse<T> {
    fn from(result: Result<T, String>) -> (r: Self) {
        match result {
            Ok(data) => ApiResponse::Success { success: true, data },
            Err(error) => ApiResponse::Error { success: false, error },
        }
    }
}

impl<T> FromSpecImpl<Result<T, String>> for ApiResponse<T> {
    open spec fn obeys_from_spec() -> bool {
        true
    }

    open spec fn from_spec(result: Result<T, String>) -> Self {
        match result {
            Ok(data) => ApiResponse::Success { success: true, data },
            Err(error) => ApiResponse::Error { success: false, error },
        }
    }
}

/// The envelope of an outcome: the data of a success as it is, the error
/// of a failure flattened to its text.
pub open spec fn envelope_of<T>(result: Result<T, ApiError>, r: ApiResponse<T>) -> bool {
    match result {
        Ok(data) => r == (ApiResponse::Success { success: true, data }),
        Err(e) => r matches ApiResponse::Error { success, error } && !success && error@
            == e@.message(),
    }
}

/// Wraps the outcome of an operation into its envelope.
pub fn respond<T>(result: Result<T, ApiError>) -> (r: ApiResponse<T>)
    ensures
        envelope_of(result, r),
        r.well_formed(),
{
    match result {
        Ok(data) => ApiResponse::from(Ok(data)),
        Err(e) => ApiResponse::from(Err(e.message())),
    }
}

} // verus!
