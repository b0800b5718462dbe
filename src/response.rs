//! The two response bodies of the HTTP interface.

use vstd::prelude::*;

verus! {

/// A successful response carrying a result.
pub struct GeneralValueResult<T> {
    pub result: T,
    pub status: bool,
}

/// A failed response, with an optional message.
pub struct ErrorResult {
    pub status: bool,
    pub message: Option<String>,
}

impl<T> GeneralValueResult<T> {
    /// A response that reports success with `result`.
    pub fn success(result: T) -> (r: GeneralValueResult<T>)
        ensures
            r.result == result,
            r.status,
    {
        GeneralValueResult { result, status: true }
    }
}

impl ErrorResult {
    /// A response that reports failure.
    pub fn failure(message: Option<String>) -> (r: ErrorResult)
        ensures
            r.message == message,
            !r.status,
    {
        ErrorResult { status: false, message }
    }
}

} // verus!
