//! The errors an endpoint answers with.
use vstd::prelude::*;

verus! {

/// An API error, as the HTTP layer renders it.
#[derive(Debug)]
pub enum ApiError {
    /// 401: no authenticated user.
    Unauthorized,
    /// 403: the user may not do this.
    Forbidden,
    /// 404: nothing there, or nothing the user may see.
    NotFound,
    /// 422: the request failed validation; the message says why.
    Unprocessable(String),
}

/// Whether `r` is a validation failure carrying exactly `msg`.
pub open spec fn is_unprocessable<T>(r: Result<T, ApiError>, msg: Seq<char>) -> bool {
    match r {
        Err(ApiError::Unprocessable(m)) => m@ == msg,
        _ => false,
    }
}

/// A validation failure from a fixed message.
pub fn unprocessable(msg: &str) -> (e: ApiError)
    ensures
        e matches ApiError::Unprocessable(m) && m@ == msg@,
{
    ApiError::Unprocessable(crate::text::owned(msg))
}

} // verus!
