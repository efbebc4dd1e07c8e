//! Decoding a response envelope: every endpoint answers either with its success
//! payload or with `{"error": message}`, and no tag says which.
use vstd::prelude::*;

use crate::error::ApiError;

verus! {

/// What came back for one request, as handed over by whoever sent it.
#[derive(Debug)]
pub enum ResponseEvent<T> {
    /// The exchange failed before a body arrived.
    Failed(reqwest::Error),
    /// A body arrived. `as_success` is its decoding in the success shape, if it
    /// has that shape; `as_error` is the message of the error shape, if it has
    /// that one.
    Received { as_success: Option<T>, as_error: Option<String> },
}

/// The two-step structural decision: the success shape wins; failing that, the
/// error shape gives a domain error; a body of neither shape is malformed.
pub fn decode_envelope<T>(as_success: Option<T>, as_error: Option<String>) -> (r: Result<T, ApiError>)
    ensures
        as_success is Some ==> r == Ok::<T, ApiError>(as_success->Some_0),
        as_success is None && as_error is Some ==> r == Err::<T, ApiError>(
            ApiError::KodikError(as_error->Some_0),
        ),
        as_success is None && as_error is None ==> r == Err::<T, ApiError>(
            ApiError::MalformedResponse,
        ),
{
    match as_success {
        Some(payload) => Ok(payload),
        None => match as_error {
            Some(message) => Err(ApiError::KodikError(message)),
            None => Err(ApiError::MalformedResponse),
        },
    }
}

/// The outcome of one request.
pub open spec fn spec_outcome<T>(event: ResponseEvent<T>) -> Result<T, ApiError> {
    match event {
        ResponseEvent::Failed(e) => Err(ApiError::HttpError(e)),
        ResponseEvent::Received { as_success, as_error } => match as_success {
            Some(payload) => Ok(payload),
            None => match as_error {
                Some(message) => Err(ApiError::KodikError(message)),
                None => Err(ApiError::MalformedResponse),
            },
        },
    }
}

/// The outcome of one request: a transport failure as it came, a body as the
/// envelope decides.
pub fn response_outcome<T>(event: ResponseEvent<T>) -> (r: Result<T, ApiError>)
    ensures
        r == spec_outcome(event),
{
    match event {
        ResponseEvent::Failed(e) => Err(ApiError::HttpError(e)),
        ResponseEvent::Received { as_success, as_error } => decode_envelope(as_success, as_error),
    }
}

} // verus!
