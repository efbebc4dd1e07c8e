//! The errors a request can end in.
use vstd::prelude::*;

verus! {

#[verifier::external_type_specification]
#[verifier::external_body]
pub struct ExHttpError(reqwest::Error);

#[verifier::external_type_specification]
#[verifier::external_body]
pub struct ExUrlencodedError(comma_serde_urlencoded::ser::Error);

/// Why a request produced no result.
#[derive(Debug)]
#[non_exhaustive]
pub enum ApiError {
    /// The HTTP exchange itself failed.
    HttpError(reqwest::Error),
    /// The query could not be turned into a form body.
    UrlencodedSerializeError(comma_serde_urlencoded::ser::Error),
    /// The response body matched neither the success shape nor the error shape.
    MalformedResponse,
    /// The API reported a failure; its message, verbatim.
    KodikError(String),
}

} // verus!
