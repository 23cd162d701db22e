use vstd::prelude::*;
use crate::status::Status;

verus! {

/// `reqwest::Error`, held opaquely: the cause that a `ParsingError` carries.
#[verifier::external_type_specification]
#[verifier::external_body]
pub struct ExReqwestError(reqwest::Error);

/// A failure status that no more specific error describes: the status and
/// the body of the response, verbatim.
#[derive(Debug)]
pub struct ApiError {
    pub code: Status,
    pub text: String,
}

/// Every way in which translating a response can fail.
#[derive(Debug)]
pub enum ClientError {
    /// The status was 401; the body is not kept.
    Unauthorized,
    /// The status was 404; the body is kept verbatim.
    NotFound(String),
    /// The body could not be decoded, or not read as text.
    ParsingError(reqwest::Error),
    /// Any other failure status.
    ApiError(ApiError),
}

} // verus!
