use vstd::prelude::*;
use crate::error::{ApiError, ClientError};
use crate::status::{Status, NOT_FOUND, UNAUTHORIZED};

verus! {

/// Which read of the body a response needs before it can be translated.
/// The body of a response can be read once only.
#[derive(Clone, Copy, Debug, PartialEq, Eq, Structural)]
pub enum BodyRead {
    /// Decode the body as JSON into the target type.
    Decode,
    /// Read the body as raw text.
    Text,
    /// Leave the body unread.
    Skip,
}

/// The body of a response, as far as it has been read.
#[derive(Debug)]
pub enum Body<T> {
    /// The body was not read.
    Unread,
    /// The body was decoded as JSON: the value, or the error that decoding gave.
    Decoded(Result<T, reqwest::Error>),
    /// The body was read as text: the text, or the error that reading gave.
    Text(Result<String, reqwest::Error>),
}

impl<T> Body<T> {
    /// Whether this body is the outcome of the given read.
    pub open spec fn answers(self, read: BodyRead) -> bool {
        match read {
            BodyRead::Decode => self is Decoded,
            BodyRead::Text => self is Text,
            BodyRead::Skip => self is Unread,
        }
    }
}

/// The read that a response translated into a value needs: a success status
/// has its body decoded, any other status has it read as text.
pub open spec fn typed_read(status: Status) -> BodyRead {
    if status.success() {
        BodyRead::Decode
    } else {
        BodyRead::Text
    }
}

/// The read that a response translated into `()` needs: only a failure status
/// other than 401 has its body read, as text.
pub open spec fn empty_read(status: Status) -> BodyRead {
    if status.success() || status@ == UNAUTHORIZED {
        BodyRead::Skip
    } else {
        BodyRead::Text
    }
}

/// The error that a failure status and the text of its body give, where 404
/// is told apart from the other failures.
pub open spec fn typed_failure(status: Status, text: String) -> ClientError {
    if status@ == UNAUTHORIZED {
        ClientError::Unauthorized
    } else if status@ == NOT_FOUND {
        ClientError::NotFound(text)
    } else {
        ClientError::ApiError(ApiError { code: status, text })
    }
}

/// What translating a response into a value gives, for a body that answers
/// `typed_read(status)`.
pub open spec fn typed_result<T>(status: Status, body: Body<T>) -> Result<T, ClientError>
    recommends
        body.answers(typed_read(status)),
{
    match body {
        Body::Decoded(Ok(value)) => Ok(value),
        Body::Decoded(Err(e)) => Err(ClientError::ParsingError(e)),
        Body::Text(Ok(text)) => Err(typed_failure(status, text)),
        Body::Text(Err(e)) => Err(ClientError::ParsingError(e)),
        Body::Unread => arbitrary(),
    }
}

/// What translating a response into `()` gives, for a body that answers
/// `empty_read(status)`.
pub open spec fn empty_result(status: Status, body: Body<()>) -> Result<(), ClientError>
    recommends
        body.answers(empty_read(status)),
{
    if status.success() {
        Ok(())
    } else if status@ == UNAUTHORIZED {
        Err(ClientError::Unauthorized)
    } else {
        match body {
            Body::Text(Ok(text)) => Err(ClientError::ApiError(ApiError { code: status, text })),
            Body::Text(Err(e)) => Err(ClientError::ParsingError(e)),
            _ => arbitrary(),
        }
    }
}

/// The read of the body that `handle_response` needs for this status.
pub fn typed_body_read(status: &Status) -> (r: BodyRead)
    ensures
        r == typed_read(*status),
{
    if status.is_success() {
        BodyRead::Decode
    } else {
        BodyRead::Text
    }
}

/// The read of the body that `handle_empty_response` needs for this status.
pub fn empty_body_read(status: &Status) -> (r: BodyRead)
    ensures
        r == empty_read(*status),
{
    if status.is_success() || status.as_u16() == UNAUTHORIZED {
        BodyRead::Skip
    } else {
        BodyRead::Text
    }
}

/// Translates a response whose success body is a value of type `T`.
///
/// A success status yields the decoded value, or `ParsingError` where it could
/// not be decoded. Any other status needs the body as text: where it could not
/// be read the result is `ParsingError`; else 401 gives `Unauthorized`, 404
/// gives `NotFound` with the text, and any other status `ApiError` with the
/// status and the text.
pub fn handle_response<T>(status: Status, body: Body<T>) -> (r: Result<T, ClientError>)
    requires
        body.answers(typed_read(status)),
    ensures
        r == typed_result(status, body),
{
    if status.is_success() {
        return match body {
            Body::Decoded(Ok(value)) => Ok(value),
            Body::Decoded(Err(e)) => Err(ClientError::ParsingError(e)),
            _ => unreached(),
        };
    }
    let text = match body {
        Body::Text(Ok(text)) => text,
        Body::Text(Err(e)) => {
            return Err(ClientError::ParsingError(e));
        },
        _ => unreached(),
    };
    let code = status.as_u16();
    if code == UNAUTHORIZED {
        return Err(ClientError::Unauthorized);
    }
    if code == NOT_FOUND {
        return Err(ClientError::NotFound(text));
    }
    Err(ClientError::ApiError(ApiError { code: status, text }))
}

/// Translates a response whose success carries no value.
///
/// A success status yields `Ok(())` and 401 gives `Unauthorized`, both without
/// the body. Any other status needs the body as text: where it could not be
/// read the result is `ParsingError`, else `ApiError` with the status and the
/// text; 404 is not told apart here.
pub fn handle_empty_response(status: Status, body: Body<()>) -> (r: Result<(), ClientError>)
    requires
        body.answers(empty_read(status)),
    ensures
        r == empty_result(status, body),
{
    if status.is_success() {
        return Ok(());
    }
    if status.as_u16() == UNAUTHORIZED {
        return Err(ClientError::Unauthorized);
    }
    match body {
        Body::Text(Ok(text)) => Err(ClientError::ApiError(ApiError { code: status, text })),
        Body::Text(Err(e)) => Err(ClientError::ParsingError(e)),
        _ => unreached(),
    }
}

/// A success status has its body decoded, and a body that decodes gives the
/// decoded value.
pub proof fn lemma_success_decodes<T>(status: Status, value: T)
    requires
        status.success(),
    ensures
        typed_read(status) == BodyRead::Decode,
        typed_result(status, Body::Decoded(Ok(value))) == Ok::<T, ClientError>(value),
{
}

/// A success status whose body does not decode gives `ParsingError` with the
/// decoding error.
pub proof fn lemma_success_undecodable<T>(status: Status, e: reqwest::Error)
    requires
        status.success(),
    ensures
        typed_read(status) == BodyRead::Decode,
        typed_result(status, Body::<T>::Decoded(Err(e))) == Err::<T, ClientError>(
            ClientError::ParsingError(e),
        ),
{
}

/// Status 401 gives `Unauthorized` from both translations, whatever the body
/// holds; the translation into `()` does not even read it.
pub proof fn lemma_unauthorized<T>(status: Status, text: String, body: Body<()>)
    requires
        status@ == UNAUTHORIZED,
        body.answers(empty_read(status)),
    ensures
        typed_result(status, Body::<T>::Text(Ok(text))) == Err::<T, ClientError>(
            ClientError::Unauthorized,
        ),
        empty_read(status) == BodyRead::Skip,
        empty_result(status, body) == Err::<(), ClientError>(ClientError::Unauthorized),
{
}

/// Status 404 gives `NotFound` with the body's text from the translation into
/// a value, but `ApiError` with the status and that text from the translation
/// into `()`.
pub proof fn lemma_not_found<T>(status: Status, text: String)
    requires
        status@ == NOT_FOUND,
    ensures
        typed_read(status) == BodyRead::Text,
        empty_read(status) == BodyRead::Text,
        typed_result(status, Body::<T>::Text(Ok(text))) == Err::<T, ClientError>(
            ClientError::NotFound(text),
        ),
        empty_result(status, Body::Text(Ok(text))) == Err::<(), ClientError>(
            ClientError::ApiError(ApiError { code: status, text }),
        ),
{
}

/// A failure status never gives a value: every response outside 2xx is
/// translated into exactly one error, by either translation.
pub proof fn lemma_failure_is_error<T>(status: Status, typed: Body<T>, empty: Body<()>)
    requires
        !status.success(),
        typed.answers(typed_read(status)),
        empty.answers(empty_read(status)),
    ensures
        typed_result(status, typed) is Err,
        empty_result(status, empty) is Err,
{
}

} // verus!
