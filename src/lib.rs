//! Translation of HTTP responses from a management API into typed results.
//!
//! A response is judged by its status code first: a success status asks for
//! the body to be decoded, any other status for the body as raw text, which
//! is then classified into a small set of client errors.
pub mod error;
pub mod response;
pub mod status;

pub use error::{ApiError, ClientError};
pub use response::{
    empty_body_read, handle_empty_response, handle_response, typed_body_read, Body, BodyRead,
};
pub use status::Status;
