use vstd::prelude::*;

verus! {

/// `http::StatusCode`, held opaquely: its code is read through `http_code`.
#[verifier::external_type_specification]
#[verifier::external_body]
pub struct ExStatusCode(http::StatusCode);

/// Relies on `http::StatusCode::as_u16`: it returns the code held, and every
/// constructor of `http::StatusCode` keeps that code within 100..=999.
#[verifier::external_body]
fn http_code(s: &http::StatusCode) -> (r: u16)
    ensures
        100 <= r <= 999,
{
    s.as_u16()
}

/// The status code 401 (Unauthorized).
pub const UNAUTHORIZED: u16 = 401;

/// The status code 404 (Not Found).
pub const NOT_FOUND: u16 = 404;

/// An HTTP status code: a three-digit number from 100 to 999.
#[derive(Clone, Copy, Debug, PartialEq, Eq, Structural)]
pub struct Status {
    code: u16,
}

impl View for Status {
    type V = u16;

    closed spec fn view(&self) -> u16 {
        self.code
    }
}

impl Status {
    #[verifier::type_invariant]
    spec fn inv(self) -> bool {
        100 <= self.code <= 999
    }

    /// Whether the code is in the success class, 200 to 299.
    pub open spec fn success(self) -> bool {
        200 <= self@ <= 299
    }

    /// The status with the given code, or `None` where the code lies outside
    /// 100..=999.
    pub fn from_u16(code: u16) -> (r: Option<Status>)
        ensures
            r is Some <==> 100 <= code <= 999,
            r matches Some(s) ==> s@ == code,
    {
        if 100 <= code && code <= 999 {
            Some(Status { code })
        } else {
            None
        }
    }

    /// The status that an `http::StatusCode` carries.
    pub fn from_http(s: &http::StatusCode) -> (r: Status)
        ensures
            100 <= r@ <= 999,
    {
        let code = http_code(s);
        Status { code }
    }

    /// The numeric code.
    pub fn as_u16(&self) -> (r: u16)
        ensures
            r == self@,
            100 <= r <= 999,
    {
        proof {
            use_type_invariant(self);
        }
        self.code
    }

    /// Whether the status is in the success class (2xx).
    pub fn is_success(&self) -> (r: bool)
        ensures
            r == self.success(),
    {
        200 <= self.code && self.code <= 299
    }
}

} // verus!
