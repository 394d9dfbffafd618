//! HTTP status codes as the error mapper and the handlers hand them out.

use vstd::prelude::*;

verus! {

pub const OK: u16 = 200;

pub const CREATED: u16 = 201;

pub const BAD_REQUEST: u16 = 400;

pub const NOT_FOUND: u16 = 404;

pub const METHOD_NOT_ALLOWED: u16 = 405;

pub const UNSUPPORTED_MEDIA_TYPE: u16 = 415;

pub const UNPROCESSABLE_ENTITY: u16 = 422;

pub const INTERNAL_SERVER_ERROR: u16 = 500;

/// Whether `code` is a number that HTTP admits as a status code: three digits.
pub open spec fn is_status_code(code: int) -> bool {
    100 <= code <= 999
}

/// Whether `code` blames the client (4xx).
pub open spec fn is_client_error(code: int) -> bool {
    400 <= code <= 499
}

/// Whether `code` blames the server (5xx).
pub open spec fn is_server_error(code: int) -> bool {
    500 <= code <= 599
}

/// A status code that is known to have three digits.
///
/// The number is private and every value of this type that runs holds a
/// valid one, so a response built from it never has to be checked again.
#[derive(Clone, Copy, Debug, PartialEq, Eq)]
pub struct StatusCode {
    code: u16,
}

impl View for StatusCode {
    type V = int;

    closed spec fn view(&self) -> int {
        self.code as int
    }
}

impl StatusCode {
    /// What holds of every status code that runs: its number has three digits.
    #[verifier::type_invariant]
    pub open spec fn is_valid(self) -> bool {
        is_status_code(self@)
    }

    /// The status code with the number `code`, when `code` has three digits.
    pub fn from_u16(code: u16) -> (status: Option<StatusCode>)
        ensures
            is_status_code(code as int) <==> status is Some,
            status matches Some(s) ==> s@ == code,
    {
        if 100 <= code && code <= 999 {
            Some(StatusCode { code })
        } else {
            None
        }
    }

    /// The status code with the number `code`, which the caller knows to be valid.
    pub(crate) fn known(code: u16) -> (status: StatusCode)
        requires
            is_status_code(code as int),
        ensures
            status@ == code,
    {
        StatusCode { code }
    }

    /// The number of this status code.
    pub fn as_u16(&self) -> (code: u16)
        ensures
            code == self@,
            is_status_code(code as int),
    {
        proof {
            use_type_invariant(self);
        }
        self.code
    }

    /// Whether this status code blames the client.
    pub fn is_client_error(&self) -> (b: bool)
        ensures
            b == is_client_error(self@),
    {
        400 <= self.code && self.code <= 499
    }

    /// Whether this status code blames the server.
    pub fn is_server_error(&self) -> (b: bool)
        ensures
            b == is_server_error(self@),
    {
        500 <= self.code && self.code <= 599
    }
}

} // verus!
