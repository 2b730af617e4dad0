//! HTTP status codes as the gateway uses them.

use vstd::prelude::*;

verus! {

/// An HTTP status code: a number from 100 to 999.
#[derive(Clone, Copy, Debug, PartialEq, Eq, Structural)]
pub struct StatusCode {
    code: u16,
}

impl View for StatusCode {
    type V = int;

    closed spec fn view(&self) -> int {
        self.code as int
    }
}

impl StatusCode {
    #[verifier::type_invariant]
    spec fn in_range(self) -> bool {
        100 <= self.code <= 999
    }

    /// Whether `code` is a number that a status code can hold.
    pub open spec fn valid(code: int) -> bool {
        100 <= code <= 999
    }

    /// The status code with the number `code`, if there is one.
    pub fn from_u16(code: u16) -> (status: Option<StatusCode>)
        ensures
            status is Some <==> Self::valid(code as int),
            status matches Some(s) ==> s@ == code,
    {
        if 100 <= code && code <= 999 {
            Some(StatusCode { code })
        } else {
            None
        }
    }

    /// The number of this status code.
    pub fn as_u16(&self) -> (code: u16)
        ensures
            code == self@,
            Self::valid(code as int),
    {
        proof {
            use_type_invariant(self);
        }
        self.code
    }

    /// 200 OK.
    pub fn ok() -> (status: StatusCode)
        ensures
            status@ == 200,
    {
        StatusCode { code: 200 }
    }

    /// 400 Bad Request.
    pub fn bad_request() -> (status: StatusCode)
        ensures
            status@ == 400,
    {
        StatusCode { code: 400 }
    }

    /// 401 Unauthorized.
    pub fn unauthorized() -> (status: StatusCode)
        ensures
            status@ == 401,
    {
        StatusCode { code: 401 }
    }

    /// 404 Not Found.
    pub fn not_found() -> (status: StatusCode)
        ensures
            status@ == 404,
    {
        StatusCode { code: 404 }
    }

    /// 422 Unprocessable Entity.
    pub fn unprocessable_entity() -> (status: StatusCode)
        ensures
            status@ == 422,
    {
        StatusCode { code: 422 }
    }

    /// 423 Locked.
    pub fn locked() -> (status: StatusCode)
        ensures
            status@ == 423,
    {
        StatusCode { code: 423 }
    }

    /// 500 Internal Server Error.
    pub fn internal_server_error() -> (status: StatusCode)
        ensures
            status@ == 500,
    {
        StatusCode { code: 500 }
    }
}

} // verus!
