use vstd::prelude::*;
use warp::http::StatusCode;

use crate::filters::{http_status_code, status_code_from_u16};

verus! {

/// HTTP status codes, for replies built with the status helpers.
#[derive(Clone, Copy, Debug, PartialEq, Eq, Structural)]
pub enum Status {
    // 2xx
    OK,
    Created,
    Accepted,
    NoContent,
    // 3xx
    MovedPermanently,
    Found,
    NotModified,
    TemporaryRedirect,
    PermanentRedirect,
    // 4xx
    BadRequest,
    Unauthorized,
    Forbidden,
    NotFound,
    MethodNotAllowed,
    Conflict,
    Gone,
    UnprocessableEntity,
    TooManyRequests,
    // 5xx
    InternalServerError,
    NotImplemented,
    BadGateway,
    ServiceUnavailable,
    GatewayTimeout,
}

/// The numeric code of each status.
pub open spec fn status_number(s: Status) -> u16 {
    match s {
        Status::OK => 200,
        Status::Created => 201,
        Status::Accepted => 202,
        Status::NoContent => 204,
        Status::MovedPermanently => 301,
        Status::Found => 302,
        Status::NotModified => 304,
        Status::TemporaryRedirect => 307,
        Status::PermanentRedirect => 308,
        Status::BadRequest => 400,
        Status::Unauthorized => 401,
        Status::Forbidden => 403,
        Status::NotFound => 404,
        Status::MethodNotAllowed => 405,
        Status::Conflict => 409,
        Status::Gone => 410,
        Status::UnprocessableEntity => 422,
        Status::TooManyRequests => 429,
        Status::InternalServerError => 500,
        Status::NotImplemented => 501,
        Status::BadGateway => 502,
        Status::ServiceUnavailable => 503,
        Status::GatewayTimeout => 504,
    }
}

/// The status whose code is `code`, if there is one.
pub open spec fn status_of_number(code: u16) -> Option<Status> {
    if code == 200 {
        Some(Status::OK)
    } else if code == 201 {
        Some(Status::Created)
    } else if code == 202 {
        Some(Status::Accepted)
    } else if code == 204 {
        Some(Status::NoContent)
    } else if code == 301 {
        Some(Status::MovedPermanently)
    } else if code == 302 {
        Some(Status::Found)
    } else if code == 304 {
        Some(Status::NotModified)
    } else if code == 307 {
        Some(Status::TemporaryRedirect)
    } else if code == 308 {
        Some(Status::PermanentRedirect)
    } else if code == 400 {
        Some(Status::BadRequest)
    } else if code == 401 {
        Some(Status::Unauthorized)
    } else if code == 403 {
        Some(Status::Forbidden)
    } else if code == 404 {
        Some(Status::NotFound)
    } else if code == 405 {
        Some(Status::MethodNotAllowed)
    } else if code == 409 {
        Some(Status::Conflict)
    } else if code == 410 {
        Some(Status::Gone)
    } else if code == 422 {
        Some(Status::UnprocessableEntity)
    } else if code == 429 {
        Some(Status::TooManyRequests)
    } else if code == 500 {
        Some(Status::InternalServerError)
    } else if code == 501 {
        Some(Status::NotImplemented)
    } else if code == 502 {
        Some(Status::BadGateway)
    } else if code == 503 {
        Some(Status::ServiceUnavailable)
    } else if code == 504 {
        Some(Status::GatewayTimeout)
    } else {
        None
    }
}

impl Status {
    /// The numeric HTTP code of this status, e.g. 404 for `NotFound`.
    pub fn code(self) -> (c: u16)
        ensures
            c == status_number(self),
    {
        match self {
            Status::OK => 200,
            Status::Created => 201,
            Status::Accepted => 202,
            Status::NoContent => 204,
            Status::MovedPermanently => 301,
            Status::Found => 302,
            Status::NotModified => 304,
            Status::TemporaryRedirect => 307,
            Status::PermanentRedirect => 308,
            Status::BadRequest => 400,
            Status::Unauthorized => 401,
            Status::Forbidden => 403,
            Status::NotFound => 404,
            Status::MethodNotAllowed => 405,
            Status::Conflict => 409,
            Status::Gone => 410,
            Status::UnprocessableEntity => 422,
            Status::TooManyRequests => 429,
            Status::InternalServerError => 500,
            Status::NotImplemented => 501,
            Status::BadGateway => 502,
            Status::ServiceUnavailable => 503,
            Status::GatewayTimeout => 504,
        }
    }

    /// The `http::StatusCode` of this status, which is the code of no other
    /// status.
    pub fn status_code(self) -> (c: StatusCode)
        ensures
            c == http_status_code(status_number(self)),
            forall|t: Status| #[trigger] http_status_code(status_number(t)) == c ==> t == self,
    {
        let r = status_code_from_u16(self.code());
        proof {
            law_status_number_range(self);
            assert forall|t: Status| #[trigger]
                http_status_code(status_number(t)) == r->Ok_0 implies t == self by {
                law_status_number_range(t);
                if t != self {
                    law_status_number_injective(t, self);
                }
            }
        }
        r.unwrap()
    }
}

impl From<Status> for StatusCode {
    fn from(s: Status) -> (c: StatusCode) {
        s.status_code()
    }
}

impl vstd::std_specs::convert::FromSpecImpl<Status> for StatusCode {
    open spec fn obeys_from_spec() -> bool {
        true
    }

    open spec fn from_spec(v: Status) -> StatusCode {
        http_status_code(status_number(v))
    }
}

/// Every status has a code in 200..=504: a successful, redirection, client
/// error or server error class, never informational, and always a valid HTTP
/// status code.
pub proof fn law_status_number_range(s: Status)
    ensures
        200 <= status_number(s) <= 504,
{
}

/// The code determines the status: `status_of_number` inverts
/// `status_number`, so no two statuses share a code.
pub proof fn law_status_number_inverse(s: Status)
    ensures
        status_of_number(status_number(s)) == Some(s),
{
}

/// Distinct statuses have distinct codes.
pub proof fn law_status_number_injective(s: Status, t: Status)
    requires
        s != t,
    ensures
        status_number(s) != status_number(t),
{
    law_status_number_inverse(s);
    law_status_number_inverse(t);
}

/// The position of each status in the declaration of [`Status`], from 0.
pub open spec fn status_position(s: Status) -> int {
    match s {
        Status::OK => 0,
        Status::Created => 1,
        Status::Accepted => 2,
        Status::NoContent => 3,
        Status::MovedPermanently => 4,
        Status::Found => 5,
        Status::NotModified => 6,
        Status::TemporaryRedirect => 7,
        Status::PermanentRedirect => 8,
        Status::BadRequest => 9,
        Status::Unauthorized => 10,
        Status::Forbidden => 11,
        Status::NotFound => 12,
        Status::MethodNotAllowed => 13,
        Status::Conflict => 14,
        Status::Gone => 15,
        Status::UnprocessableEntity => 16,
        Status::TooManyRequests => 17,
        Status::InternalServerError => 18,
        Status::NotImplemented => 19,
        Status::BadGateway => 20,
        Status::ServiceUnavailable => 21,
        Status::GatewayTimeout => 22,
    }
}

/// Codes rise in declaration order: a status declared before another has a
/// smaller code.
pub proof fn law_status_number_increasing(a: Status, b: Status)
    requires
        status_position(a) < status_position(b),
    ensures
        status_number(a) < status_number(b),
{
}

} // verus!
