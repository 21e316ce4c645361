//! The HTTP status codes that the endpoints answer with.

use vstd::prelude::*;

verus! {

/// An HTTP status code that an endpoint of the API answers with.
#[allow(non_camel_case_types)]
#[derive(Debug, Clone, Copy, PartialEq, Eq, Structural)]
pub enum StatusCode {
    /// 200 OK
    OK,
    /// 201 Created
    CREATED,
    /// 204 No Content
    NO_CONTENT,
    /// 404 Not Found
    NOT_FOUND,
    /// 409 Conflict
    CONFLICT,
    /// 422 Unprocessable Entity
    UNPROCESSABLE_ENTITY,
    /// 500 Internal Server Error
    INTERNAL_SERVER_ERROR,
}

/// The number that HTTP gives each status.
pub open spec fn status_number(status: StatusCode) -> u16 {
    match status {
        StatusCode::OK => 200,
        StatusCode::CREATED => 201,
        StatusCode::NO_CONTENT => 204,
        StatusCode::NOT_FOUND => 404,
        StatusCode::CONFLICT => 409,
        StatusCode::UNPROCESSABLE_ENTITY => 422,
        StatusCode::INTERNAL_SERVER_ERROR => 500,
    }
}

impl StatusCode {
    /// The status as the number that HTTP gives it.
    pub fn as_u16(&self) -> (code: u16)
        ensures
            code == status_number(*self),
    {
        match self {
            StatusCode::OK => 200,
            StatusCode::CREATED => 201,
            StatusCode::NO_CONTENT => 204,
            StatusCode::NOT_FOUND => 404,
            StatusCode::CONFLICT => 409,
            StatusCode::UNPROCESSABLE_ENTITY => 422,
            StatusCode::INTERNAL_SERVER_ERROR => 500,
        }
    }
}

} // verus!
