//! The five failure kinds surfaced to clients.
use vstd::prelude::*;

verus! {

/// Every failure of the core is one of these kinds.
#[derive(Debug, Clone, PartialEq, Eq)]
pub enum ApiError {
    /// Missing, invalid or expired token; failed login; signature mismatch.
    Unauthorized,
    /// Authenticated, but not entitled to the entity.
    Forbidden,
    /// Malformed input or a broken business rule, with a message.
    BadRequest(String),
    /// The entity does not exist.
    NotFound,
    /// A storage or cryptographic-library failure not caused by the caller.
    Internal,
}

/// The kind of a failure, without its message.
#[derive(Debug, Clone, Copy, PartialEq, Eq, Structural)]
pub enum ErrorKind {
    Unauthorized,
    Forbidden,
    BadRequest,
    NotFound,
    Internal,
}

impl ApiError {
    pub open spec fn spec_kind(&self) -> ErrorKind {
        match self {
            ApiError::Unauthorized => ErrorKind::Unauthorized,
            ApiError::Forbidden => ErrorKind::Forbidden,
            ApiError::BadRequest(_) => ErrorKind::BadRequest,
            ApiError::NotFound => ErrorKind::NotFound,
            ApiError::Internal => ErrorKind::Internal,
        }
    }

    pub fn kind(&self) -> (r: ErrorKind)
        ensures
            r == self.spec_kind(),
    {
        match self {
            ApiError::Unauthorized => ErrorKind::Unauthorized,
            ApiError::Forbidden => ErrorKind::Forbidden,
            ApiError::BadRequest(_) => ErrorKind::BadRequest,
            ApiError::NotFound => ErrorKind::NotFound,
            ApiError::Internal => ErrorKind::Internal,
        }
    }

    /// The HTTP status a failure of this kind is answered with.
    pub open spec fn spec_status(&self) -> u16 {
        match self {
            ApiError::Unauthorized => 401,
            ApiError::Forbidden => 403,
            ApiError::BadRequest(_) => 400,
            ApiError::NotFound => 404,
            ApiError::Internal => 500,
        }
    }

    /// The machine-readable tag of the failure kind.
    pub open spec fn spec_tag(&self) -> Seq<char> {
        match self {
            ApiError::Unauthorized => "unauthorized"@,
            ApiError::Forbidden => "forbidden"@,
            ApiError::BadRequest(_) => "bad_request"@,
            ApiError::NotFound => "not_found"@,
            ApiError::Internal => "internal_error"@,
        }
    }

    pub fn status_code(&self) -> (r: u16)
        ensures
            r == self.spec_status(),
    {
        match self {
            ApiError::Unauthorized => 401,
            ApiError::Forbidden => 403,
            ApiError::BadRequest(_) => 400,
            ApiError::NotFound => 404,
            ApiError::Internal => 500,
        }
    }

    pub fn tag(&self) -> (r: &'static str)
        ensures
            r@ == self.spec_tag(),
    {
        match self {
            ApiError::Unauthorized => "unauthorized",
            ApiError::Forbidden => "forbidden",
            ApiError::BadRequest(_) => "bad_request",
            ApiError::NotFound => "not_found",
            ApiError::Internal => "internal_error",
        }
    }

    /// The human-readable message of the failure.
    pub fn message(&self) -> (r: String)
        ensures
            self is BadRequest ==> r@ == self->BadRequest_0@,
            self is Unauthorized ==> r@ == "Unauthorized"@,
            self is Forbidden ==> r@ == "Forbidden"@,
            self is NotFound ==> r@ == "Not found"@,
            self is Internal ==> r@ == "Internal server error"@,
    {
        match self {
            ApiError::Unauthorized => String::from_str("Unauthorized"),
            ApiError::Forbidden => String::from_str("Forbidden"),
            ApiError::BadRequest(m) => m.clone(),
            ApiError::NotFound => String::from_str("Not found"),
            ApiError::Internal => String::from_str("Internal server error"),
        }
    }
}

/// A `BadRequest` carrying the given message.
pub fn bad_request(msg: &str) -> (r: ApiError)
    ensures
        r is BadRequest,
        r->BadRequest_0@ == msg@,
{
    ApiError::BadRequest(String::from_str(msg))
}

} // verus!
