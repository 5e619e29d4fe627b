//! The error taxonomy of the transport layer and its mapping to HTTP
//! status codes.

use vstd::prelude::*;

verus! {

/// Every failure this layer can report, by kind.
#[derive(Clone, Copy, Debug, PartialEq, Eq, Structural)]
pub enum ApiError {
    /// Missing, invalid or expired bearer token.
    Auth,
    /// Bad content type, missing or disallowed extension, or no file in the
    /// request.
    Validation,
    /// Unknown route or resource.
    NotFound,
    /// A resource-service call failed.
    Upstream,
    /// A filesystem copy failed.
    Io,
}

impl ApiError {
    /// The HTTP status that each error kind maps to.
    pub open spec fn spec_status(self) -> u16 {
        match self {
            ApiError::Auth => 401,
            ApiError::Validation => 400,
            ApiError::NotFound => 404,
            ApiError::Upstream => 500,
            ApiError::Io => 500,
        }
    }

    /// Maps the error kind to its HTTP status code.
    pub fn http_status(self) -> (s: u16)
        ensures
            s == self.spec_status(),
    {
        match self {
            ApiError::Auth => 401,
            ApiError::Validation => 400,
            ApiError::NotFound => 404,
            ApiError::Upstream => 500,
            ApiError::Io => 500,
        }
    }

    /// The human-readable message reported for each error kind.
    pub open spec fn spec_message(self) -> Seq<char> {
        match self {
            ApiError::Auth => "unauthorized"@,
            ApiError::Validation => "invalid request"@,
            ApiError::NotFound => "not found"@,
            ApiError::Upstream => "resource service failure"@,
            ApiError::Io => "file copy failure"@,
        }
    }

    /// Renders the human-readable message for this error kind.
    pub fn message(self) -> (m: String)
        ensures
            m@ == self.spec_message(),
    {
        match self {
            ApiError::Auth => String::from_str("unauthorized"),
            ApiError::Validation => String::from_str("invalid request"),
            ApiError::NotFound => String::from_str("not found"),
            ApiError::Upstream => String::from_str("resource service failure"),
            ApiError::Io => String::from_str("file copy failure"),
        }
    }
}

} // verus!
