//! Errors that a request can end in, with the HTTP status, error type and
//! message that each is answered with.

use vstd::prelude::*;

verus! {

/// Why a request was refused or failed.
pub enum AppError {
    /// The request is malformed (400).
    BadRequest(String),
    /// The bearer token is missing or wrong (401).
    Unauthorized,
    /// The Copilot session failed (502).
    Upstream(String),
    /// The server could not prepare the answer (500).
    Internal(String),
}

/// The `type` member of the error body of `e`.
pub open spec fn error_type_of(e: AppError) -> Seq<char> {
    match e {
        AppError::BadRequest(_) => "invalid_request_error"@,
        AppError::Unauthorized => "authentication_error"@,
        AppError::Upstream(_) => "upstream_error"@,
        AppError::Internal(_) => "internal_error"@,
    }
}

impl AppError {
    /// The HTTP status code of the error.
    pub fn status_code(&self) -> (code: u16)
        ensures
            code == match self {
                AppError::BadRequest(_) => 400u16,
                AppError::Unauthorized => 401u16,
                AppError::Upstream(_) => 502u16,
                AppError::Internal(_) => 500u16,
            },
    {
        match self {
            AppError::BadRequest(_) => 400,
            AppError::Unauthorized => 401,
            AppError::Upstream(_) => 502,
            AppError::Internal(_) => 500,
        }
    }

    /// The `type` member of the error body.
    pub fn error_type(&self) -> (t: &'static str)
        ensures
            t@ == error_type_of(*self),
    {
        match self {
            AppError::BadRequest(_) => "invalid_request_error",
            AppError::Unauthorized => "authentication_error",
            AppError::Upstream(_) => "upstream_error",
            AppError::Internal(_) => "internal_error",
        }
    }

    /// The `message` member of the error body: the error's own message, or
    /// `unauthorized`.
    pub fn message(&self) -> (m: String)
        ensures
            m@ == match self {
                AppError::BadRequest(s) => s@,
                AppError::Unauthorized => "unauthorized"@,
                AppError::Upstream(s) => s@,
                AppError::Internal(s) => s@,
            },
    {
        match self {
            AppError::BadRequest(s) => s.clone(),
            AppError::Unauthorized => String::from_str("unauthorized"),
            AppError::Upstream(s) => s.clone(),
            AppError::Internal(s) => s.clone(),
        }
    }
}

/// Whether `e` is the error of a request whose response id could not be drawn.
pub open spec fn is_no_response_id(e: AppError) -> bool {
    e matches AppError::Internal(m) && m@ == "could not retrieve random bytes for the response id"@
}

/// The error that fails a request whose response id could not be drawn.
pub fn no_response_id() -> (e: AppError)
    ensures
        is_no_response_id(e),
{
    AppError::Internal(String::from_str("could not retrieve random bytes for the response id"))
}

} // verus!
