//! The error type shared by the library and its HTTP answer.
use vstd::prelude::*;
use vstd::string::*;

verus! {

/// Why a request could not be served.
#[derive(Debug, Clone, PartialEq, Eq)]
pub enum AppError {
    Unauthorized,
    NotFound,
    Validation(String),
    Encryption(String),
    Database(String),
    Internal(String),
}

/// The HTTP status that answers an error.
pub open spec fn status_of(e: AppError) -> u16 {
    match e {
        AppError::Unauthorized => 401,
        AppError::NotFound => 404,
        AppError::Validation(_) => 400,
        _ => 500,
    }
}

/// The text sent to the client as the `error` field of the answer.
pub open spec fn public_message_of(e: AppError) -> Seq<char> {
    match e {
        AppError::Unauthorized => "Authentication failed"@,
        AppError::NotFound => "Resource not found"@,
        AppError::Validation(m) => m@,
        AppError::Encryption(m) => m@,
        AppError::Database(_) => "Database error"@,
        AppError::Internal(_) => "Internal server error"@,
    }
}

/// `e` is a validation error with message `m`.
pub open spec fn is_validation(e: AppError, m: Seq<char>) -> bool {
    e matches AppError::Validation(t) && t@ == m
}

/// `e` is an encryption error with message `m`.
pub open spec fn is_encryption(e: AppError, m: Seq<char>) -> bool {
    e matches AppError::Encryption(t) && t@ == m
}

impl AppError {
    /// The HTTP status code of the answer to this error.
    pub fn status_code(&self) -> (code: u16)
        ensures
            code == status_of(*self),
    {
        match self {
            AppError::Unauthorized => 401,
            AppError::NotFound => 404,
            AppError::Validation(_) => 400,
            _ => 500,
        }
    }

    /// The message shown to the client; store failures and internal faults
    /// are not described to it.
    pub fn public_message(&self) -> (m: String)
        ensures
            m@ == public_message_of(*self),
    {
        match self {
            AppError::Unauthorized => String::from_str("Authentication failed"),
            AppError::NotFound => String::from_str("Resource not found"),
            AppError::Validation(m) => m.clone(),
            AppError::Encryption(m) => m.clone(),
            AppError::Database(_) => String::from_str("Database error"),
            AppError::Internal(_) => String::from_str("Internal server error"),
        }
    }
}

/// A validation error carrying `msg`.
pub fn validation(msg: &str) -> (e: AppError)
    ensures
        is_validation(e, msg@),
{
    AppError::Validation(String::from_str(msg))
}

/// An encryption error carrying `msg`.
pub fn encryption(msg: &str) -> (e: AppError)
    ensures
        is_encryption(e, msg@),
{
    AppError::Encryption(String::from_str(msg))
}

} // verus!
