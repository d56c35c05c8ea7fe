//! The library's error type.

use vstd::prelude::*;

verus! {

/// Errors reported by the library and by the services built on it.
///
/// Each variant carries the message (or, for `NotFound`, the name of the
/// missing resource) given where the error arises.
#[derive(Debug)]
pub enum AppError {
    /// The named resource does not exist.
    NotFound(String),
    /// The caller lacks the permission the operation needs.
    AccessDenied(String),
    /// The request is malformed or breaks a rule of the library.
    ValidationError(String),
    /// Authentication failed.
    AuthFailed(String),
    /// The database reported an error.
    Database(String),
    /// A file-system or other I/O operation failed.
    IoError(String),
}

impl AppError {
    /// A `NotFound` error for the named resource.
    pub fn not_found(resource: &str) -> (e: AppError)
        ensures
            e matches AppError::NotFound(m) && m@ == resource@,
    {
        AppError::NotFound(String::from_str(resource))
    }

    /// An `AccessDenied` error with the given message.
    pub fn access_denied(message: &str) -> (e: AppError)
        ensures
            e matches AppError::AccessDenied(m) && m@ == message@,
    {
        AppError::AccessDenied(String::from_str(message))
    }

    /// A `ValidationError` with the given message.
    pub fn validation_error(message: &str) -> (e: AppError)
        ensures
            e matches AppError::ValidationError(m) && m@ == message@,
    {
        AppError::ValidationError(String::from_str(message))
    }

    /// An `AuthFailed` error with the given message.
    pub fn auth_failed(message: &str) -> (e: AppError)
        ensures
            e matches AppError::AuthFailed(m) && m@ == message@,
    {
        AppError::AuthFailed(String::from_str(message))
    }
}

} // verus!
