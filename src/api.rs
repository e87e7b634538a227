//! The envelopes in which results and errors are handed to clients.

use vstd::prelude::*;
use vstd::string::*;
use crate::text::owned;

verus! {

/// Shared state of the service: where its database is.
#[derive(Clone, Debug)]
pub struct AppState {
    pub db_path: String,
}

impl AppState {
    pub fn new(db_path: String) -> (r: AppState)
        ensures
            r.db_path == db_path,
    {
        AppState { db_path }
    }
}

/// A machine-readable code and a message.
#[derive(Clone, Debug)]
pub struct ApiError {
    pub code: String,
    pub message: String,
}

/// A response that carries only an error.
#[derive(Clone, Debug)]
pub struct ErrorResponse {
    pub error: ApiError,
}

impl ErrorResponse {
    pub fn new(code: &str, message: &str) -> (r: ErrorResponse)
        ensures
            r.error.code@ == code@,
            r.error.message@ == message@,
    {
        ErrorResponse { error: ApiError { code: owned(code), message: owned(message) } }
    }

    /// An error with code `INTERNAL_ERROR`.
    pub fn internal_error(message: &str) -> (r: ErrorResponse)
        ensures
            r.error.code@ == "INTERNAL_ERROR"@,
            r.error.message@ == message@,
    {
        Self::new("INTERNAL_ERROR", message)
    }
}

/// A response with either data or an error.
#[derive(Clone, Debug)]
pub struct ApiResponse<T> {
    pub success: bool,
    pub data: Option<T>,
    pub error: Option<ApiError>,
}

impl<T> ApiResponse<T> {
    pub fn success(data: T) -> (r: ApiResponse<T>)
        ensures
            r.success,
            r.data == Some(data),
            r.error is None,
    {
        ApiResponse { success: true, data: Some(data), error: None }
    }

    pub fn error(code: String, message: String) -> (r: ApiResponse<()>)
        ensures
            !r.success,
            r.data is None,
            r.error matches Some(e) && e.code == code && e.message == message,
    {
        ApiResponse { success: false, data: None, error: Some(ApiError { code, message }) }
    }
}

} // verus!
