//! Errors of the ledger.

use vstd::prelude::*;
use vstd::string::*;
use crate::decimal::{decimal_to_string, Amount};
use crate::text::owned;

verus! {

/// Every way an operation of the ledger can fail.
#[derive(Debug)]
pub enum AppError {
    /// Storage could not be reached or refused the statement.
    DatabaseError(String),
    /// Malformed input that the caller can correct.
    ValidationError(String),
    /// A rule of the domain forbids the operation (closing a funded account).
    BusinessRuleError(String),
    /// No entity of the kind (first) with the identifier (second).
    NotFoundError(String, String),
    /// The balance does not cover what the operation takes.
    InsufficientBalance { available: Amount, required: Amount },
    /// The account is not active.
    AccountClosed,
    /// The product is inactive and cannot be used for new accounts.
    ProductInactive,
    /// A unique key is already taken.
    Conflict(String),
    /// The stored entity changed since it was read; the operation may be retried.
    ConcurrentModification(String),
    /// The credentials were refused.
    AuthenticationError(String),
    /// A password could not be hashed or checked.
    PasswordHashError(String),
    /// Anything else.
    InternalError(String),
}

impl AppError {
    /// A one-line description of the error.
    pub fn message(&self) -> (r: String) {
        match self {
            AppError::DatabaseError(m) => owned("Database error: ").concat(m.as_str()),
            AppError::ValidationError(m) => owned("Validation error: ").concat(m.as_str()),
            AppError::BusinessRuleError(m) => owned("Business rule violation: ").concat(
                m.as_str(),
            ),
            AppError::NotFoundError(kind, id) => owned(kind.as_str()).concat(
                " not found with id: ",
            ).concat(id.as_str()),
            AppError::InsufficientBalance { available, required } => {
                let mut m = owned("Insufficient balance");
                if available.in_range() && required.in_range() {
                    let a = decimal_to_string(available);
                    let q = decimal_to_string(required);
                    m = m.concat(": available ").concat(a.as_str()).concat(", required ").concat(
                        q.as_str(),
                    );
                }
                m
            },
            AppError::AccountClosed => owned("Account is closed and cannot perform this operation"),
            AppError::ProductInactive => owned(
                "Product is inactive and cannot be used for new accounts",
            ),
            AppError::Conflict(m) => owned("Conflict: ").concat(m.as_str()),
            AppError::ConcurrentModification(m) => owned("Concurrent modification: ").concat(
                m.as_str(),
            ),
            AppError::AuthenticationError(m) => owned("Authentication failed: ").concat(m.as_str()),
            AppError::PasswordHashError(m) => owned("Password hashing error: ").concat(m.as_str()),
            AppError::InternalError(m) => owned("Internal error: ").concat(m.as_str()),
        }
    }
}

/// Result of the ledger's operations.
pub type AppResult<T> = Result<T, AppError>;

} // verus!
