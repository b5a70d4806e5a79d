//! Why the token refuses an operation.

use crate::error_kind::ErrorKind;
use vstd::prelude::*;

verus! {

/// Why an operation on the token was refused.
#[derive(Copy, Clone, Debug, Eq, PartialEq, Structural)]
pub enum TokenError {
    Unauthorized,
    AlreadyInitialized,
    NotAuthorized,
    InsufficientBalance,
    InsufficientAllowance,
    InvalidAmount,
    ExpirationInPast,
    ArithmeticOverflow,
}

impl TokenError {
    /// The kind of failure.
    pub open spec fn kind_value(self) -> ErrorKind {
        match self {
            TokenError::Unauthorized => ErrorKind::Authorization,
            TokenError::AlreadyInitialized => ErrorKind::State,
            TokenError::NotAuthorized => ErrorKind::Authorization,
            TokenError::InsufficientBalance => ErrorKind::Resource,
            TokenError::InsufficientAllowance => ErrorKind::Resource,
            TokenError::InvalidAmount => ErrorKind::Validation,
            TokenError::ExpirationInPast => ErrorKind::Validation,
            TokenError::ArithmeticOverflow => ErrorKind::Arithmetic,
        }
    }

    /// The kind of failure.
    pub fn kind(&self) -> (r: ErrorKind)
        ensures
            r == self.kind_value(),
    {
        match self {
            TokenError::Unauthorized => ErrorKind::Authorization,
            TokenError::AlreadyInitialized => ErrorKind::State,
            TokenError::NotAuthorized => ErrorKind::Authorization,
            TokenError::InsufficientBalance => ErrorKind::Resource,
            TokenError::InsufficientAllowance => ErrorKind::Resource,
            TokenError::InvalidAmount => ErrorKind::Validation,
            TokenError::ExpirationInPast => ErrorKind::Validation,
            TokenError::ArithmeticOverflow => ErrorKind::Arithmetic,
        }
    }

    /// The numeric code under which the error is reported.
    pub open spec fn code_value(self) -> u32 {
        match self {
            TokenError::Unauthorized => 1,
            TokenError::AlreadyInitialized => 2,
            TokenError::NotAuthorized => 3,
            TokenError::InsufficientBalance => 4,
            TokenError::InsufficientAllowance => 5,
            TokenError::InvalidAmount => 6,
            TokenError::ExpirationInPast => 7,
            TokenError::ArithmeticOverflow => 8,
        }
    }

    /// The numeric code under which the error is reported.
    pub fn code(&self) -> (r: u32)
        ensures
            r == self.code_value(),
    {
        match self {
            TokenError::Unauthorized => 1,
            TokenError::AlreadyInitialized => 2,
            TokenError::NotAuthorized => 3,
            TokenError::InsufficientBalance => 4,
            TokenError::InsufficientAllowance => 5,
            TokenError::InvalidAmount => 6,
            TokenError::ExpirationInPast => 7,
            TokenError::ArithmeticOverflow => 8,
        }
    }
}

} // verus!
