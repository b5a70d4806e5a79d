//! The admin gate.

use crate::address::Address;
use crate::token::error::TokenError;
use crate::token::storage::TokenStorage;
use vstd::prelude::*;

verus! {

/// The party whose authorization an admin operation needs: the recorded
/// admin. Refused where no admin is recorded.
pub fn require_admin(storage: &TokenStorage) -> (r: Result<Address, TokenError>)
    ensures
        r == match storage@.admin {
            Some(admin) => Ok::<Address, TokenError>(admin),
            None => Err(TokenError::Unauthorized),
        },
{
    match crate::token::storage::admin(storage) {
        Some(admin) => Ok(admin),
        None => Err(TokenError::Unauthorized),
    }
}

} // verus!
