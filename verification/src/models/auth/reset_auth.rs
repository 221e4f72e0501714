//! Tokens that let a user start over after proving identity.

use vstd::prelude::*;

verus! {

/// reset_auth:{token}
#[derive(Debug)]
pub struct ResetAuth {
    pub user_id: String,
}

/// Key prefix of reset tokens in the store.
pub const RESET_AUTH_PREFIX: &'static str = "reset_auth";

/// Lifetime of a reset token, in minutes.
pub const RESET_AUTH_LIFETIME: i64 = 5;

} // verus!
