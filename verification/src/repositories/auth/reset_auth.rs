//! Keys, lifetime and records of reset tokens.

use vstd::prelude::*;

use crate::models::auth::reset_auth::{ResetAuth, RESET_AUTH_LIFETIME, RESET_AUTH_PREFIX};
use crate::repositories::{redis_key, store_key};

verus! {

/// The key of the reset token with the given value.
pub fn reset_auth_key(token: &str) -> (r: String)
    ensures
        r@ == store_key(RESET_AUTH_PREFIX@, token@),
{
    redis_key(RESET_AUTH_PREFIX, token)
}

/// How long a reset token is kept, in seconds: five minutes.
pub fn reset_auth_ttl_seconds() -> (r: i64)
    ensures
        r == RESET_AUTH_LIFETIME * 60,
        r == 300,
{
    RESET_AUTH_LIFETIME * 60
}

/// The record that a new reset token stores: the user it belongs to.
pub fn new_reset_auth(user_id: &str) -> (r: ResetAuth)
    ensures
        r.user_id@ == user_id@,
{
    ResetAuth { user_id: String::from_str(user_id) }
}

} // verus!
