//! Keys and lifetime of sign-in sessions.

use vstd::prelude::*;

use crate::models::auth::signin::{SIGNIN_SESSION_LIFETIME, SIGNIN_SESSION_PREFIX};
use crate::repositories::{redis_key, store_key};

verus! {

/// The key of the sign-in session with the given identifier.
pub fn signin_key(session_id: &str) -> (r: String)
    ensures
        r@ == store_key(SIGNIN_SESSION_PREFIX@, session_id@),
{
    redis_key(SIGNIN_SESSION_PREFIX, session_id)
}

/// How long a sign-in session lives after it is written or read, in seconds: twenty
/// minutes.
pub fn signin_ttl_seconds() -> (r: u64)
    ensures
        r == SIGNIN_SESSION_LIFETIME * 60,
        r == 1200,
{
    (SIGNIN_SESSION_LIFETIME * 60) as u64
}

} // verus!
