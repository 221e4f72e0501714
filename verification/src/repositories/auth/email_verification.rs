//! Keys and lifetime of pending email verifications.

use vstd::prelude::*;

use crate::models::auth::email_verification::{EMAIL_VERIFICATION_LIFETIME, EMAIL_VERIFICATION_PREFIX};
use crate::repositories::{redis_key, store_key};

verus! {

/// The key of the email verification with the given token.
pub fn verification_key(token: &str) -> (r: String)
    ensures
        r@ == store_key(EMAIL_VERIFICATION_PREFIX@, token@),
{
    redis_key(EMAIL_VERIFICATION_PREFIX, token)
}

/// How long a new email verification is kept, in seconds: ten minutes.
pub fn verification_ttl_seconds() -> (r: u64)
    ensures
        r == EMAIL_VERIFICATION_LIFETIME * 60,
        r == 600,
{
    EMAIL_VERIFICATION_LIFETIME * 60
}

} // verus!
