//! Keys and lifetimes of refresh-token sessions.

use vstd::prelude::*;

use crate::models::auth::tokens::TOKEN_SESSION_PREFIX;
use crate::repositories::{colon_free, lemma_store_key_injective, redis_key, store_key};

verus! {

/// The key of the refresh-token session for the given refresh token.
pub fn token_session_key(refresh_token: &str) -> (r: String)
    ensures
        r@ == store_key(TOKEN_SESSION_PREFIX@, refresh_token@),
{
    redis_key(TOKEN_SESSION_PREFIX, refresh_token)
}

/// Rotating a refresh token moves its session to a key that the old token no longer names:
/// different tokens have different keys.
pub proof fn lemma_rotation_changes_the_key(old_token: Seq<char>, new_token: Seq<char>)
    requires
        old_token != new_token,
    ensures
        store_key(TOKEN_SESSION_PREFIX@, old_token) != store_key(TOKEN_SESSION_PREFIX@, new_token),
{
    reveal_strlit("session");
    assert(colon_free(TOKEN_SESSION_PREFIX@)) by {
        if TOKEN_SESSION_PREFIX@.contains(':') {
            let i = choose|i: int| 0 <= i < TOKEN_SESSION_PREFIX@.len() && TOKEN_SESSION_PREFIX@[i] == ':';
            assert(0 <= i < 7);
        }
    }
    if store_key(TOKEN_SESSION_PREFIX@, old_token) == store_key(TOKEN_SESSION_PREFIX@, new_token) {
        lemma_store_key_injective(TOKEN_SESSION_PREFIX@, old_token, TOKEN_SESSION_PREFIX@, new_token);
    }
}

/// The number of seconds from `now` to `expires_at` reinterpreted as unsigned, as the
/// conversion `as u64` does: a past instant gives a number of at least 2^63.
pub open spec fn ttl_between(expires_at: i64, now: i64) -> u64 {
    if expires_at - now >= 0 {
        (expires_at - now) as u64
    } else {
        (expires_at - now + 0x1_0000_0000_0000_0000) as u64
    }
}

/// How long a new refresh-token session is kept: from now until it expires (both as Unix
/// seconds).
pub fn session_ttl_seconds(expires_at: i64, now: i64) -> (r: u64)
    requires
        i64::MIN <= expires_at - now <= i64::MAX,
    ensures
        r == ttl_between(expires_at, now),
        expires_at >= now ==> r == expires_at - now,
        expires_at < now ==> r == expires_at - now + 0x1_0000_0000_0000_0000,
{
    let d: i64 = expires_at - now;
    if d >= 0 {
        d as u64
    } else {
        let magnitude: u64 = (0 - (d + 1)) as u64;
        u64::MAX - magnitude
    }
}

/// A session is kept for exactly the seconds from now until it expires, however long that
/// is; a session that has already expired gets that negative difference read as an unsigned
/// number, as a cast of the difference gives it.
pub proof fn lemma_ttl_is_time_left(expires_at: i64, now: i64)
    ensures
        expires_at >= now ==> ttl_between(expires_at, now) == expires_at - now,
        expires_at < now ==> ttl_between(expires_at, now) == expires_at - now + 0x1_0000_0000_0000_0000,
        forall|later: i64| #![auto] now <= expires_at <= later ==> ttl_between(later, now) - ttl_between(expires_at, now) == later - expires_at,
{
}

/// A number of days in seconds.
pub fn days_in_seconds(days: i64) -> (r: i64)
    requires
        i64::MIN <= days * 86400 <= i64::MAX,
    ensures
        r == days * 86400,
{
    days * 24 * 60 * 60
}

} // verus!
