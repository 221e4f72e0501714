//! Keys, lifetime and record changes of sign-up sessions.

use vstd::prelude::*;

use crate::errors::db_error::DbError;
use crate::models::auth::signup::{SignUpData, SignUpSession, SIGNUP_SESSION_LIFETIME, SIGNUP_SESSION_PREFIX};
use crate::repositories::{redis_key, store_key};

verus! {

/// The key of the sign-up session with the given identifier.
pub fn signup_key(session_id: &str) -> (r: String)
    ensures
        r@ == store_key(SIGNUP_SESSION_PREFIX@, session_id@),
{
    redis_key(SIGNUP_SESSION_PREFIX, session_id)
}

/// How long a sign-up session lives after it is written or read, in seconds: twenty
/// minutes.
pub fn signup_ttl_seconds() -> (r: u64)
    ensures
        r == SIGNUP_SESSION_LIFETIME * 60,
        r == 1200,
{
    SIGNUP_SESSION_LIFETIME * 60
}

/// The error for a sign-up session that is not in the store.
fn not_found() -> (r: DbError)
    ensures
        r matches DbError::NotFound(m) && m@ == "Signup session is not found"@,
{
    DbError::NotFound(String::from_str("Signup session is not found"))
}

/// Whether two sessions agree on everything but the entered data.
pub open spec fn same_but_data(a: SignUpSession, b: SignUpSession) -> bool {
    &&& a.scopes == b.scopes
    &&& a.final_redirect_url == b.final_redirect_url
    &&& a.device_info == b.device_info
    &&& a.verification_code == b.verification_code
    &&& a.attempts == b.attempts
    &&& a.stage == b.stage
}

/// Whether two sessions agree on everything but the verification code and the attempts.
pub open spec fn same_but_code(a: SignUpSession, b: SignUpSession) -> bool {
    &&& a.scopes == b.scopes
    &&& a.final_redirect_url == b.final_redirect_url
    &&& a.data == b.data
    &&& a.device_info == b.device_info
    &&& a.stage == b.stage
}

/// The session with its entered data replaced.
pub fn update_data(stored: Option<SignUpSession>, data: SignUpData) -> (r: Result<SignUpSession, DbError>)
    ensures
        stored is None ==> (r matches Err(DbError::NotFound(m)) && m@ == "Signup session is not found"@),
        stored matches Some(s) ==> (r matches Ok(n) && n.data == data && same_but_data(n, s)),
{
    match stored {
        Some(mut s) => {
            s.data = data;
            Ok(s)
        },
        None => Err(not_found()),
    }
}

/// The session with a new verification code and its attempts back at zero.
pub fn update_code(stored: Option<SignUpSession>, code: &str) -> (r: Result<SignUpSession, DbError>)
    ensures
        stored is None ==> (r matches Err(DbError::NotFound(m)) && m@ == "Signup session is not found"@),
        stored matches Some(s) ==> (r matches Ok(n) && n.verification_code@ == code@ && n.attempts == 0
            && same_but_code(n, s)),
{
    match stored {
        Some(mut s) => {
            s.verification_code = String::from_str(code);
            s.attempts = 0;
            Ok(s)
        },
        None => Err(not_found()),
    }
}

/// The session with one more attempt counted; its attempts is the count the store reports.
pub fn increment_attempts(stored: Option<SignUpSession>) -> (r: Result<SignUpSession, DbError>)
    requires
        stored matches Some(s) ==> s.attempts < 255,
    ensures
        stored is None ==> (r matches Err(DbError::NotFound(m)) && m@ == "Signup session is not found"@),
        stored matches Some(s) ==> (r matches Ok(n) && n.attempts == s.attempts + 1
            && n.verification_code == s.verification_code && same_but_code(n, s)),
{
    match stored {
        Some(mut s) => {
            s.attempts = s.attempts + 1;
            Ok(s)
        },
        None => Err(not_found()),
    }
}

/// After a new code, the attempts count from zero: `k` counted attempts give `k`, and the
/// code stays the new one.
pub proof fn lemma_new_code_restarts_count(s: SignUpSession, code: Seq<char>, n: SignUpSession, m: SignUpSession)
    requires
        n.verification_code@ == code,
        n.attempts == 0,
        same_but_code(n, s),
        m.attempts == n.attempts + 1,
        m.verification_code == n.verification_code,
        same_but_code(m, n),
    ensures
        m.attempts == 1,
        m.verification_code@ == code,
        same_but_code(m, s),
{
}

} // verus!
