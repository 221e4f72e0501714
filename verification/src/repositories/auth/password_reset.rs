//! Keys, lifetime and record changes of password reset sessions.

use vstd::prelude::*;

use crate::errors::db_error::DbError;
use crate::models::auth::password_reset::{PasswordReset, PASSWORD_RESET_LIFETIME, PASSWORD_RESET_PREFIX};
use crate::repositories::{redis_key, store_key};

verus! {

/// The key of the password reset session with the given token.
pub fn password_reset_key(token: &str) -> (r: String)
    ensures
        r@ == store_key(PASSWORD_RESET_PREFIX@, token@),
{
    redis_key(PASSWORD_RESET_PREFIX, token)
}

/// How long a password reset session is kept, in seconds: fifteen minutes.
pub fn password_reset_ttl_seconds() -> (r: i64)
    ensures
        r == PASSWORD_RESET_LIFETIME * 60,
        r == 900,
{
    PASSWORD_RESET_LIFETIME * 60
}

/// The error for a password reset session that is not in the store.
fn not_found() -> (r: DbError)
    ensures
        r matches DbError::NotFound(m) && m@ == "Password reset session not found"@,
{
    DbError::NotFound(String::from_str("Password reset session not found"))
}

/// Counts one more attempt on the stored session: the updated record to write back, whose
/// attempts is the count returned; a session that is not stored is not found.
pub fn increment_attempts(stored: Option<PasswordReset>) -> (r: Result<PasswordReset, DbError>)
    requires
        stored matches Some(s) ==> s.attempts < 255,
    ensures
        stored is None ==> (r matches Err(DbError::NotFound(m)) && m@ == "Password reset session not found"@),
        stored matches Some(s) ==> (r matches Ok(n) && n.attempts == s.attempts + 1
            && n.scopes == s.scopes && n.final_redirect_url == s.final_redirect_url
            && n.data.user_id == s.data.user_id && n.data.last_resent_code_at == s.data.last_resent_code_at
            && n.device_info == s.device_info && n.stage == s.stage && n.otp_code == s.otp_code),
{
    match stored {
        Some(mut s) => {
            s.attempts = s.attempts + 1;
            Ok(s)
        },
        None => Err(not_found()),
    }
}

/// Deleting a session: nothing deleted means it was not found.
pub fn delete_outcome(deleted: usize) -> (r: Result<(), DbError>)
    ensures
        deleted != 0 ==> r is Ok,
        deleted == 0 ==> (r matches Err(DbError::NotFound(m)) && m@ == "Password reset session not found"@),
{
    if deleted == 0 {
        return Err(not_found());
    }
    Ok(())
}

} // verus!
