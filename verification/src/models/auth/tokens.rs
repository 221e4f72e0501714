//! Refresh-token sessions and access-token claims.

use vstd::prelude::*;

use crate::common::UtcDateTime;
use crate::models::auth::sessions::DeviceInfo;

verus! {

/// session:{hashed_refresh_token}
#[derive(Debug)]
pub struct TokenSession {
    pub session_id: String,
    pub user_id: String,
    pub device_info: DeviceInfo,
    /// in days
    pub expires_in: i32,
    pub updated_at: UtcDateTime,
    pub created_at: UtcDateTime,
    pub expires_at: UtcDateTime,
}

/// Key prefix of refresh-token sessions in the store.
pub const TOKEN_SESSION_PREFIX: &'static str = "session";

/// Claims of an access token.
#[derive(Debug)]
pub struct AccessTokenClaims {
    /// user_id
    pub sub: String,
    /// session_id
    pub session_id: String,
    /// expiration time as unix timestamp
    pub exp: usize,
    /// issued at as unix timestamp
    pub iat: usize,
}

/// Lifetime of an access token, in minutes.
pub const ACCESS_TOKEN_EXPIRY_MINUTES: i64 = 5;

} // verus!
