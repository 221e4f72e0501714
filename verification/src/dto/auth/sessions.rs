//! Token refresh and session management.

use vstd::prelude::*;

use crate::models::auth::sessions::DeviceInfo;

verus! {

/// Refresh tokens: request
#[derive(Debug)]
pub struct RefreshTokenReq {
    pub device_info: DeviceInfo,
    pub access_token: String,
    pub refresh_token: String,
}

/// Refresh tokens: response
#[derive(Debug)]
pub struct RefreshTokenRes {
    pub access_token: String,
    pub refresh_token: String,
}

/// Check token: request
#[derive(Debug)]
pub struct CheckTokenReq {
    pub access_token: String,
}

/// Logout: request
#[derive(Debug)]
pub struct LogoutReq {
    pub access_token: String,
    pub refresh_token: String,
}

/// Get all sessions: request (the response lists `MinFieldsSession`s)
#[derive(Debug)]
pub struct GetAllSessionsReq {
    pub access_token: String,
}

/// Terminate session: request
#[derive(Debug)]
pub struct TerminateSessionReq {
    pub access_token: String,
    pub session_id: String,
}

/// Terminate all other sessions: request
#[derive(Debug)]
pub struct TerminateAllOtherSessionsReq {
    pub access_token: String,
}

} // verus!
