//! The state of a password reset flow.

use vstd::prelude::*;

use crate::common::UtcDateTime;
use crate::models::auth::sessions::DeviceInfo;
use crate::models::auth::utils::Scope;

verus! {

/// password_reset:{session_token}
#[derive(Debug)]
pub struct PasswordReset {
    pub scopes: Vec<Scope>,
    pub final_redirect_url: Option<String>,
    pub data: PwdResetData,
    pub device_info: DeviceInfo,
    pub stage: PwdResetState,
    pub otp_code: String,
    pub attempts: u8,
}

/// Key prefix of password reset sessions in the store.
pub const PASSWORD_RESET_PREFIX: &'static str = "password_reset";

/// Lifetime of a password reset session, in minutes.
pub const PASSWORD_RESET_LIFETIME: i64 = 15;

/// The stage a password reset is in.
#[derive(Debug, Clone, Copy, PartialEq, Eq, Structural)]
pub enum PwdResetState {
    InitWithEmailStage,
    EmailVerificationStage,
    SetPasswordStage,
    Redirect,
}

impl Default for PwdResetState {
    fn default() -> (r: Self)
        ensures
            r == PwdResetState::InitWithEmailStage,
    {
        PwdResetState::InitWithEmailStage
    }
}

/// Who resets, and when a code was last resent.
#[derive(Debug, Clone)]
pub struct PwdResetData {
    pub user_id: Option<String>,
    pub last_resent_code_at: Option<UtcDateTime>,
}

impl Default for PwdResetData {
    fn default() -> (r: Self)
        ensures
            r.user_id is None,
            r.last_resent_code_at is None,
    {
        PwdResetData { user_id: None, last_resent_code_at: None }
    }
}

} // verus!
