//! The state of a sign-up flow.

use vstd::prelude::*;

use crate::common::UtcDateTime;
use crate::models::auth::sessions::DeviceInfo;
use crate::models::auth::utils::Scope;

verus! {

/// signup:{token}
#[derive(Debug)]
pub struct SignUpSession {
    pub scopes: Vec<Scope>,
    pub final_redirect_url: Option<String>,
    pub data: SignUpData,
    pub device_info: DeviceInfo,
    /// For all verifications (mobile, email, etc)
    pub verification_code: String,
    pub attempts: u8,
    pub stage: SignUpState,
}

impl Default for SignUpSession {
    fn default() -> (r: Self)
        ensures
            r.scopes@.len() == 0,
            r.final_redirect_url is None,
            r.data.email is None,
            r.data.password is None,
            r.data.first_name is None,
            r.data.last_name is None,
            r.data.last_resent_code_at is None,
            r.device_info.texts() == (Seq::<char>::empty(), Seq::<char>::empty()),
            r.verification_code@.len() == 0,
            r.attempts == 0,
            r.stage == SignUpState::InitStage,
    {
        SignUpSession {
            scopes: Vec::new(),
            final_redirect_url: None,
            data: SignUpData::default(),
            device_info: DeviceInfo::default(),
            verification_code: String::new(),
            attempts: 0,
            stage: SignUpState::default(),
        }
    }
}

/// Key prefix of sign-up sessions in the store.
pub const SIGNUP_SESSION_PREFIX: &'static str = "signup";

/// Lifetime of a sign-up session, in minutes; renewed on every request.
pub const SIGNUP_SESSION_LIFETIME: u64 = 20;

/// The stage a sign-up flow is in.
#[derive(Debug, Clone, Copy, PartialEq, Eq, Structural)]
pub enum SignUpState {
    /// just created session
    InitStage,
    /// create session with name and last name
    InitWithProfileStage,
    /// enter name and last name if you skip it
    ProfileStage,
    EmailStage,
    EmailVerificationStage,
    PasswordStage,
    /// Additional security questions stage
    SetQuestionsStage,
    Redirect,
}

impl Default for SignUpState {
    fn default() -> (r: Self)
        ensures
            r == SignUpState::InitStage,
    {
        SignUpState::InitStage
    }
}

/// What the user has entered so far.
#[derive(Debug, Clone)]
pub struct SignUpData {
    pub email: Option<String>,
    pub password: Option<String>,
    pub first_name: Option<String>,
    pub last_name: Option<String>,
    pub last_resent_code_at: Option<UtcDateTime>,
}

impl Default for SignUpData {
    fn default() -> (r: Self)
        ensures
            r.email is None,
            r.password is None,
            r.first_name is None,
            r.last_name is None,
            r.last_resent_code_at is None,
    {
        SignUpData {
            email: None,
            password: None,
            first_name: None,
            last_name: None,
            last_resent_code_at: None,
        }
    }
}

} // verus!
