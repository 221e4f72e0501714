//! The sign-in flow.

use vstd::prelude::*;

use crate::dto::validation::{
    email_rule_errors, field_outcome, is_valid_email, outcome_texts, validate_email_field,
    ValidationErrors,
};
use crate::models::auth::sessions::DeviceInfo;
use crate::models::auth::signin::{AuthenticationMethod, SignInState};

verus! {

/// Initialise with email: request
#[derive(Debug)]
pub struct InitEmailReq {
    pub device_info: DeviceInfo,
    pub scopes: Vec<String>,
    pub final_redirect_url: Option<String>,
    pub email: String,
}

impl InitEmailReq {
    /// Validates `email` by the `email` rule.
    pub fn validate(&self) -> (r: Result<(), ValidationErrors>)
        ensures
            outcome_texts(r) == field_outcome("email"@, email_rule_errors(is_valid_email(self.email@))),
    {
        validate_email_field("email", &self.email)
    }
}

/// Initialise with email: response
#[derive(Debug)]
pub struct InitEmailRes {
    pub session_token: String,
    pub next_stage: SignInState,
}

/// Get all available authentication methods: request
#[derive(Debug)]
pub struct GetAuthMethodsReq {
    pub session_token: String,
}

/// Get all available authentication methods: response
#[derive(Debug)]
pub struct GetAuthMethodsRes {
    pub available_methods: Vec<AuthenticationMethod>,
}

/// Select authentication method: request
#[derive(Debug)]
pub struct SelectAuthMethodReq {
    pub session_token: String,
    pub selected_method: AuthenticationMethod,
}

/// Select authentication method: response
#[derive(Debug)]
pub struct SelectAuthMethodRes {
    pub next_stage: SignInState,
}

/// Get all recovery emails: request
#[derive(Debug)]
pub struct GetRecoveryEmailsReq {
    pub session_token: String,
}

/// Get all recovery emails: response
#[derive(Debug)]
pub struct GetRecoveryEmailsRes {
    pub recovery_emails: Vec<String>,
}

/// Select recovery email: request
#[derive(Debug)]
pub struct SelectRecoveryEmailReq {
    pub session_token: String,
    pub recovery_email_index: usize,
}

/// Select recovery email: response
#[derive(Debug)]
pub struct SelectRecoveryEmailRes {
    pub next_stage: SignInState,
}

/// Verify recovery email code: request
#[derive(Debug)]
pub struct VerifyRecoveryEmailCodeReq {
    pub session_token: String,
    pub verification_code: String,
}

/// Verify recovery email code: response
#[derive(Debug)]
pub struct VerifyRecoveryEmailCodeRes {
    pub next_stage: SignInState,
}

/// Set recovery code: request
#[derive(Debug)]
pub struct SetRecoveryCodeReq {
    pub session_token: String,
    pub recovery_code: String,
}

/// Set recovery code: response
#[derive(Debug)]
pub struct SetRecoveryCodeRes {
    pub next_stage: SignInState,
}

/// Set password: request
#[derive(Debug)]
pub struct SetPasswordReq {
    pub session_token: String,
    pub password: String,
}

/// Set password: response
#[derive(Debug)]
pub struct SetPasswordRes {
    pub next_stage: SignInState,
}

/// Resend code: request
#[derive(Debug)]
pub struct ResendCodeReq {
    pub session_token: String,
}

/// Resend code: response
#[derive(Debug)]
pub struct ResendCodeRes;

/// Verify email: request
#[derive(Debug)]
pub struct VerifyEmailReq {
    pub session_token: String,
    pub verification_code: String,
}

/// Verify email: response
#[derive(Debug)]
pub struct VerifyEmailRes {
    pub next_stage: SignInState,
}

/// Finalize sign-in (redirect): request
#[derive(Debug)]
pub struct FinalizeSignInReq {
    pub session_token: String,
}

/// Finalize sign-in (redirect): response; each part is present when its scope was granted.
#[derive(Debug)]
pub struct FinalizeSignInRes {
    pub redirect_url: Option<String>,
    /// openid
    pub access_token: Option<String>,
    /// offline_access
    pub refresh_token: Option<String>,
    /// email
    pub email: Option<String>,
    /// profile
    pub first_name: Option<String>,
    /// profile
    pub last_name: Option<String>,
}

impl Default for FinalizeSignInRes {
    fn default() -> (r: Self)
        ensures
            r.redirect_url is None,
            r.access_token is None,
            r.refresh_token is None,
            r.email is None,
            r.first_name is None,
            r.last_name is None,
    {
        FinalizeSignInRes {
            redirect_url: None,
            access_token: None,
            refresh_token: None,
            email: None,
            first_name: None,
            last_name: None,
        }
    }
}

} // verus!
