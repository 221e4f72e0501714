//! The sign-up flow.

use vstd::prelude::*;

use crate::dto::validation::{
    email_rule_errors, field_outcome, is_valid_email, outcome_texts, password_rule_errors,
    refused_with, rule_error, validate_email_field, validate_password_field, ValidationError,
    ValidationErrors, PASSWORD_MAX_LENGTH, PASSWORD_MIN_LENGTH,
};
use crate::models::auth::sessions::DeviceInfo;
use crate::models::auth::signup::SignUpState;

verus! {

/// Initialisation route: request
#[derive(Debug)]
pub struct InitSessionReq {
    pub device_info: DeviceInfo,
    pub scopes: Vec<String>,
    pub final_redirect_url: Option<String>,
}

/// Initialisation route: response
#[derive(Debug)]
pub struct InitSessionRes {
    pub session_token: String,
    pub next_stage: SignUpState,
}

/// Initialise with name and last name: request
#[derive(Debug)]
pub struct InitProfileReq {
    pub device_info: DeviceInfo,
    pub scopes: Vec<String>,
    pub final_redirect_url: Option<String>,
    pub first_name: String,
    pub last_name: String,
}

/// Initialise with name and last name: response
#[derive(Debug)]
pub struct InitProfileRes {
    pub session_token: String,
    pub next_stage: SignUpState,
}

/// Set name and last name: request
#[derive(Debug)]
pub struct SetProfileReq {
    pub session_token: String,
    pub first_name: String,
    pub last_name: String,
}

/// Set name and last name: response
#[derive(Debug)]
pub struct SetProfileRes {
    pub next_stage: SignUpState,
}

/// Set email: request
#[derive(Debug)]
pub struct SetEmailReq {
    pub session_token: String,
    pub email: String,
}

impl SetEmailReq {
    /// Validates `email` by the `email` rule.
    pub fn validate(&self) -> (r: Result<(), ValidationErrors>)
        ensures
            outcome_texts(r) == field_outcome("email"@, email_rule_errors(is_valid_email(self.email@))),
    {
        validate_email_field("email", &self.email)
    }
}

/// Set email: response
#[derive(Debug)]
pub struct SetEmailRes {
    pub next_stage: SignUpState,
}

/// Resend email confirmation: request
#[derive(Debug)]
pub struct ResendEmailCodeReq {
    pub session_token: String,
}

impl ResendEmailCodeReq {
    /// No field of this request carries a rule, so it always validates.
    pub fn validate(&self) -> (r: Result<(), ValidationErrors>)
        ensures
            r is Ok,
    {
        Ok(())
    }
}

/// Resend email confirmation: response
#[derive(Debug)]
pub struct ResendEmailCodeRes;

/// Verify email: request
#[derive(Debug)]
pub struct VerifyEmailReq {
    pub session_token: String,
    pub verification_code: String,
}

/// Verify email: response
#[derive(Debug)]
pub struct VerifyEmailRes {
    pub next_stage: SignUpState,
}

/// Set password: request
#[derive(Debug)]
pub struct SetPasswordReq {
    pub session_token: String,
    pub password: String,
}

impl SetPasswordReq {
    /// Validates `password` by the project's password rule, whose outcome is given, and by
    /// `length(min = 8, max = 128)`.
    pub fn validate(&self, password_rule: Result<(), ValidationError>) -> (r: Result<(), ValidationErrors>)
        ensures
            outcome_texts(r) == field_outcome(
                "password"@,
                password_rule_errors(password_rule, self.password@.len()),
            ),
            password_rule matches Err(e) ==> refused_with(outcome_texts(r), "password"@, e.texts()),
            !(PASSWORD_MIN_LENGTH <= self.password@.len() <= PASSWORD_MAX_LENGTH) ==> refused_with(
                outcome_texts(r),
                "password"@,
                rule_error("length"@),
            ),
            (password_rule is Ok && PASSWORD_MIN_LENGTH <= self.password@.len() <= PASSWORD_MAX_LENGTH)
                ==> r is Ok,
    {
        validate_password_field("password", &self.password, password_rule)
    }
}

/// Set password: response
#[derive(Debug)]
pub struct SetPasswordRes {
    pub next_stage: SignUpState,
}

/// Finalize sign-up (redirect): request
#[derive(Debug)]
pub struct FinalizeSignUpReq {
    pub session_token: String,
}

/// Finalize sign-up (redirect): response; each part is present when its scope was granted.
#[derive(Debug)]
pub struct FinalizeSignUpRes {
    /// always
    pub redirect_url: Option<String>,
    /// openid
    pub access_token: Option<String>,
    /// offline_access
    pub refresh_token: Option<String>,
    /// email
    pub email: Option<String>,
    /// profile
    pub first_name: Option<String>,
    /// profile
    pub last_name: Option<String>,
}

impl Default for FinalizeSignUpRes {
    fn default() -> (r: Self)
        ensures
            r.redirect_url is None,
            r.access_token is None,
            r.refresh_token is None,
            r.email is None,
            r.first_name is None,
            r.last_name is None,
    {
        FinalizeSignUpRes {
            redirect_url: None,
            access_token: None,
            refresh_token: None,
            email: None,
            first_name: None,
            last_name: None,
        }
    }
}

/// Return back session state: request
#[derive(Debug)]
pub struct ReturnBackSessionReq {
    pub session_token: String,
}

/// Return back session state: response
#[derive(Debug)]
pub struct ReturnBackSessionRes {
    pub next_stage: SignUpState,
}

} // verus!
