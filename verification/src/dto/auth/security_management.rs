//! Security settings of a signed-in user; each change needs a sudo token.

use vstd::prelude::*;

use crate::dto::validation::{
    email_rule_errors, field_outcome, is_valid_email, outcome_texts, password_rule_errors,
    refused_with, rule_error, validate_email_field, validate_password_field, ValidationError,
    ValidationErrors, PASSWORD_MAX_LENGTH, PASSWORD_MIN_LENGTH,
};

verus! {

/// Change password: request
#[derive(Debug)]
pub struct ChangePasswordReq {
    pub sudo_token: String,
    pub access_token: String,
    pub new_password: String,
}

impl ChangePasswordReq {
    /// Validates `new_password` by the project's password rule, whose outcome is given,
    /// and by `length(min = 8, max = 128)`.
    pub fn validate(&self, password_rule: Result<(), ValidationError>) -> (r: Result<(), ValidationErrors>)
        ensures
            outcome_texts(r) == field_outcome(
                "new_password"@,
                password_rule_errors(password_rule, self.new_password@.len()),
            ),
            password_rule matches Err(e) ==> refused_with(outcome_texts(r), "new_password"@, e.texts()),
            !(PASSWORD_MIN_LENGTH <= self.new_password@.len() <= PASSWORD_MAX_LENGTH) ==> refused_with(
                outcome_texts(r),
                "new_password"@,
                rule_error("length"@),
            ),
            (password_rule is Ok && PASSWORD_MIN_LENGTH <= self.new_password@.len() <= PASSWORD_MAX_LENGTH)
                ==> r is Ok,
    {
        validate_password_field("new_password", &self.new_password, password_rule)
    }
}

/// Change password: response
#[derive(Debug)]
pub struct ChangePasswordRes;

/// Generate new recovery codes: request
#[derive(Debug)]
pub struct GenerateRecoveryCodesReq {
    pub sudo_token: String,
    pub access_token: String,
}

/// Generate new recovery codes: response
#[derive(Debug)]
pub struct GenerateRecoveryCodesRes {
    pub recovery_codes: Vec<String>,
}

/// Change email: request
#[derive(Debug)]
pub struct ChangeEmailReq {
    pub sudo_token: String,
    pub access_token: String,
    pub new_email: String,
}

impl ChangeEmailReq {
    /// Validates `new_email` by the `email` rule.
    pub fn validate(&self) -> (r: Result<(), ValidationErrors>)
        ensures
            outcome_texts(r) == field_outcome("new_email"@, email_rule_errors(is_valid_email(self.new_email@))),
    {
        validate_email_field("new_email", &self.new_email)
    }
}

/// Change email: response
#[derive(Debug)]
pub struct ChangeEmailRes;

/// Verify email: request
#[derive(Debug)]
pub struct VerifyEmailReq {
    pub access_token: String,
    pub session_token: String,
    pub verification_code: String,
}

/// Verify email: response
#[derive(Debug)]
pub struct VerifyEmailRes;

/// Change 2FA status: request
#[derive(Debug)]
pub struct ChangeTwoFactorStatusReq {
    pub sudo_token: String,
    pub access_token: String,
    pub enable_2fa: bool,
}

/// Change 2FA status: response
#[derive(Debug)]
pub struct ChangeTwoFactorStatusRes;

/// Add recovery email: request
#[derive(Debug)]
pub struct AddRecoveryEmailReq {
    pub sudo_token: String,
    pub access_token: String,
    pub recovery_email: String,
}

impl AddRecoveryEmailReq {
    /// Validates `recovery_email` by the `email` rule.
    pub fn validate(&self) -> (r: Result<(), ValidationErrors>)
        ensures
            outcome_texts(r) == field_outcome(
                "recovery_email"@,
                email_rule_errors(is_valid_email(self.recovery_email@)),
            ),
    {
        validate_email_field("recovery_email", &self.recovery_email)
    }
}

/// Add recovery email: response
#[derive(Debug)]
pub struct AddRecoveryEmailRes;

/// Verify recovery email: request
#[derive(Debug)]
pub struct VerifyRecoveryEmailReq {
    pub access_token: String,
    pub verification_code: String,
}

/// Verify recovery email: response
#[derive(Debug)]
pub struct VerifyRecoveryEmailRes;

/// Remove recovery email: request
#[derive(Debug)]
pub struct RemoveRecoveryEmailReq {
    pub sudo_token: String,
    pub access_token: String,
    pub recovery_email: String,
}

/// Remove recovery email: response
#[derive(Debug)]
pub struct RemoveRecoveryEmailRes;

} // verus!
