//! Changing a forgotten or known password.

use vstd::prelude::*;

use crate::dto::validation::{
    email_rule_errors, field_outcome, is_valid_email, outcome_texts, password_rule_errors,
    refused_with, rule_error, validate_email_field, validate_password_field, ValidationError,
    ValidationErrors, PASSWORD_MAX_LENGTH, PASSWORD_MIN_LENGTH,
};

verus! {

/// Change password: request
#[derive(Debug)]
pub struct ChangePasswordReq {
    pub access_token: String,
    pub old_password: String,
    pub new_password: String,
}

impl ChangePasswordReq {
    /// Validates `new_password` by the project's password rule, whose outcome is given,
    /// and by `length(min = 8, max = 128)`.
    pub fn validate(&self, password_rule: Result<(), ValidationError>) -> (r: Result<(), ValidationErrors>)
        ensures
            outcome_texts(r) == field_outcome(
                "new_password"@,
                password_rule_errors(password_rule, self.new_password@.len()),
            ),
            password_rule matches Err(e) ==> refused_with(outcome_texts(r), "new_password"@, e.texts()),
            !(PASSWORD_MIN_LENGTH <= self.new_password@.len() <= PASSWORD_MAX_LENGTH) ==> refused_with(
                outcome_texts(r),
                "new_password"@,
                rule_error("length"@),
            ),
            (password_rule is Ok && PASSWORD_MIN_LENGTH <= self.new_password@.len() <= PASSWORD_MAX_LENGTH)
                ==> r is Ok,
    {
        validate_password_field("new_password", &self.new_password, password_rule)
    }
}

/// Change password: response
pub struct ChangePasswordRes;

/// Forgot password: request
#[derive(Debug)]
pub struct ForgotPasswordReq {
    pub email: String,
}

impl ForgotPasswordReq {
    /// Validates `email` by the `email` rule.
    pub fn validate(&self) -> (r: Result<(), ValidationErrors>)
        ensures
            outcome_texts(r) == field_outcome("email"@, email_rule_errors(is_valid_email(self.email@))),
    {
        validate_email_field("email", &self.email)
    }
}

/// Forgot password: response
pub struct ForgotPasswordRes {
    pub session_token: String,
}

} // verus!
