//! Per-store computations of the authentication repositories.

pub mod email_verification;
pub mod password_reset;
pub mod recovery_codes;
pub mod recovery_emails;
pub mod reset_auth;
pub mod signin;
pub mod signup;
pub mod tokens;
pub mod users;
