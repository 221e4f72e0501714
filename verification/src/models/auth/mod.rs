pub mod email_verification;
pub mod password_reset;
pub mod recovery_codes;
pub mod recovery_emails;
pub mod reset_auth;
pub mod sessions;
pub mod signin;
pub mod signup;
pub mod sudo_tokens;
pub mod tokens;
pub mod users;
pub mod utils;
