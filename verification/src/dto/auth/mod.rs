//! Requests and responses of the authentication endpoints.

pub mod password_resets;
pub mod security_management;
pub mod sessions;
pub mod signin;
pub mod signup;
pub mod user_management;
pub mod utils;
