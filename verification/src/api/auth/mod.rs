//! The decisions of the authentication endpoints.

pub mod sessions;
pub mod user_management;
