//! Stored records and the enumerations of the authentication flows.

pub mod auth;
