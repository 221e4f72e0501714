//! Users and the column sets in which they are read.

use vstd::prelude::*;

use crate::common::UtcDateTime;

verus! {

/// users table
#[derive(Debug)]
pub struct User {
    pub id: uuid::Uuid,
    pub email: String,
    pub password: String,
    pub first_name: String,
    pub last_name: String,
    pub is_verified: bool,
    pub is_two_factor: bool,
    /// after how many days of inactivity the user will be marked as inactive
    pub days_to_inactive: i32,
    pub updated_at: UtcDateTime,
    pub created_at: UtcDateTime,
}

/// A user as shown to the user.
#[derive(Debug)]
pub struct MidFieldsUser {
    pub id: uuid::Uuid,
    pub email: String,
    pub first_name: String,
    pub last_name: String,
    pub is_verified: bool,
    pub is_two_factor: bool,
    pub updated_at: UtcDateTime,
    pub created_at: UtcDateTime,
}

/// A user as listed.
#[derive(Debug)]
pub struct MinFieldsUser {
    pub id: uuid::Uuid,
    pub email: String,
    pub first_name: String,
    pub last_name: String,
}

} // verus!
