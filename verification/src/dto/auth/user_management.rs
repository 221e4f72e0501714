//! Deleting and updating one's own account.

use vstd::prelude::*;

verus! {

/// Delete user: request
#[derive(Debug)]
pub struct DeleteUserReq {
    pub access_token: String,
    pub refresh_token: String,
}

/// Update user: request
#[derive(Debug)]
pub struct UpdateUserReq {
    pub access_token: String,
    pub first_name: Option<String>,
    pub last_name: Option<String>,
}

} // verus!
