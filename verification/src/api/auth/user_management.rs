//! User management endpoints.

use vstd::prelude::*;

use crate::api::success;
use crate::dto::ApiResponse;
use crate::errors::app_error::AppError;
use crate::models::auth::users::{MidFieldsUser, MinFieldsUser};

verus! {

/// The answer to listing users: no users is "no content", else the list.
pub fn users_response(users: Vec<MinFieldsUser>) -> (r: Result<ApiResponse<Vec<MinFieldsUser>>, AppError>)
    ensures
        users@.len() == 0 ==> (r matches Err(AppError::NoContent(m)) && m@ == "There are no users"@),
        users@.len() > 0 ==> (r matches Ok(resp) && resp.status@ == "success"@
            && resp.message@ == "Users fetched successfully"@ && resp.data == Some(users)),
{
    if users.len() == 0 {
        return Err(AppError::NoContent(String::from_str("There are no users")));
    }
    Ok(success("Users fetched successfully", Some(users)))
}

/// The answer to reading one user: a missing user is not found, naming the id.
pub fn user_response(user: Option<MidFieldsUser>, id: &str) -> (r: Result<ApiResponse<MidFieldsUser>, AppError>)
    ensures
        user is None ==> (r matches Err(AppError::NotFound(m)) && m@ == "User with id "@ + id@ + " not found"@),
        user matches Some(u) ==> (r matches Ok(resp) && resp.status@ == "success"@
            && resp.message@ == "User fetched successfully"@ && resp.data == Some(u)),
{
    match user {
        Some(u) => Ok(success("User fetched successfully", Some(u))),
        None => {
            let mut m = String::from_str("User with id ");
            m.append(id);
            m.append(" not found");
            Err(AppError::NotFound(m))
        },
    }
}

} // verus!
