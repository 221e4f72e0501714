//! Session endpoints.

use vstd::prelude::*;

use crate::api::success;
use crate::dto::auth::sessions::RefreshTokenRes;
use crate::dto::{errors_view, ApiErrorResponse, ApiResponse};
use crate::errors::app_error::{response_message_of, response_status_of, status_code_of, AppError};

verus! {

/// The answer to a token check, given whether the access token has expired: an expired
/// token is refused with 401 and "Access token is expired!", a live one is confirmed.
pub fn check_token_response(expired: bool) -> (r: Result<ApiResponse<RefreshTokenRes>, AppError>)
    ensures
        !expired ==> (r matches Ok(resp) && resp.status@ == "success"@
            && resp.message@ == "Access token is not expired"@ && resp.data is None),
        expired ==> (r matches Err(AppError::Custom(c)) && c.1 == 401 && c.0.status@ == "error"@
            && c.0.message@ == "Access token is expired!"@ && errors_view(c.0.errors) is None),
{
    if expired {
        let err_resp = ApiErrorResponse {
            status: String::from_str("error"),
            message: String::from_str("Access token is expired!"),
            errors: None,
        };
        return Err(AppError::Custom((err_resp, 401)));
    }
    Ok(success("Access token is not expired", None))
}

/// A refused expired token reaches the client as a 401 whose body says the token expired.
pub proof fn lemma_expired_token_is_unauthorized(e: AppError)
    requires
        e matches AppError::Custom(c) && c.1 == 401 && c.0.status@ == "error"@
            && c.0.message@ == "Access token is expired!"@,
    ensures
        status_code_of(e) == 401,
        response_status_of(e) == "error"@,
        response_message_of(e) == "Access token is expired!"@,
{
}

} // verus!
