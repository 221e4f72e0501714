//! The decisions of the HTTP endpoints: what they answer for the results they get.

use vstd::prelude::*;

use crate::dto::{errors_view, ApiErrorResponse, ApiResponse};

pub mod auth;

verus! {

/// A success envelope with the given message and data.
pub fn success<T>(message: &str, data: Option<T>) -> (r: ApiResponse<T>)
    ensures
        r.status@ == "success"@,
        r.message@ == message@,
        r.data == data,
{
    ApiResponse { status: String::from_str("success"), message: String::from_str(message), data }
}

/// What a request to an unknown route is answered with: 404 and a plain "Not Found".
pub fn default_route_response() -> (r: (u16, ApiErrorResponse))
    ensures
        r.0 == 404,
        r.1.status@ == "error"@,
        r.1.message@ == "Not Found"@,
        errors_view(r.1.errors) is None,
{
    let res = ApiErrorResponse {
        status: String::from_str("error"),
        message: String::from_str("Not Found"),
        errors: None,
    };
    (404, res)
}

} // verus!
