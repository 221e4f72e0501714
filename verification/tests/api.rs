use auth_microservice::api::auth::sessions::check_token_response;
use auth_microservice::api::auth::user_management::{user_response, users_response};
use auth_microservice::api::{default_route_response, success};
use auth_microservice::common::UtcDateTime;
use auth_microservice::errors::app_error::AppError;
use auth_microservice::models::auth::users::{MidFieldsUser, MinFieldsUser};

#[test]
fn unknown_route_is_not_found() {
    let (code, body) = default_route_response();
    assert_eq!(code, 404);
    assert_eq!(body.status, "error");
    assert_eq!(body.message, "Not Found");
    assert!(body.errors.is_none());
}

#[test]
fn success_envelope() {
    let r = success("done", Some(5u8));
    assert_eq!(r.status, "success");
    assert_eq!(r.message, "done");
    assert_eq!(r.data, Some(5));
}

#[test]
fn expired_token_is_refused_with_401() {
    let err = check_token_response(true).unwrap_err();
    let (code, body) = err.error_response();
    assert_eq!(code, 401);
    assert_eq!(body.status, "error");
    assert_eq!(body.message, "Access token is expired!");
    let ok = check_token_response(false).unwrap();
    assert_eq!(ok.status, "success");
    assert_eq!(ok.message, "Access token is not expired");
    assert!(ok.data.is_none());
}

#[test]
fn empty_user_list_is_no_content() {
    let err = users_response(vec![]).unwrap_err();
    assert!(err == AppError::NoContent("There are no users".to_string()));
    assert_eq!(err.error_response().0, 404);
    let one = MinFieldsUser {
        id: uuid::Uuid::nil(),
        email: "a@b.c".to_string(),
        first_name: "A".to_string(),
        last_name: "B".to_string(),
    };
    let ok = users_response(vec![one]).unwrap();
    assert_eq!(ok.message, "Users fetched successfully");
    assert_eq!(ok.data.unwrap().len(), 1);
}

#[test]
fn missing_user_names_the_id() {
    let err = user_response(None, "42").unwrap_err();
    assert!(err == AppError::NotFound("User with id 42 not found".to_string()));
    let user = MidFieldsUser {
        id: uuid::Uuid::nil(),
        email: "a@b.c".to_string(),
        first_name: "A".to_string(),
        last_name: "B".to_string(),
        is_verified: true,
        is_two_factor: false,
        updated_at: UtcDateTime { secs: 0, nanos: 0 },
        created_at: UtcDateTime { secs: 0, nanos: 0 },
    };
    let ok = user_response(Some(user), "42").unwrap();
    assert_eq!(ok.message, "User fetched successfully");
    assert_eq!(ok.data.unwrap().email, "a@b.c");
}
