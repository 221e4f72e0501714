use bb8_redis::bb8::RunError;
use bb8_redis::redis::{ErrorKind as RedisKind, RedisError};
use jsonwebtoken::errors::{Error as JwtError, ErrorKind as JwtKind};
use auth_microservice::dto::validation::{ValidationError, ValidationErrors, ValidationErrorsKind};
use auth_microservice::dto::{ApiError, ApiErrorResponse};
use auth_microservice::errors::app_error::{AppError, JwtErrorKind};
use auth_microservice::errors::db_error::{DbError, SqlxErrorKind};
use auth_microservice::errors::hash_error::HashError;
use auth_microservice::errors::message_sender_error::MessageSenderError;

fn api_error(field: &str, message: &str) -> ApiError {
    ApiError { field: field.to_string(), message: message.to_string() }
}

#[test]
fn app_error_equality_is_by_variant_and_content() {
    assert!(AppError::NotFound("a".to_string()) == AppError::NotFound("a".to_string()));
    assert!(AppError::NotFound("a".to_string()) != AppError::NotFound("b".to_string()));
    assert!(AppError::NotFound("a".to_string()) != AppError::NoContent("a".to_string()));
    assert!(AppError::ExpiredAccessToken == AppError::ExpiredAccessToken);
    let v1 = AppError::ValidationError(vec![api_error("email", "bad")]);
    let v2 = AppError::ValidationError(vec![api_error("email", "bad")]);
    let v3 = AppError::ValidationError(vec![api_error("email", "worse")]);
    assert!(v1 == v2);
    assert!(v1 != v3);
}

#[test]
fn custom_error_equals_nothing_not_even_itself() {
    let resp = ApiErrorResponse { status: "error".to_string(), message: "m".to_string(), errors: None };
    let c = AppError::Custom((resp, 401));
    assert!(c != c);
}

#[test]
fn app_error_text_per_variant() {
    assert_eq!(AppError::NoContent("x".to_string()).to_string(), "No Content: x");
    assert_eq!(AppError::BadRequest("x".to_string()).to_string(), "Bad Request: x");
    assert_eq!(AppError::Unauthorized("x".to_string()).to_string(), "Unauthorized: x");
    assert_eq!(AppError::NotFound("x".to_string()).to_string(), "Not Found: x");
    assert_eq!(AppError::InternalServerError("x".to_string()).to_string(), "Internal Server Error: x");
    assert_eq!(AppError::Other("x".to_string()).to_string(), "Other Error: x");
    assert_eq!(AppError::ExpiredAccessToken.to_string(), "Access Token expired");
    let errs = vec![api_error("email", "bad")];
    assert_eq!(
        AppError::ValidationError(errs.clone()).to_string(),
        format!("Validation Errors: {:?}", errs)
    );
    assert_eq!(
        AppError::ValidationError(errs).to_string(),
        "Validation Errors: [ApiError { field: \"email\", message: \"bad\" }]"
    );
    let resp = ApiErrorResponse { status: "error".to_string(), message: "m".to_string(), errors: None };
    assert_eq!(
        AppError::Custom((resp, 401)).to_string(),
        "(ApiErrorResponse { status: \"error\", message: \"m\", errors: None }, 401)"
    );
}

#[test]
fn error_response_status_and_body() {
    let (code, body) = AppError::NoContent("none".to_string()).error_response();
    assert_eq!(code, 404);
    assert_eq!(body.status, "error");
    assert_eq!(body.message, "none");
    assert_eq!(body.errors.map(|e| e.len()), Some(0));
    assert_eq!(AppError::BadRequest("b".to_string()).error_response().0, 400);
    assert_eq!(AppError::Unauthorized("u".to_string()).error_response().0, 401);
    assert_eq!(AppError::NotFound("n".to_string()).error_response().0, 404);
    assert_eq!(AppError::InternalServerError("i".to_string()).error_response().0, 500);
    assert_eq!(AppError::Other("o".to_string()).error_response().0, 500);
    let (code, body) = AppError::ExpiredAccessToken.error_response();
    assert_eq!(code, 401);
    assert_eq!(body.message, "Access token has expired");
    let (code, body) = AppError::ValidationError(vec![api_error("f", "m")]).error_response();
    assert_eq!(code, 400);
    assert_eq!(body.message, "Validation error");
    assert!(body.errors == Some(vec![api_error("f", "m")]));
    let resp = ApiErrorResponse { status: "custom".to_string(), message: "c".to_string(), errors: None };
    let (code, body) = AppError::Custom((resp, 418)).error_response();
    assert_eq!(code, 418);
    assert_eq!(body.status, "custom");
    assert_eq!(body.message, "c");
    assert!(body.errors.is_none());
}

#[test]
fn db_error_maps_into_app_error() {
    assert!(AppError::from(DbError::NotFound("n".to_string())) == AppError::NotFound("n".to_string()));
    assert!(AppError::from(DbError::ConnectionError("c".to_string())) == AppError::InternalServerError("c".to_string()));
    assert!(AppError::from(DbError::Timeout("t".to_string())) == AppError::InternalServerError("t".to_string()));
    assert!(AppError::from(DbError::FromDatabase("d".to_string())) == AppError::BadRequest("d".to_string()));
    assert!(AppError::from(DbError::Unknown("u".to_string())) == AppError::InternalServerError("u".to_string()));
    assert!(AppError::from(DbError::QueryError("q".to_string())) == AppError::InternalServerError("q".to_string()));
}

#[test]
fn hash_error_maps_into_app_error() {
    assert!(AppError::from(HashError::InvalidHash("h".to_string())) == AppError::BadRequest("h".to_string()));
    assert!(AppError::from(HashError::HashingFailed("h".to_string())) == AppError::InternalServerError("h".to_string()));
    assert!(AppError::from(HashError::Other("h".to_string())) == AppError::InternalServerError("h".to_string()));
}

#[test]
fn app_error_maps_into_db_error() {
    assert!(matches!(DbError::from_app_error(AppError::NotFound("n".to_string())), DbError::NotFound(m) if m == "n"));
    assert!(matches!(DbError::from_app_error(AppError::NoContent("n".to_string())), DbError::NotFound(m) if m == "n"));
    assert!(matches!(DbError::from_app_error(AppError::BadRequest("b".to_string())), DbError::Unknown(m) if m == "Bad Request: b"));
    assert!(matches!(DbError::from_app_error(AppError::ExpiredAccessToken), DbError::Unknown(m) if m == "Access Token expired"));
}

#[test]
fn not_found_survives_a_round_trip() {
    let back = DbError::from_app_error(AppError::from(DbError::NotFound("gone".to_string())));
    assert!(matches!(back, DbError::NotFound(m) if m == "gone"));
    let again = AppError::from(DbError::from_app_error(AppError::NoContent("none".to_string())));
    assert!(again == AppError::NotFound("none".to_string()));
}

#[test]
fn jwt_errors_map_by_kind() {
    let e = JwtError::from(JwtKind::InvalidToken);
    assert!(AppError::from_jwt_error(&e) == AppError::Unauthorized("Invalid token".to_string()));
    let e = JwtError::from(JwtKind::InvalidIssuer);
    assert!(AppError::from_jwt_error(&e) == AppError::Unauthorized("Invalid issuer".to_string()));
    let e = JwtError::from(JwtKind::ExpiredSignature);
    assert!(AppError::from_jwt_error(&e) == AppError::ExpiredAccessToken);
    let e = JwtError::from(JwtKind::InvalidSignature);
    assert!(AppError::from_jwt_error(&e) == AppError::InternalServerError(e.to_string()));
    assert!(AppError::from_jwt_parts(JwtErrorKind::Other, "t".to_string()) == AppError::InternalServerError("t".to_string()));
}

#[test]
fn bcrypt_and_json_errors_are_internal() {
    let e = bcrypt::BcryptError::CostNotAllowed(3);
    assert!(AppError::from_bcrypt_error(&e) == AppError::InternalServerError(e.to_string()));
    let e = serde_json::from_str::<u8>("x").unwrap_err();
    assert!(AppError::from_json_error(&e) == AppError::InternalServerError(e.to_string()));
}

#[test]
fn validation_errors_keep_only_messages_in_order() {
    let errs = ValidationErrors(vec![
        (
            "password".to_string(),
            ValidationErrorsKind::Field(vec![
                ValidationError { code: "weak".to_string(), message: Some("Too weak".to_string()) },
                ValidationError { code: "length".to_string(), message: None },
                ValidationError { code: "digits".to_string(), message: Some("Needs digits".to_string()) },
            ]),
        ),
        ("nested".to_string(), ValidationErrorsKind::Struct),
        (
            "email".to_string(),
            ValidationErrorsKind::Field(vec![ValidationError { code: "email".to_string(), message: Some("Bad email".to_string()) }]),
        ),
    ]);
    let e = AppError::from_validation_errors(errs);
    assert!(
        e == AppError::ValidationError(vec![
            api_error("password", "Too weak"),
            api_error("password", "Needs digits"),
            api_error("email", "Bad email"),
        ])
    );
}

#[test]
fn sqlx_errors_map_by_variant() {
    assert!(matches!(DbError::from_sqlx_error(&sqlx::Error::RowNotFound), DbError::NotFound(m) if m == "Row not found"));
    assert!(matches!(DbError::from_sqlx_error(&sqlx::Error::Protocol("p".to_string())), DbError::ConnectionError(m) if m == "p"));
    assert!(matches!(DbError::from_sqlx_error(&sqlx::Error::ColumnNotFound("c".to_string())), DbError::NotFound(m) if m == "c"));
    let io = std::io::Error::new(std::io::ErrorKind::Other, "disk");
    assert!(matches!(DbError::from_sqlx_error(&sqlx::Error::Io(io)), DbError::FromDatabase(m) if m == "disk"));
    let e = sqlx::Error::PoolTimedOut;
    let text = e.to_string();
    assert!(matches!(DbError::from_sqlx_error(&e), DbError::Unknown(m) if m == text));
    assert!(matches!(DbError::from_sqlx_parts(SqlxErrorKind::Tls, "t".to_string()), DbError::ConnectionError(m) if m == "t"));
    assert!(matches!(DbError::from_sqlx_parts(SqlxErrorKind::Database, "d".to_string()), DbError::FromDatabase(m) if m == "d"));
    assert!(matches!(DbError::from_sqlx_parts(SqlxErrorKind::Configuration, "c".to_string()), DbError::ConnectionError(m) if m == "c"));
}

#[test]
fn redis_errors_map_by_kind() {
    let e = RedisError::from((RedisKind::AuthenticationFailed, "denied"));
    let expected = format!("Redis Authentication Failed {}", e);
    assert!(matches!(DbError::from_redis_error(&e), DbError::ConnectionError(m) if m == expected));
    let e = RedisError::from((RedisKind::Parse, "garbled"));
    let expected = format!("Redis Error {}", e);
    assert!(matches!(DbError::from_redis_error(&e), DbError::Unknown(m) if m == expected));
}

#[test]
fn pool_errors_map_by_variant() {
    let t: RunError<RedisError> = RunError::TimedOut;
    assert!(matches!(DbError::from_pool_error(&t), DbError::Timeout(m) if m == "Redis operation timed out"));
    let inner = RedisError::from((RedisKind::Io, "broken"));
    let text = inner.to_string();
    let u: RunError<RedisError> = RunError::User(inner);
    assert!(matches!(DbError::from_pool_error(&u), DbError::ConnectionError(m) if m == text));
    let t: RunError<bb8_redis::RedisConnectionManager> = RunError::TimedOut;
    assert!(matches!(DbError::from_manager_pool_error(&t), DbError::Timeout(m) if m == "Redis connection timed out"));
    let manager = bb8_redis::RedisConnectionManager::new("redis://127.0.0.1/").unwrap();
    let u: RunError<bb8_redis::RedisConnectionManager> = RunError::User(manager);
    assert!(matches!(DbError::from_manager_pool_error(&u), DbError::ConnectionError(m) if m == "User error in Redis connection manager"));
}

#[test]
fn uuid_errors_are_unknown() {
    let e = uuid::Uuid::parse_str("not-a-uuid").unwrap_err();
    assert!(matches!(DbError::from_uuid_error(&e), DbError::Unknown(m) if m == e.to_string()));
}

#[test]
fn argon2_errors_map_by_variant() {
    let e = argon2::password_hash::Error::Password;
    assert!(matches!(HashError::from_argon2_error(&e), HashError::InvalidHash(m) if m == "Invalid password"));
    let e = argon2::password_hash::Error::Crypto;
    assert!(matches!(HashError::from_argon2_error(&e), HashError::Other(m) if m == e.to_string()));
}

#[test]
fn lettre_errors_keep_their_text() {
    let e = lettre::error::Error::MissingFrom;
    assert!(matches!(MessageSenderError::from_lettre_error(&e), MessageSenderError::Other(m) if m == "missing source address, invalid envelope"));
}
