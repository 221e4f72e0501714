use auth_microservice::dto::auth::password_resets::{ChangePasswordReq, ForgotPasswordReq};
use auth_microservice::dto::auth::security_management::{AddRecoveryEmailReq, ChangeEmailReq};
use auth_microservice::dto::auth::signin::InitEmailReq;
use auth_microservice::dto::auth::signup::{ResendEmailCodeReq, SetEmailReq, SetPasswordReq};
use auth_microservice::dto::validation::{
    email_field_result, ValidationError, ValidationErrors, ValidationErrorsKind,
};
use auth_microservice::errors::app_error::AppError;
use auth_microservice::models::auth::sessions::DeviceInfo;

fn single_field(errs: &ValidationErrors) -> (String, Vec<(String, Option<String>)>) {
    assert_eq!(errs.0.len(), 1);
    let (field, kind) = &errs.0[0];
    match kind {
        ValidationErrorsKind::Field(v) => {
            (field.clone(), v.iter().map(|e| (e.code.clone(), e.message.clone())).collect())
        }
        _ => panic!("expected field errors"),
    }
}

#[test]
fn valid_email_passes() {
    let req = ForgotPasswordReq { email: "user@example.com".to_string() };
    assert!(req.validate().is_ok());
    let req = SetEmailReq { session_token: "t".to_string(), email: "a.b+c@sub.example.org".to_string() };
    assert!(req.validate().is_ok());
}

#[test]
fn invalid_email_reports_the_field_with_code_email() {
    let req = ChangeEmailReq {
        sudo_token: "s".to_string(),
        access_token: "a".to_string(),
        new_email: "not-an-email".to_string(),
    };
    let errs = req.validate().unwrap_err();
    let (field, codes) = single_field(&errs);
    assert_eq!(field, "new_email");
    assert_eq!(codes, vec![("email".to_string(), None)]);
    let req = AddRecoveryEmailReq {
        sudo_token: "s".to_string(),
        access_token: "a".to_string(),
        recovery_email: String::new(),
    };
    assert_eq!(single_field(&req.validate().unwrap_err()).0, "recovery_email");
    let req = InitEmailReq {
        device_info: DeviceInfo::default(),
        scopes: vec![],
        final_redirect_url: None,
        email: "user@".to_string(),
    };
    assert_eq!(single_field(&req.validate().unwrap_err()).0, "email");
}

#[test]
fn email_failure_reaches_the_client_without_field_errors() {
    let req = ForgotPasswordReq { email: "nobody".to_string() };
    let e = AppError::from_validation_errors(req.validate().unwrap_err());
    assert!(e == AppError::ValidationError(vec![]));
}

#[test]
fn email_field_result_follows_the_check() {
    assert!(email_field_result("email", true).is_ok());
    let (field, codes) = single_field(&email_field_result("email", false).unwrap_err());
    assert_eq!(field, "email");
    assert_eq!(codes, vec![("email".to_string(), None)]);
}

#[test]
fn password_length_bounds() {
    let at = |p: &str| SetPasswordReq { session_token: "t".to_string(), password: p.to_string() };
    assert!(at("12345678").validate(Ok(())).is_ok());
    assert!(at(&"x".repeat(128)).validate(Ok(())).is_ok());
    let (field, codes) = single_field(&at("1234567").validate(Ok(())).unwrap_err());
    assert_eq!(field, "password");
    assert_eq!(codes, vec![("length".to_string(), None)]);
    assert!(at(&"x".repeat(129)).validate(Ok(())).is_err());
    // characters, not bytes, are counted
    assert!(at("ééééééé").validate(Ok(())).is_err());
    assert!(at("éééééééé").validate(Ok(())).is_ok());
}

#[test]
fn password_rule_runs_before_length() {
    let req = ChangePasswordReq {
        access_token: "a".to_string(),
        old_password: "old".to_string(),
        new_password: "short".to_string(),
    };
    let rule = Err(ValidationError { code: "weak".to_string(), message: Some("Too weak".to_string()) });
    let errs = req.validate(rule).unwrap_err();
    let (field, codes) = single_field(&errs);
    assert_eq!(field, "new_password");
    assert_eq!(
        codes,
        vec![("weak".to_string(), Some("Too weak".to_string())), ("length".to_string(), None)]
    );
    let e = AppError::from_validation_errors(errs);
    assert_eq!(e.to_string(), "Validation Errors: [ApiError { field: \"new_password\", message: \"Too weak\" }]");
}

#[test]
fn request_without_rules_always_validates() {
    assert!(ResendEmailCodeReq { session_token: String::new() }.validate().is_ok());
}
