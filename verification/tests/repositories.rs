use auth_microservice::dto::auth::user_management::UpdateUserReq;
use auth_microservice::repositories::auth::users::user_update_assignments;
use auth_microservice::repositories::parse_id;
use auth_microservice::common::UtcDateTime;
use auth_microservice::errors::db_error::DbError;
use auth_microservice::models::auth::password_reset::{PasswordReset, PwdResetData, PwdResetState};
use auth_microservice::models::auth::sessions::DeviceInfo;
use auth_microservice::models::auth::signup::{SignUpData, SignUpSession, SignUpState};
use auth_microservice::repositories::auth::email_verification::{verification_key, verification_ttl_seconds};
use auth_microservice::repositories::auth::password_reset::{
    delete_outcome, increment_attempts as reset_increment, password_reset_key, password_reset_ttl_seconds,
};
use auth_microservice::repositories::auth::recovery_codes::{delete_all_by_user_outcome, delete_by_id_outcome};
use auth_microservice::repositories::auth::recovery_emails::delete_with_id_outcome;
use auth_microservice::repositories::auth::reset_auth::{new_reset_auth, reset_auth_key, reset_auth_ttl_seconds};
use auth_microservice::repositories::auth::signin::{signin_key, signin_ttl_seconds};
use auth_microservice::repositories::auth::signup::{
    increment_attempts, signup_key, signup_ttl_seconds, update_code, update_data,
};
use auth_microservice::repositories::auth::tokens::{days_in_seconds, session_ttl_seconds, token_session_key};
use auth_microservice::repositories::redis_key;

fn session() -> SignUpSession {
    let mut s = SignUpSession::default();
    s.verification_code = "111111".to_string();
    s.attempts = 3;
    s.stage = SignUpState::EmailVerificationStage;
    s
}

#[test]
fn keys_join_prefix_and_id_with_a_colon() {
    assert_eq!(redis_key("p", "id"), "p:id");
    assert_eq!(signup_key("abc"), "signup:abc");
    assert_eq!(signin_key("abc"), "signin:abc");
    assert_eq!(token_session_key("rt"), "session:rt");
    assert_eq!(verification_key("t"), "email_verification:t");
    assert_eq!(reset_auth_key("t"), "reset_auth:t");
    assert_eq!(password_reset_key("t"), "password_reset:t");
    assert_ne!(signup_key("x"), signin_key("x"));
}

#[test]
fn lifetimes_in_seconds() {
    assert_eq!(signup_ttl_seconds(), 1200);
    assert_eq!(signin_ttl_seconds(), 1200);
    assert_eq!(verification_ttl_seconds(), 600);
    assert_eq!(reset_auth_ttl_seconds(), 300);
    assert_eq!(password_reset_ttl_seconds(), 900);
    assert_eq!(days_in_seconds(7), 604800);
    assert_eq!(days_in_seconds(0), 0);
}

#[test]
fn token_session_ttl_wraps_for_past_instants() {
    assert_eq!(session_ttl_seconds(1_000_100, 1_000_000), 100);
    assert_eq!(session_ttl_seconds(5, 5), 0);
    assert_eq!(session_ttl_seconds(999, 1000), u64::MAX);
    assert_eq!(session_ttl_seconds(990, 1000), (990i64 - 1000i64) as u64);
}

#[test]
fn update_code_sets_code_and_resets_attempts() {
    let n = update_code(Some(session()), "222222").unwrap();
    assert_eq!(n.verification_code, "222222");
    assert_eq!(n.attempts, 0);
    assert_eq!(n.stage, SignUpState::EmailVerificationStage);
    assert!(matches!(update_code(None, "x"), Err(DbError::NotFound(m)) if m == "Signup session is not found"));
}

#[test]
fn increment_counts_one_more_attempt() {
    let n = increment_attempts(Some(session())).unwrap();
    assert_eq!(n.attempts, 4);
    assert_eq!(n.verification_code, "111111");
    let fresh = increment_attempts(Some(update_code(Some(session()), "9").unwrap())).unwrap();
    assert_eq!(fresh.attempts, 1);
    assert!(matches!(increment_attempts(None), Err(DbError::NotFound(_))));
}

#[test]
fn update_data_replaces_only_the_data() {
    let data = SignUpData {
        email: Some("a@b.c".to_string()),
        password: None,
        first_name: Some("Ann".to_string()),
        last_name: None,
        last_resent_code_at: Some(UtcDateTime { secs: 1_700_000_000, nanos: 5 }),
    };
    let n = update_data(Some(session()), data).unwrap();
    assert_eq!(n.data.email, Some("a@b.c".to_string()));
    assert_eq!(n.data.first_name, Some("Ann".to_string()));
    assert_eq!(n.data.last_resent_code_at, Some(UtcDateTime { secs: 1_700_000_000, nanos: 5 }));
    assert_eq!(n.attempts, 3);
    assert_eq!(n.verification_code, "111111");
    assert!(matches!(update_data(None, SignUpData::default()), Err(DbError::NotFound(m)) if m == "Signup session is not found"));
}

#[test]
fn password_reset_attempts_and_deletion() {
    let r = PasswordReset {
        scopes: vec![],
        final_redirect_url: None,
        data: PwdResetData::default(),
        device_info: DeviceInfo::default(),
        stage: PwdResetState::EmailVerificationStage,
        otp_code: "123".to_string(),
        attempts: 0,
    };
    let n = reset_increment(Some(r)).unwrap();
    assert_eq!(n.attempts, 1);
    assert_eq!(n.otp_code, "123");
    assert!(matches!(reset_increment(None), Err(DbError::NotFound(m)) if m == "Password reset session not found"));
    assert!(delete_outcome(1).is_ok());
    assert!(matches!(delete_outcome(0), Err(DbError::NotFound(m)) if m == "Password reset session not found"));
}

#[test]
fn deleting_nothing_is_not_found() {
    assert!(delete_by_id_outcome(1).is_ok());
    assert!(matches!(delete_by_id_outcome(0), Err(DbError::NotFound(m)) if m == "No recovery codes found"));
    assert!(delete_all_by_user_outcome(3).is_ok());
    assert!(matches!(delete_all_by_user_outcome(0), Err(DbError::NotFound(m)) if m == "No recovery codes found for the user"));
    assert!(delete_with_id_outcome(2).is_ok());
    assert!(matches!(delete_with_id_outcome(0), Err(DbError::NotFound(m)) if m == "No recovery codes found"));
}

#[test]
fn reset_auth_record_holds_the_user() {
    assert_eq!(new_reset_auth("u-1").user_id, "u-1");
}

#[test]
fn rotated_token_gets_a_different_key() {
    assert_ne!(token_session_key("old-token"), token_session_key("new-token"));
    assert_eq!(token_session_key("same"), token_session_key("same"));
}

#[test]
fn identifiers_parse_or_fail_as_unknown() {
    let u = parse_id("67e55044-10b1-426f-9247-bb680e5fe0c8").unwrap();
    assert_eq!(u.to_string(), "67e55044-10b1-426f-9247-bb680e5fe0c8");
    let text = uuid::Uuid::parse_str("nope").unwrap_err().to_string();
    assert!(matches!(parse_id("nope"), Err(DbError::Unknown(m)) if m == text));
}

#[test]
fn profile_update_sets_given_names_in_order() {
    let both = UpdateUserReq { access_token: "t".to_string(), first_name: Some("Ann".to_string()), last_name: Some("Lee".to_string()) };
    assert_eq!(
        user_update_assignments(&both),
        vec![("first_name".to_string(), "Ann".to_string()), ("last_name".to_string(), "Lee".to_string())]
    );
    let last = UpdateUserReq { access_token: "t".to_string(), first_name: None, last_name: Some("Lee".to_string()) };
    assert_eq!(user_update_assignments(&last), vec![("last_name".to_string(), "Lee".to_string())]);
    let none = UpdateUserReq { access_token: "t".to_string(), first_name: None, last_name: None };
    assert!(user_update_assignments(&none).is_empty());
}
