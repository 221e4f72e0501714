use auth_microservice::models::auth::sessions::DeviceInfo;
use auth_microservice::models::auth::signin::{SignInSession, SignInState};
use auth_microservice::models::auth::signup::{SignUpSession, SignUpState};
use auth_microservice::models::auth::password_reset::PwdResetState;
use auth_microservice::models::auth::utils::Scope;

#[test]
fn one_of_maps_every_requestable_name() {
    assert_eq!(Scope::one_of(&"openid".to_string()), Some(Scope::OpenId));
    assert_eq!(Scope::one_of(&"profile".to_string()), Some(Scope::Profile));
    assert_eq!(Scope::one_of(&"email".to_string()), Some(Scope::Email));
    assert_eq!(Scope::one_of(&"offline_access".to_string()), Some(Scope::OfflineAccess));
}

#[test]
fn one_of_refuses_sudo_mode_and_unknown_names() {
    assert_eq!(Scope::one_of(&"sudo_mode".to_string()), None);
    assert_eq!(Scope::one_of(&"OpenId".to_string()), None);
    assert_eq!(Scope::one_of(&"openid ".to_string()), None);
    assert_eq!(Scope::one_of(&String::new()), None);
}

#[test]
fn default_flows_start_at_their_first_stage() {
    let signin = SignInSession::default();
    assert_eq!(signin.flow.stage, SignInState::InitWithEmailStage);
    assert_eq!(signin.flow.incorrect_attempts, 0);
    assert!(signin.flow.available_methods.is_empty());
    assert!(signin.data.code.is_none());
    let signup = SignUpSession::default();
    assert_eq!(signup.stage, SignUpState::InitStage);
    assert_eq!(signup.attempts, 0);
    assert!(signup.verification_code.is_empty());
    assert_eq!(PwdResetState::default(), PwdResetState::InitWithEmailStage);
}

#[test]
fn device_info_equality_compares_both_fields() {
    let a = DeviceInfo { ip_address: "1.2.3.4".to_string(), user_agent: "curl".to_string() };
    let b = DeviceInfo { ip_address: "1.2.3.4".to_string(), user_agent: "curl".to_string() };
    let c = DeviceInfo { ip_address: "1.2.3.4".to_string(), user_agent: "wget".to_string() };
    assert!(a == b);
    assert!(a != c);
    let d = DeviceInfo::default();
    assert!(d.ip_address.is_empty() && d.user_agent.is_empty());
}
