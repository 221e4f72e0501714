use auth_microservice::config::{flag_from, port_from, AppConfig, ConfigError, EmailSenderConfig, EnvValues};

fn base() -> EnvValues {
    EnvValues {
        port: None,
        pg_url: Some("postgres://db".to_string()),
        redis_url: Some("redis://cache".to_string()),
        secret: Some("s3".to_string()),
        sudo_secret: None,
        hash_secret: None,
        require_email_confirmation: None,
        enable_email_reset: None,
        email_sender_type: Some("debug".to_string()),
        smtp_url: None,
        smtp_from_name: None,
        smtp_from_email: None,
    }
}

#[test]
fn defaults_apply_when_optional_values_are_unset() {
    let c = AppConfig::from_env_values(base()).unwrap();
    assert_eq!(c.port, 8000);
    assert_eq!(c.pg_url, "postgres://db");
    assert_eq!(c.redis_url, "redis://cache");
    assert_eq!(c.secret_key, "s3");
    assert_eq!(c.sudo_secret_key, "s3");
    assert_eq!(c.hash_secret, "s3");
    assert!(c.require_email_confirmation);
    assert!(c.enable_email_reset);
    assert!(matches!(c.email_sender, EmailSenderConfig::Debug));
}

#[test]
fn given_values_override_defaults() {
    let mut v = base();
    v.port = Some("9090".to_string());
    v.sudo_secret = Some("sudo".to_string());
    v.hash_secret = Some("hash".to_string());
    v.require_email_confirmation = Some("false".to_string());
    v.enable_email_reset = Some("true".to_string());
    let c = AppConfig::from_env_values(v).unwrap();
    assert_eq!(c.port, 9090);
    assert_eq!(c.sudo_secret_key, "sudo");
    assert_eq!(c.hash_secret, "hash");
    assert!(!c.require_email_confirmation);
    assert!(c.enable_email_reset);
}

#[test]
fn port_parsing_follows_u16_from_str() {
    assert_eq!(port_from(&Some("+80".to_string())), 80);
    assert_eq!(port_from(&Some("0".to_string())), 0);
    assert_eq!(port_from(&Some("65535".to_string())), 65535);
    assert_eq!(port_from(&Some("65536".to_string())), 8000);
    assert_eq!(port_from(&Some("-1".to_string())), 8000);
    assert_eq!(port_from(&Some(" 80".to_string())), 8000);
    assert_eq!(port_from(&Some("+".to_string())), 8000);
    assert_eq!(port_from(&Some(String::new())), 8000);
    assert_eq!(port_from(&None), 8000);
}

#[test]
fn flags_are_off_only_for_false() {
    assert!(!flag_from(&Some("false".to_string())));
    assert!(flag_from(&Some("true".to_string())));
    assert!(flag_from(&Some("FALSE".to_string())));
    assert!(flag_from(&Some("0".to_string())));
    assert!(flag_from(&None));
}

#[test]
fn required_variables_are_reported_in_order() {
    let mut v = base();
    v.pg_url = None;
    v.secret = None;
    assert!(matches!(AppConfig::from_env_values(v), Err(ConfigError::Missing(n)) if n == "PG_URL"));
    let mut v = base();
    v.redis_url = None;
    assert!(matches!(AppConfig::from_env_values(v), Err(ConfigError::Missing(n)) if n == "REDIS_URL"));
    let mut v = base();
    v.secret = None;
    assert!(matches!(AppConfig::from_env_values(v), Err(ConfigError::Missing(n)) if n == "SECRET"));
    let mut v = base();
    v.email_sender_type = None;
    assert!(matches!(AppConfig::from_env_values(v), Err(ConfigError::Missing(n)) if n == "EMAIL_SENDER_TYPE"));
}

#[test]
fn unknown_sender_type_is_refused() {
    let mut v = base();
    v.email_sender_type = Some("rabbitmq".to_string());
    assert!(matches!(AppConfig::from_env_values(v), Err(ConfigError::UnknownEmailSender)));
}

#[test]
fn smtp_sender_needs_url_and_a_valid_address() {
    let mut v = base();
    v.email_sender_type = Some("smtp".to_string());
    assert!(matches!(AppConfig::from_env_values(v.clone()), Err(ConfigError::Missing(n)) if n == "SMTP_URL"));
    v.smtp_url = Some("smtp://mail".to_string());
    assert!(matches!(AppConfig::from_env_values(v.clone()), Err(ConfigError::Missing(n)) if n == "SMTP_FROM_EMAIL"));
    v.smtp_from_email = Some("no-at-sign".to_string());
    assert!(matches!(AppConfig::from_env_values(v.clone()), Err(ConfigError::InvalidFromEmail)));
    v.smtp_from_email = Some("noreply@example.com".to_string());
    v.smtp_from_name = Some(String::new());
    match AppConfig::from_env_values(v.clone()).unwrap().email_sender {
        EmailSenderConfig::Smtp { smtp_url, from_name, from_email } => {
            assert_eq!(smtp_url, "smtp://mail");
            assert_eq!(from_name, None);
            assert_eq!(from_email.to_string(), "noreply@example.com");
        }
        EmailSenderConfig::Debug => panic!("expected smtp"),
    }
    v.smtp_from_name = Some("Auth".to_string());
    match AppConfig::from_env_values(v).unwrap().email_sender {
        EmailSenderConfig::Smtp { from_name, .. } => assert_eq!(from_name, Some("Auth".to_string())),
        EmailSenderConfig::Debug => panic!("expected smtp"),
    }
}
