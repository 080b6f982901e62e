use rustpress_auth::config::AuthConfig;
use rustpress_auth::error::{AuthError, ConfigFault};

fn sample_config(secret: String) -> AuthConfig {
    AuthConfig {
        jwt_secret: secret,
        access_token_expiration: 900,
        refresh_token_expiration: 604800,
        jwt_issuer: "test".to_string(),
        jwt_audience: "test".to_string(),
        argon2_memory_cost: 65536,
        argon2_time_cost: 3,
        argon2_parallelism: 4,
        max_login_attempts: 5,
        lockout_duration: 900,
        password_reset_expiration: 3600,
        email_verification_expiration: 86400,
        min_password_length: 8,
        require_email_verification: false,
    }
}

#[test]
fn test_config_validation() {
    let config = sample_config("a".repeat(32));
    assert!(config.validate().is_ok());
}

#[test]
fn test_config_validation_short_secret() {
    let config = sample_config("short".to_string());
    assert!(config.validate().is_err());
}

#[test]
fn config_faults_are_named_in_order() {
    let short = sample_config("a".repeat(31));
    assert_eq!(short.validate(), Err(AuthError::Config(ConfigFault::ShortSecret)));

    let mut config = sample_config("a".repeat(32));
    config.access_token_expiration = 0;
    assert_eq!(config.validate(), Err(AuthError::Config(ConfigFault::AccessExpirationNotPositive)));

    let mut config = sample_config("a".repeat(32));
    config.refresh_token_expiration = 900;
    assert_eq!(config.validate(), Err(AuthError::Config(ConfigFault::RefreshNotLongerThanAccess)));

    let mut config = sample_config("a".repeat(32));
    config.min_password_length = 7;
    assert_eq!(config.validate(), Err(AuthError::Config(ConfigFault::ShortMinimumPassword)));
}

#[test]
fn secret_length_counts_bytes() {
    // Sixteen two-byte characters make 32 bytes.
    let config = sample_config("é".repeat(16));
    assert!(config.validate().is_ok());
}

#[test]
fn defaults_with_secret() {
    let config = AuthConfig::with_secret("s".repeat(40));
    assert_eq!(config.access_token_expiration, 900);
    assert_eq!(config.refresh_token_expiration, 604800);
    assert_eq!(config.jwt_issuer, "rustpress");
    assert_eq!(config.jwt_audience, "rustpress-api");
    assert_eq!(config.argon2_memory_cost, 65536);
    assert_eq!(config.argon2_time_cost, 3);
    assert_eq!(config.argon2_parallelism, 4);
    assert_eq!(config.max_login_attempts, 5);
    assert_eq!(config.lockout_duration, 900);
    assert_eq!(config.password_reset_expiration, 3600);
    assert_eq!(config.email_verification_expiration, 86400);
    assert_eq!(config.min_password_length, 8);
    assert!(!config.require_email_verification);
    assert!(config.validate().is_ok());
}
