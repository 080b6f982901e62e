use rustpress_auth::config::AuthConfig;
use rustpress_auth::encoding::base64_url_encode;
use rustpress_auth::error::{AuthError, ValidationFault};
use rustpress_auth::models::{UserRole, UserStatus};
use rustpress_auth::requests::{
    ChangePasswordRequest, LoginRequest, RegisterRequest, ResetPasswordRequest,
};
use rustpress_auth::responses::ForgotPasswordResponse;
use rustpress_auth::service::AuthService;
use rustpress_auth::session::Entropy;
use rustpress_auth::store::SecretStore;
use rustpress_auth::token::split_refresh_token;

fn config(require_verification: bool) -> AuthConfig {
    AuthConfig {
        jwt_secret: "0123456789abcdef0123456789abcdef".to_string(),
        access_token_expiration: 900,
        refresh_token_expiration: 604800,
        jwt_issuer: "rustpress".to_string(),
        jwt_audience: "rustpress-api".to_string(),
        argon2_memory_cost: 64,
        argon2_time_cost: 1,
        argon2_parallelism: 1,
        max_login_attempts: 5,
        lockout_duration: 900,
        password_reset_expiration: 3600,
        email_verification_expiration: 86400,
        min_password_length: 8,
        require_email_verification: require_verification,
    }
}

fn service(require_verification: bool) -> AuthService {
    AuthService::new(config(require_verification))
}

fn registration(email: &str, password: &str, confirm: &str, name: &str) -> RegisterRequest {
    RegisterRequest {
        email: email.to_string(),
        password: password.to_string(),
        password_confirm: confirm.to_string(),
        name: name.to_string(),
    }
}

fn credentials(email: &str, password: &str) -> LoginRequest {
    LoginRequest { email: email.to_string(), password: password.to_string() }
}

fn entropy(id: u128, jti: u128, fill: u8) -> Entropy {
    Entropy { id, jti, secret: vec![fill; 32], salt: "c29tZXNhbHRzb21lc2FsdA".to_string() }
}

const T0: i64 = 1_700_000_000;

/// Eight bytes in five characters, with an uppercase letter, lowercase
/// letters and a digit.
const STRONG_BUT_SHORT: &str = "Aé1éé";

#[test]
fn hash_then_verify() {
    let auth = service(false);
    let digest = auth.hash_password("Secret123").unwrap();
    assert!(digest.starts_with("$argon2id$v=19$m=64,t=1,p=1$"));
    assert!(auth.verify_password("Secret123", &digest));
    let other = auth.hash_password("Other1234").unwrap();
    assert!(!auth.verify_password("Secret123", &other));
    assert!(!auth.verify_password("secret123", &digest));
}

#[test]
fn hash_draws_a_fresh_salt() {
    let auth = service(false);
    let first = auth.hash_password("Secret123").unwrap();
    let second = auth.hash_password("Secret123").unwrap();
    assert_ne!(first, second);
}

#[test]
fn hash_with_salt_is_a_function_of_its_inputs() {
    let auth = service(false);
    let first = auth.hash_password_with_salt("Secret123", "c29tZXNhbHRzb21lc2FsdA").unwrap();
    let second = auth.hash_password_with_salt("Secret123", "c29tZXNhbHRzb21lc2FsdA").unwrap();
    assert_eq!(first, second);
    assert!(first.starts_with("$argon2id$v=19$m=64,t=1,p=1$c29tZXNhbHRzb21lc2FsdA$"));
    assert!(auth.verify_password("Secret123", &first));
}

#[test]
fn hash_refuses_bad_parameters() {
    let mut settings = config(false);
    settings.argon2_memory_cost = 1;
    let auth = AuthService::new(settings);
    assert_eq!(auth.hash_password("Secret123"), Err(AuthError::Internal));

    let mut settings = config(false);
    settings.argon2_parallelism = 0x0100_0000;
    let auth = AuthService::new(settings);
    assert_eq!(auth.hash_password("Secret123"), Err(AuthError::Internal));

    let auth = service(false);
    assert_eq!(auth.hash_password_with_salt("Secret123", "!"), Err(AuthError::Internal));
}

#[test]
fn verify_fails_closed_on_malformed_digest() {
    let auth = service(false);
    assert!(!auth.verify_password("Secret123", ""));
    assert!(!auth.verify_password("Secret123", "not a digest"));
    assert!(!auth.verify_password("Secret123", "$argon2id$v=19$m=64,t=1,p=1$"));
}

#[test]
fn password_strength_policy() {
    let auth = service(false);
    assert_eq!(auth.validate_password("Secret123"), Ok(()));
    assert_eq!(auth.validate_password("Secr123"), Err(AuthError::WeakPassword));
    assert_eq!(auth.validate_password("secret123"), Err(AuthError::WeakPassword));
    assert_eq!(auth.validate_password("SECRET123"), Err(AuthError::WeakPassword));
    assert_eq!(auth.validate_password("SecretSecret"), Err(AuthError::WeakPassword));
    assert_eq!(auth.validate_password(""), Err(AuthError::WeakPassword));
    // Letters beyond ASCII count by their Unicode case.
    assert_eq!(auth.validate_password("Émile1234"), Ok(()));
    assert_eq!(auth.validate_password("ÉMILé1234"), Ok(()));
}

#[test]
fn token_digest_is_sha256_in_hex() {
    let auth = service(false);
    assert_eq!(
        auth.hash_token("abc"),
        "ba7816bf8f01cfea414140de5dae2223b00361a396177a9cb410ff61f20015ad"
    );
    assert_eq!(
        auth.hash_token(""),
        "e3b0c44298fc1c149afbf4c8996fb92427ae41e4649b934ca495991b7852b855"
    );
}

#[test]
fn random_token_is_64_hex_digits() {
    let auth = service(false);
    let first = auth.generate_random_token();
    let second = auth.generate_random_token();
    assert_eq!(first.len(), 64);
    assert!(first.chars().all(|c| c.is_ascii_digit() || ('a'..='f').contains(&c)));
    assert_ne!(first, second);
}

#[test]
fn hex_encoding() {
    assert_eq!(base64_url_encode(&[]), "");
    assert_eq!(base64_url_encode(&[0x00, 0x0f, 0xa5, 0xff]), "000fa5ff");
    assert_eq!(base64_url_encode(&[0xde, 0xad, 0xbe, 0xef]), "deadbeef");
}

#[test]
fn register_scenario_pending_when_verification_required() {
    let auth = service(true);
    let mut store = SecretStore::new();
    let user = auth
        .register(&mut store, registration("a@b.com", "Secret123", "Secret123", "Ann"), T0)
        .unwrap();
    assert_eq!(user.status, UserStatus::Pending);
    assert_eq!(user.email, "a@b.com");
    assert_eq!(user.name, "Ann");
    assert_eq!(user.role, UserRole::User);
    assert_eq!(user.failed_login_attempts, 0);
    assert_eq!(user.email_verified_at, None);
    assert_eq!(user.created_at, T0);
    assert!(auth.verify_password("Secret123", &user.password_hash));
    assert_eq!(store.users.len(), 1);
    assert_eq!(store.users.find_by_email("a@b.com").unwrap().id, user.id);
}

#[test]
fn register_active_when_verification_not_required() {
    let auth = service(false);
    let mut store = SecretStore::new();
    let user = auth
        .register(&mut store, registration("a@b.com", "Secret123", "Secret123", "Ann"), T0)
        .unwrap();
    assert_eq!(user.status, UserStatus::Active);
}

#[test]
fn register_rejections() {
    let auth = service(false);
    let mut store = SecretStore::new();
    assert_eq!(
        auth.register(&mut store, registration("a@b.com", "Secret123", "Secret124", "Ann"), T0)
            .unwrap_err(),
        AuthError::Validation(ValidationFault::PasswordMismatch)
    );
    // A weak password is weak, however short it is.
    assert_eq!(
        auth.register(&mut store, registration("a@b.com", "Sec1", "Sec1", "Ann"), T0).unwrap_err(),
        AuthError::WeakPassword
    );
    assert_eq!(
        auth.register(&mut store, registration("a@b.com", "short", "short", "Ann"), T0)
            .unwrap_err(),
        AuthError::WeakPassword
    );
    assert_eq!(
        auth.register(&mut store, registration("a@b.com", "secretsecret", "secretsecret", "Ann"), T0)
            .unwrap_err(),
        AuthError::WeakPassword
    );
    assert_eq!(store.users.len(), 0);

    auth.register(&mut store, registration("a@b.com", "Secret123", "Secret123", "Ann"), T0).unwrap();
    assert_eq!(
        auth.register(&mut store, registration("A@B.COM", "Secret123", "Secret123", "Bob"), T0)
            .unwrap_err(),
        AuthError::EmailExists
    );
    // A taken email is reported as such whatever the shape of the rest.
    assert_eq!(
        auth.register(&mut store, registration("A@B.COM", STRONG_BUT_SHORT, STRONG_BUT_SHORT, ""), T0)
            .unwrap_err(),
        AuthError::EmailExists
    );
    // A weak password comes before a taken email.
    assert_eq!(
        auth.register(&mut store, registration("a@b.com", "short", "short", "Bob"), T0)
            .unwrap_err(),
        AuthError::WeakPassword
    );
    assert_eq!(store.users.len(), 1);
}

#[test]
fn the_strength_policy_counts_bytes() {
    assert_eq!(STRONG_BUT_SHORT.len(), 8);
    assert_eq!(STRONG_BUT_SHORT.chars().count(), 5);
    let auth = service(false);
    assert_eq!(auth.validate_password(STRONG_BUT_SHORT), Ok(()));
    let mut store = SecretStore::new();
    let user = auth
        .register(
            &mut store,
            registration("a@b.com", STRONG_BUT_SHORT, STRONG_BUT_SHORT, "Ann"),
            T0,
        )
        .unwrap();
    assert!(auth.verify_password(STRONG_BUT_SHORT, &user.password_hash));
}

#[test]
fn register_stores_the_email_in_lowercase() {
    let auth = service(false);
    let mut store = SecretStore::new();
    let user = auth
        .register(&mut store, registration("Ann@Example.COM", "Secret123", "Secret123", "Ann"), T0)
        .unwrap();
    assert_eq!(user.email, "ann@example.com");
    let answer = auth
        .login(&mut store, credentials("ANN@example.com", "Secret123"), None, None, T0 + 1)
        .unwrap();
    assert_eq!(answer.user.email, "ann@example.com");
}

#[test]
fn register_with_taken_id_is_an_internal_error() {
    let auth = service(false);
    let mut store = SecretStore::new();
    let req = registration("a@b.com", "Secret123", "Secret123", "Ann");
    auth.register_with(&mut store, &req, T0, &entropy(7, 1, 1)).unwrap();
    let other = registration("c@d.com", "Secret123", "Secret123", "Cy");
    assert_eq!(
        auth.register_with(&mut store, &other, T0, &entropy(7, 2, 2)).unwrap_err(),
        AuthError::Internal
    );
    assert_eq!(store.users.len(), 1);
}

#[test]
fn login_success_and_answer() {
    let auth = service(false);
    let mut store = SecretStore::new();
    let user = auth
        .register(&mut store, registration("a@b.com", "Secret123", "Secret123", "Ann"), T0)
        .unwrap();
    let answer = auth
        .login(
            &mut store,
            credentials("a@b.com", "Secret123"),
            Some("10.0.0.1".to_string()),
            Some("agent".to_string()),
            T0 + 10,
        )
        .unwrap();
    assert_eq!(answer.token_type, "Bearer");
    assert_eq!(answer.expires_in, 900);
    assert_eq!(answer.user.id, user.id);
    assert_eq!(answer.user.name, "Ann");
    assert!(!answer.user.email_verified);

    let stored = store.users.find_by_id(user.id).unwrap();
    assert_eq!(stored.last_login_at, Some(T0 + 10));
    assert_eq!(stored.last_login_ip, Some("10.0.0.1".to_string()));
    assert_eq!(stored.failed_login_attempts, 0);

    assert_eq!(store.refresh_tokens.len(), 1);
    let record = store.refresh_tokens.get(0);
    assert_eq!(record.user_id, user.id);
    assert_eq!(record.expires_at, T0 + 10 + 604800);
    assert_eq!(record.issued_at, T0 + 10);
    assert_eq!(record.revoked_at, None);
    assert_eq!(record.ip_address, Some("10.0.0.1".to_string()));
    assert_eq!(record.user_agent, Some("agent".to_string()));

    // Only the digest of the secret is stored.
    let (_, secret) = split_refresh_token(&answer.refresh_token).unwrap();
    assert_eq!(secret.len(), 64);
    assert_eq!(record.token_hash, auth.hash_token(&secret));
    assert_ne!(record.token_hash, secret);

    let claims = auth.validate_access_token(&answer.access_token, T0 + 11).unwrap();
    assert_eq!(claims.sub, user.id);
    assert_eq!(claims.email, "a@b.com");
    assert_eq!(claims.name, "Ann");
    assert_eq!(claims.role, "user");
    assert_eq!(claims.iat, T0 + 10);
    assert_eq!(claims.exp, T0 + 10 + 900);
    assert_eq!(claims.iss, "rustpress");
    assert_eq!(claims.aud, "rustpress-api");
}

#[test]
fn login_unknown_email_and_wrong_password_give_the_same_error() {
    let auth = service(false);
    let mut store = SecretStore::new();
    auth.register(&mut store, registration("a@b.com", "Secret123", "Secret123", "Ann"), T0).unwrap();
    assert_eq!(
        auth.login(&mut store, credentials("x@y.com", "Secret123"), None, None, T0).unwrap_err(),
        AuthError::InvalidCredentials
    );
    assert_eq!(
        auth.login(&mut store, credentials("a@b.com", "Wrong1234"), None, None, T0).unwrap_err(),
        AuthError::InvalidCredentials
    );
}

#[test]
fn login_pending_account_is_refused() {
    let auth = service(true);
    let mut store = SecretStore::new();
    auth.register(&mut store, registration("a@b.com", "Secret123", "Secret123", "Ann"), T0).unwrap();
    assert_eq!(
        auth.login(&mut store, credentials("a@b.com", "Secret123"), None, None, T0).unwrap_err(),
        AuthError::EmailNotVerified
    );
}

#[test]
fn lockout_scenario() {
    let auth = service(false);
    let mut store = SecretStore::new();
    let user = auth
        .register(&mut store, registration("a@b.com", "Secret123", "Secret123", "Ann"), T0)
        .unwrap();
    for n in 0..5 {
        let now = T0 + n;
        assert_eq!(
            auth.login(&mut store, credentials("a@b.com", "Wrong1234"), None, None, now)
                .unwrap_err(),
            AuthError::InvalidCredentials
        );
        let stored = store.users.find_by_id(user.id).unwrap();
        assert_eq!(stored.failed_login_attempts, (n + 1) as i32);
        if n < 4 {
            assert_eq!(stored.locked_until, None);
        } else {
            assert_eq!(stored.locked_until, Some(T0 + 4 + 900));
        }
    }
    // The sixth attempt is refused though the password is right.
    assert_eq!(
        auth.login(&mut store, credentials("a@b.com", "Secret123"), None, None, T0 + 5)
            .unwrap_err(),
        AuthError::AccountLocked
    );
    assert_eq!(
        auth.login(&mut store, credentials("a@b.com", "Secret123"), None, None, T0 + 4 + 899)
            .unwrap_err(),
        AuthError::AccountLocked
    );
    assert_eq!(store.users.find_by_id(user.id).unwrap().failed_login_attempts, 5);
    // Once the window has passed the right password logs in and resets the counter.
    let answer =
        auth.login(&mut store, credentials("a@b.com", "Secret123"), None, None, T0 + 4 + 900);
    assert!(answer.is_ok());
    let stored = store.users.find_by_id(user.id).unwrap();
    assert_eq!(stored.failed_login_attempts, 0);
    assert_eq!(stored.locked_until, None);
}

#[test]
fn rotation_scenario() {
    let auth = service(false);
    let mut store = SecretStore::new();
    let user = auth
        .register(&mut store, registration("a@b.com", "Secret123", "Secret123", "Ann"), T0)
        .unwrap();
    let login =
        auth.login(&mut store, credentials("a@b.com", "Secret123"), None, None, T0 + 1).unwrap();
    let first = login.refresh_token.clone();

    let refreshed = auth.refresh_tokens(&mut store, &first, None, None, T0 + 2).unwrap();
    assert_eq!(refreshed.token_type, "Bearer");
    assert_eq!(refreshed.expires_in, 900);
    assert_ne!(refreshed.refresh_token, first);
    assert_eq!(store.refresh_tokens.len(), 2);
    let old = store.refresh_tokens.get(0);
    let new = store.refresh_tokens.get(1);
    assert_eq!(old.revoked_at, Some(T0 + 2));
    assert_eq!(old.replaced_by, Some(new.id));
    assert_eq!(new.revoked_at, None);
    assert_eq!(new.user_id, user.id);
    let claims = auth.validate_access_token(&refreshed.access_token, T0 + 2).unwrap();
    assert_eq!(claims.sub, user.id);

    // Presenting the first token again is reuse.
    assert_eq!(
        auth.refresh_tokens(&mut store, &first, None, None, T0 + 3).unwrap_err(),
        AuthError::TokenRevoked
    );
    assert_eq!(store.refresh_tokens.len(), 2);
    assert_eq!(store.refresh_tokens.get(0).revoked_at, Some(T0 + 2));
    assert_eq!(store.refresh_tokens.get(1).revoked_at, Some(T0 + 3));
    // The successor was never misused, and is revoked all the same.
    assert_eq!(
        auth.refresh_tokens(&mut store, &refreshed.refresh_token, None, None, T0 + 4).unwrap_err(),
        AuthError::TokenRevoked
    );
}

#[test]
fn refresh_rejects_what_is_no_valid_token() {
    let auth = service(false);
    let mut store = SecretStore::new();
    auth.register(&mut store, registration("a@b.com", "Secret123", "Secret123", "Ann"), T0).unwrap();
    let login =
        auth.login(&mut store, credentials("a@b.com", "Secret123"), None, None, T0 + 1).unwrap();
    let (statement, secret) = split_refresh_token(&login.refresh_token).unwrap();

    assert_eq!(
        auth.refresh_tokens(&mut store, "no-dot-at-all", None, None, T0 + 2).unwrap_err(),
        AuthError::InvalidToken
    );
    // A wrong secret with a good statement.
    let forged = format!("{}.{}", statement, "00".repeat(32));
    assert_eq!(
        auth.refresh_tokens(&mut store, &forged, None, None, T0 + 2).unwrap_err(),
        AuthError::InvalidToken
    );
    // A good secret with a statement signed under another key.
    let mut other_settings = config(false);
    other_settings.jwt_secret = "another-secret-another-secret-xx".to_string();
    let other = AuthService::new(other_settings);
    let stranger = other.sign_refresh_statement(1, 2, T0).unwrap();
    let forged = format!("{}.{}", stranger, secret);
    assert_eq!(
        auth.refresh_tokens(&mut store, &forged, None, None, T0 + 2).unwrap_err(),
        AuthError::InvalidToken
    );
    // An access token is no refresh statement.
    let forged = format!("{}.{}", login.access_token, secret);
    assert_eq!(
        auth.refresh_tokens(&mut store, &forged, None, None, T0 + 2).unwrap_err(),
        AuthError::InvalidToken
    );
    // Nothing was revoked by any of these.
    assert_eq!(store.refresh_tokens.get(0).revoked_at, None);
    // The record expires with the token.
    assert_eq!(
        auth.refresh_tokens(&mut store, &login.refresh_token, None, None, T0 + 1 + 604800)
            .unwrap_err(),
        AuthError::InvalidToken
    );
    assert!(auth
        .refresh_tokens(&mut store, &login.refresh_token, None, None, T0 + 604800)
        .is_ok());
}

#[test]
fn refresh_of_a_locked_account_is_refused() {
    let auth = service(false);
    let mut store = SecretStore::new();
    auth.register(&mut store, registration("a@b.com", "Secret123", "Secret123", "Ann"), T0).unwrap();
    let login =
        auth.login(&mut store, credentials("a@b.com", "Secret123"), None, None, T0).unwrap();
    for n in 0..5 {
        let _ = auth.login(&mut store, credentials("a@b.com", "Wrong1234"), None, None, T0 + n);
    }
    assert_eq!(
        auth.refresh_tokens(&mut store, &login.refresh_token, None, None, T0 + 10).unwrap_err(),
        AuthError::AccountNotActive
    );
}

#[test]
fn refresh_with_is_a_function_of_its_inputs() {
    let auth = service(false);
    let mut store = SecretStore::new();
    let req = registration("a@b.com", "Secret123", "Secret123", "Ann");
    auth.register_with(&mut store, &req, T0, &entropy(1, 0, 0)).unwrap();
    let login = auth
        .login_with(&mut store, &credentials("a@b.com", "Secret123"), None, None, T0, &entropy(10, 11, 0xaa))
        .unwrap();
    assert!(login.refresh_token.ends_with(&format!(".{}", "aa".repeat(32))));
    assert_eq!(store.refresh_tokens.get(0).id, 10);
    let refreshed = auth
        .refresh_tokens_with(&mut store, &login.refresh_token, None, None, T0 + 1, &entropy(20, 21, 0xbb))
        .unwrap();
    assert!(refreshed.refresh_token.ends_with(&format!(".{}", "bb".repeat(32))));
    assert_eq!(store.refresh_tokens.get(0).replaced_by, Some(20));
    assert_eq!(store.refresh_tokens.get(1).id, 20);
    // A taken id makes issuing fail and leaves the presented token valid.
    let again = auth.refresh_tokens_with(
        &mut store,
        &refreshed.refresh_token,
        None,
        None,
        T0 + 2,
        &entropy(10, 22, 0xcc),
    );
    assert_eq!(again.unwrap_err(), AuthError::Internal);
    assert_eq!(store.refresh_tokens.len(), 2);
    assert_eq!(store.refresh_tokens.get(1).revoked_at, None);
}

#[test]
fn logout_is_idempotent() {
    let auth = service(false);
    let mut store = SecretStore::new();
    auth.register(&mut store, registration("a@b.com", "Secret123", "Secret123", "Ann"), T0).unwrap();
    let login =
        auth.login(&mut store, credentials("a@b.com", "Secret123"), None, None, T0).unwrap();
    assert_eq!(auth.logout(&mut store, &login.refresh_token, T0 + 5), Ok(()));
    assert_eq!(store.refresh_tokens.get(0).revoked_at, Some(T0 + 5));
    assert_eq!(auth.logout(&mut store, &login.refresh_token, T0 + 9), Ok(()));
    assert_eq!(store.refresh_tokens.get(0).revoked_at, Some(T0 + 5));
    // An expired statement still logs out; a forged one does not.
    assert_eq!(auth.logout(&mut store, &login.refresh_token, T0 + 10_000_000), Ok(()));
    assert_eq!(auth.logout(&mut store, "abc.def", T0), Err(AuthError::InvalidToken));
    assert_eq!(auth.logout(&mut store, "nodot", T0), Err(AuthError::InvalidToken));
    // A token that was logged out cannot be refreshed.
    assert_eq!(
        auth.refresh_tokens(&mut store, &login.refresh_token, None, None, T0 + 6).unwrap_err(),
        AuthError::TokenRevoked
    );
}

#[test]
fn access_token_validation() {
    let auth = service(false);
    let mut store = SecretStore::new();
    auth.register(&mut store, registration("a@b.com", "Secret123", "Secret123", "Ann"), T0).unwrap();
    let login =
        auth.login(&mut store, credentials("a@b.com", "Secret123"), None, None, T0).unwrap();
    let token = login.access_token;
    assert!(auth.validate_access_token(&token, T0 + 900).is_ok());
    // Honoured for the leeway of 60 seconds after its expiry, and no longer.
    assert!(auth.validate_access_token(&token, T0 + 900 + 60).is_ok());
    assert_eq!(
        auth.validate_access_token(&token, T0 + 900 + 61).unwrap_err(),
        AuthError::InvalidToken
    );
    assert_eq!(auth.validate_access_token("garbage", T0).unwrap_err(), AuthError::InvalidToken);
    let mut tampered = token.clone();
    tampered.pop();
    tampered.push(if token.ends_with('A') { 'B' } else { 'A' });
    assert_eq!(auth.validate_access_token(&tampered, T0).unwrap_err(), AuthError::InvalidToken);

    let mut other_settings = config(false);
    other_settings.jwt_audience = "someone-else".to_string();
    let other = AuthService::new(other_settings);
    assert_eq!(other.validate_access_token(&token, T0).unwrap_err(), AuthError::InvalidToken);
    let mut other_settings = config(false);
    other_settings.jwt_issuer = "someone-else".to_string();
    let other = AuthService::new(other_settings);
    assert_eq!(other.validate_access_token(&token, T0).unwrap_err(), AuthError::InvalidToken);
    let mut other_settings = config(false);
    other_settings.jwt_secret = "another-secret-another-secret-xx".to_string();
    let other = AuthService::new(other_settings);
    assert_eq!(other.validate_access_token(&token, T0).unwrap_err(), AuthError::InvalidToken);
    // The statement of a refresh token is no access token.
    let (statement, _) = split_refresh_token(&login.refresh_token).unwrap();
    assert_eq!(auth.validate_access_token(&statement, T0).unwrap_err(), AuthError::InvalidToken);
}

#[test]
fn signing_is_a_function_of_its_inputs() {
    let auth = service(false);
    let mut store = SecretStore::new();
    let req = registration("a@b.com", "Secret123", "Secret123", "Ann");
    let user = auth.register_with(&mut store, &req, T0, &entropy(0x1234, 0, 0)).unwrap();
    let first = auth.sign_access_token(&user, T0, 99).unwrap();
    let second = auth.sign_access_token(&user, T0, 99).unwrap();
    assert_eq!(first, second);
    assert_ne!(first, auth.sign_access_token(&user, T0, 100).unwrap());
    let claims = auth.validate_access_token(&first, T0).unwrap();
    assert_eq!(claims.sub, 0x1234);
    assert_eq!(claims.jti, 99);
    let statement = auth.sign_refresh_statement(0x1234, 0x5678, T0).unwrap();
    let read = auth.decode_refresh_token(&statement, T0).unwrap();
    assert_eq!(read.sub, 0x1234);
    assert_eq!(read.tid, 0x5678);
    assert_eq!(read.iat, T0);
    assert_eq!(read.exp, T0 + 604800);
    assert_eq!(read.iss, "rustpress");
    assert_eq!(
        auth.decode_refresh_token(&statement, T0 + 604800 + 61).unwrap_err(),
        AuthError::InvalidToken
    );
    assert!(auth.read_refresh_statement(&statement, T0 + 604800 + 61, false).is_ok());
}

#[test]
fn refresh_token_alone() {
    let auth = service(false);
    let mut store = SecretStore::new();
    let token = auth.generate_refresh_token(&mut store, 77, None, Some("ua".to_string()), T0).unwrap();
    let (statement, secret) = split_refresh_token(&token).unwrap();
    let claims = auth.decode_refresh_token(&statement, T0).unwrap();
    assert_eq!(claims.sub, 77);
    let record = store.refresh_tokens.find_by_id(claims.tid).unwrap();
    assert_eq!(record.user_id, 77);
    assert_eq!(record.token_hash, auth.hash_token(&secret));
    assert_eq!(record.user_agent, Some("ua".to_string()));
    // The ids and secrets of two tokens differ.
    let other = auth.generate_refresh_token(&mut store, 77, None, None, T0).unwrap();
    assert_ne!(token, other);
    assert_eq!(store.refresh_tokens.len(), 2);
    assert!(auth.revoke_refresh_token(&mut store, claims.tid, None, T0 + 1));
    assert!(!auth.revoke_refresh_token(&mut store, claims.tid, None, T0 + 2));
    auth.revoke_all_user_tokens(&mut store, 77, T0 + 3);
    assert_eq!(store.refresh_tokens.get(0).revoked_at, Some(T0 + 1));
    assert_eq!(store.refresh_tokens.get(1).revoked_at, Some(T0 + 3));
}

#[test]
fn deleting_an_account_removes_what_it_owns() {
    let auth = service(false);
    let mut store = SecretStore::new();
    let ann = auth
        .register(&mut store, registration("a@b.com", "Secret123", "Secret123", "Ann"), T0)
        .unwrap();
    let bob = auth
        .register(&mut store, registration("c@d.com", "Secret123", "Secret123", "Bob"), T0)
        .unwrap();
    auth.login(&mut store, credentials("a@b.com", "Secret123"), None, None, T0).unwrap();
    let kept =
        auth.login(&mut store, credentials("c@d.com", "Secret123"), None, None, T0).unwrap();
    auth.login(&mut store, credentials("a@b.com", "Secret123"), None, None, T0 + 1).unwrap();
    auth.forgot_password(&mut store, "a@b.com", T0).unwrap();
    auth.forgot_password(&mut store, "c@d.com", T0).unwrap();
    auth.create_email_verification(&mut store, ann.id, T0).unwrap();

    assert!(!store.delete_user(ann.id ^ bob.id ^ 1));
    assert_eq!(store.users.len(), 2);
    assert!(store.delete_user(ann.id));
    assert!(!store.delete_user(ann.id));
    assert_eq!(store.users.len(), 1);
    assert_eq!(store.users.get(0).id, bob.id);
    assert_eq!(store.refresh_tokens.len(), 1);
    assert_eq!(store.refresh_tokens.get(0).user_id, bob.id);
    assert_eq!(store.password_resets.len(), 1);
    assert_eq!(store.password_resets.get(0).user_id, bob.id);
    assert_eq!(store.email_verifications.len(), 0);
    assert!(auth.refresh_tokens(&mut store, &kept.refresh_token, None, None, T0 + 2).is_ok());
    assert_eq!(
        auth.login(&mut store, credentials("a@b.com", "Secret123"), None, None, T0 + 3)
            .unwrap_err(),
        AuthError::InvalidCredentials
    );
}

#[test]
fn forgot_password_is_neutral() {
    let auth = service(false);
    let mut store = SecretStore::new();
    auth.register(&mut store, registration("known@x.test", "Secret123", "Secret123", "Ann"), T0)
        .unwrap();
    let unknown = auth.forgot_password(&mut store, "unknown@x.test", T0).unwrap();
    assert_eq!(unknown, "");
    assert_eq!(store.password_resets.len(), 0);
    let known = auth.forgot_password(&mut store, "known@x.test", T0).unwrap();
    assert_eq!(known.len(), 64);
    assert_eq!(store.password_resets.len(), 1);

    let to_unknown = ForgotPasswordResponse::new(unknown);
    let to_known = ForgotPasswordResponse::new(known.clone());
    assert_eq!(to_unknown.message, to_known.message);
    assert_eq!(
        to_known.message,
        "If an account with that email exists, a password reset link has been sent."
    );
    assert_eq!(to_unknown.reset_token, None);
    assert_eq!(to_known.reset_token, Some(known));
}

#[test]
fn reset_password_succeeds_once() {
    let auth = service(false);
    let mut store = SecretStore::new();
    let user = auth
        .register(&mut store, registration("a@b.com", "Secret123", "Secret123", "Ann"), T0)
        .unwrap();
    let login =
        auth.login(&mut store, credentials("a@b.com", "Secret123"), None, None, T0).unwrap();
    let token = auth.forgot_password(&mut store, "a@b.com", T0 + 1).unwrap();
    let record = store.password_resets.get(0);
    assert_eq!(record.user_id, user.id);
    assert_eq!(record.expires_at, T0 + 1 + 3600);
    assert_eq!(record.token_hash, auth.hash_token(&token));

    let reset = |token: &str, password: &str, confirm: &str| ResetPasswordRequest {
        token: token.to_string(),
        password: password.to_string(),
        password_confirm: confirm.to_string(),
    };
    assert_eq!(
        auth.reset_password(&mut store, reset(&token, "Newpass123", "Newpass124"), T0 + 2),
        Err(AuthError::Validation(ValidationFault::PasswordMismatch))
    );
    assert_eq!(
        auth.reset_password(&mut store, reset(&token, "newpass123", "newpass123"), T0 + 2),
        Err(AuthError::WeakPassword)
    );
    assert_eq!(
        auth.reset_password(&mut store, reset("wrong", "Newpass123", "Newpass123"), T0 + 2),
        Err(AuthError::InvalidToken)
    );
    assert_eq!(
        auth.reset_password(&mut store, reset(&token, "Newpass123", "Newpass123"), T0 + 2),
        Ok(())
    );
    assert_eq!(store.password_resets.get(0).used_at, Some(T0 + 2));
    assert_eq!(store.refresh_tokens.get(0).revoked_at, Some(T0 + 2));
    let stored = store.users.find_by_id(user.id).unwrap();
    assert_eq!(stored.password_changed_at, T0 + 2);
    assert!(auth.verify_password("Newpass123", &stored.password_hash));
    assert!(!auth.verify_password("Secret123", &stored.password_hash));

    assert_eq!(
        auth.reset_password(&mut store, reset(&token, "Another123", "Another123"), T0 + 3),
        Err(AuthError::InvalidToken)
    );
    assert_eq!(
        auth.refresh_tokens(&mut store, &login.refresh_token, None, None, T0 + 4).unwrap_err(),
        AuthError::TokenRevoked
    );
    assert!(auth.login(&mut store, credentials("a@b.com", "Newpass123"), None, None, T0 + 5).is_ok());
}

#[test]
fn reset_password_follows_the_order_of_its_checks() {
    let auth = service(false);
    let mut store = SecretStore::new();
    let user = auth
        .register(&mut store, registration("a@b.com", "Secret123", "Secret123", "Ann"), T0)
        .unwrap();
    auth.login(&mut store, credentials("a@b.com", "Secret123"), None, None, T0).unwrap();
    let token = auth.forgot_password(&mut store, "a@b.com", T0 + 1).unwrap();
    let reset = |token: &str, password: &str, confirm: &str| ResetPasswordRequest {
        token: token.to_string(),
        password: password.to_string(),
        password_confirm: confirm.to_string(),
    };
    // A weak password is weak, and leaves the token unused and the account as it was.
    assert_eq!(
        auth.reset_password(&mut store, reset(&token, "short", "short"), T0 + 2),
        Err(AuthError::WeakPassword)
    );
    assert_eq!(store.password_resets.get(0).used_at, None);
    assert_eq!(store.refresh_tokens.get(0).revoked_at, None);
    assert!(auth.verify_password("Secret123", &store.users.find_by_id(user.id).unwrap().password_hash));
    // An unknown token comes before anything about the password.
    assert_eq!(
        auth.reset_password(&mut store, reset("", "short", "other"), T0 + 2),
        Err(AuthError::InvalidToken)
    );
    // A strong password resets, however few characters it has.
    assert_eq!(
        auth.reset_password(&mut store, reset(&token, STRONG_BUT_SHORT, STRONG_BUT_SHORT), T0 + 3),
        Ok(())
    );
    let stored = store.users.find_by_id(user.id).unwrap();
    assert!(auth.verify_password(STRONG_BUT_SHORT, &stored.password_hash));
    assert!(!auth.verify_password("Secret123", &stored.password_hash));
    assert_eq!(store.password_resets.get(0).used_at, Some(T0 + 3));
    assert_eq!(store.refresh_tokens.get(0).revoked_at, Some(T0 + 3));
    // A spent token is invalid whatever password is asked for.
    for (password, confirm) in [
        ("Another123", "Another123"),
        (STRONG_BUT_SHORT, STRONG_BUT_SHORT),
        ("short", "short"),
        ("Another123", "Another124"),
    ] {
        assert_eq!(
            auth.reset_password(&mut store, reset(&token, password, confirm), T0 + 4),
            Err(AuthError::InvalidToken)
        );
    }
    let stored = store.users.find_by_id(user.id).unwrap();
    assert!(auth.verify_password(STRONG_BUT_SHORT, &stored.password_hash));
    assert!(!auth.verify_password("Another123", &stored.password_hash));
}

#[test]
fn change_password_follows_the_order_of_its_checks() {
    let auth = service(false);
    let mut store = SecretStore::new();
    let user = auth
        .register(&mut store, registration("a@b.com", "Secret123", "Secret123", "Ann"), T0)
        .unwrap();
    let other = auth
        .register(&mut store, registration("c@d.com", "Secret123", "Secret123", "Bob"), T0)
        .unwrap();
    auth.login(&mut store, credentials("a@b.com", "Secret123"), None, None, T0).unwrap();
    auth.login(&mut store, credentials("c@d.com", "Secret123"), None, None, T0).unwrap();
    let change = |current: &str, new: &str, confirm: &str| ChangePasswordRequest {
        current_password: current.to_string(),
        new_password: new.to_string(),
        new_password_confirm: confirm.to_string(),
    };
    // The current password is verified before anything about the new one.
    for (new, confirm) in [("short", "short"), ("Newpass123", "Newpass124"), ("", "")] {
        assert_eq!(
            auth.change_password(&mut store, user.id, change("Wrong1234", new, confirm), T0 + 1),
            Err(AuthError::InvalidCredentials)
        );
    }
    assert_eq!(
        auth.change_password(&mut store, user.id, change("", "Newpass123", "Newpass123"), T0 + 1),
        Err(AuthError::InvalidCredentials)
    );
    assert_eq!(
        auth.change_password(&mut store, user.id, change("Secret123", "short", "short"), T0 + 1),
        Err(AuthError::WeakPassword)
    );
    assert_eq!(store.refresh_tokens.get(0).revoked_at, None);
    // A strong password is taken, however few characters it has.
    assert_eq!(
        auth.change_password(
            &mut store,
            user.id,
            change("Secret123", STRONG_BUT_SHORT, STRONG_BUT_SHORT),
            T0 + 2
        ),
        Ok(())
    );
    let stored = store.users.find_by_id(user.id).unwrap();
    assert!(auth.verify_password(STRONG_BUT_SHORT, &stored.password_hash));
    assert!(!auth.verify_password("Secret123", &stored.password_hash));
    assert_eq!(store.refresh_tokens.get(0).revoked_at, Some(T0 + 2));
    // The other account and its session are as they were.
    assert_eq!(store.refresh_tokens.get(1).revoked_at, None);
    let untouched = store.users.find_by_id(other.id).unwrap();
    assert_eq!(untouched.password_hash, other.password_hash);
}

#[test]
fn verification_refuses_a_digest_it_cannot_check() {
    let auth = service(false);
    let digest = auth.hash_password_with_salt("Secret123", "c29tZXNhbHRzb21lc2FsdA").unwrap();
    assert!(digest.contains("m=64,t=1,p=1$"));
    assert!(auth.verify_password("Secret123", &digest));
    // A parallelism beyond what Argon2 admits, alone or after an admitted one.
    for lanes in ["p=536870912", "p=4294967295", "p=16777216", "p=1,p=536870912", "p=+1", "p=x"] {
        let forged = digest.replace("p=1$", &format!("{}$", lanes));
        assert!(!auth.verify_password("Secret123", &forged));
    }
    // The largest parallelism that is admitted is passed on, and refused there.
    let forged = digest.replace("p=1$", "p=16777215$");
    assert!(!auth.verify_password("Secret123", &forged));
    // Other parameters do not make the digest uncheckable.
    let forged = digest.replace("t=1,", "t=2,");
    assert!(!auth.verify_password("Secret123", &forged));
}

#[test]
fn login_with_an_uncheckable_digest_counts_as_a_failure() {
    let auth = service(false);
    let mut store = SecretStore::new();
    let mut user = auth
        .register(&mut store, registration("a@b.com", "Secret123", "Secret123", "Ann"), T0)
        .unwrap();
    user.password_hash = user.password_hash.replace("p=1$", "p=536870912$");
    assert!(store.users.replace(user));
    assert_eq!(
        auth.login(&mut store, credentials("a@b.com", "Secret123"), None, None, T0 + 1)
            .unwrap_err(),
        AuthError::InvalidCredentials
    );
    assert_eq!(store.users.get(0).failed_login_attempts, 1);
}

#[test]
fn reset_token_expires_and_is_superseded() {
    let auth = service(false);
    let mut store = SecretStore::new();
    auth.register(&mut store, registration("a@b.com", "Secret123", "Secret123", "Ann"), T0).unwrap();
    let first = auth.forgot_password(&mut store, "a@b.com", T0).unwrap();
    let second = auth.forgot_password(&mut store, "A@B.com", T0 + 1).unwrap();
    assert_eq!(store.password_resets.len(), 2);
    assert_eq!(store.password_resets.get(0).used_at, Some(T0 + 1));
    assert_eq!(store.password_resets.get(1).used_at, None);
    let reset = |token: &str| ResetPasswordRequest {
        token: token.to_string(),
        password: "Newpass123".to_string(),
        password_confirm: "Newpass123".to_string(),
    };
    assert_eq!(auth.reset_password(&mut store, reset(&first), T0 + 2), Err(AuthError::InvalidToken));
    assert_eq!(
        auth.reset_password(&mut store, reset(&second), T0 + 1 + 3600),
        Err(AuthError::InvalidToken)
    );
    assert_eq!(auth.reset_password(&mut store, reset(&second), T0 + 3600), Ok(()));
}

#[test]
fn change_password_revokes_sessions() {
    let auth = service(false);
    let mut store = SecretStore::new();
    let user = auth
        .register(&mut store, registration("a@b.com", "Secret123", "Secret123", "Ann"), T0)
        .unwrap();
    auth.login(&mut store, credentials("a@b.com", "Secret123"), None, None, T0).unwrap();
    auth.login(&mut store, credentials("a@b.com", "Secret123"), None, None, T0 + 1).unwrap();
    let change = |current: &str, new: &str, confirm: &str| ChangePasswordRequest {
        current_password: current.to_string(),
        new_password: new.to_string(),
        new_password_confirm: confirm.to_string(),
    };
    assert_eq!(
        auth.change_password(&mut store, user.id, change("Wrong1234", "Newpass123", "Newpass123"), T0 + 2),
        Err(AuthError::InvalidCredentials)
    );
    assert_eq!(
        auth.change_password(&mut store, user.id, change("Secret123", "newpass123", "newpass123"), T0 + 2),
        Err(AuthError::WeakPassword)
    );
    assert_eq!(
        auth.change_password(&mut store, user.id, change("Secret123", "Newpass123", "Newpass12x"), T0 + 2),
        Err(AuthError::Validation(ValidationFault::PasswordMismatch))
    );
    assert_eq!(
        auth.change_password(&mut store, user.id + 1, change("Secret123", "Newpass123", "Newpass123"), T0 + 2),
        Err(AuthError::UserNotFound)
    );
    assert_eq!(store.refresh_tokens.get(0).revoked_at, None);
    assert_eq!(
        auth.change_password(&mut store, user.id, change("Secret123", "Newpass123", "Newpass123"), T0 + 3),
        Ok(())
    );
    assert_eq!(store.refresh_tokens.get(0).revoked_at, Some(T0 + 3));
    assert_eq!(store.refresh_tokens.get(1).revoked_at, Some(T0 + 3));
    assert!(auth.login(&mut store, credentials("a@b.com", "Newpass123"), None, None, T0 + 4).is_ok());
    assert_eq!(
        auth.login(&mut store, credentials("a@b.com", "Secret123"), None, None, T0 + 4).unwrap_err(),
        AuthError::InvalidCredentials
    );
}

#[test]
fn email_verification_activates_a_pending_account() {
    let auth = service(true);
    let mut store = SecretStore::new();
    let user = auth
        .register(&mut store, registration("a@b.com", "Secret123", "Secret123", "Ann"), T0)
        .unwrap();
    assert_eq!(
        auth.create_email_verification(&mut store, user.id + 1, T0).unwrap_err(),
        AuthError::UserNotFound
    );
    let old = auth.create_email_verification(&mut store, user.id, T0).unwrap();
    let token = auth.create_email_verification(&mut store, user.id, T0 + 1).unwrap();
    assert_eq!(store.email_verifications.get(1).expires_at, T0 + 1 + 86400);
    assert_eq!(auth.verify_email(&mut store, &old, T0 + 2).unwrap_err(), AuthError::InvalidToken);
    assert_eq!(auth.verify_email(&mut store, "nope", T0 + 2).unwrap_err(), AuthError::InvalidToken);
    assert_eq!(
        auth.verify_email(&mut store, &token, T0 + 1 + 86400).unwrap_err(),
        AuthError::InvalidToken
    );
    let verified = auth.verify_email(&mut store, &token, T0 + 2).unwrap();
    assert_eq!(verified.status, UserStatus::Active);
    assert_eq!(verified.email_verified_at, Some(T0 + 2));
    assert_eq!(store.users.find_by_id(user.id).unwrap().status, UserStatus::Active);
    assert_eq!(auth.verify_email(&mut store, &token, T0 + 3).unwrap_err(), AuthError::InvalidToken);
    let answer =
        auth.login(&mut store, credentials("a@b.com", "Secret123"), None, None, T0 + 4).unwrap();
    assert!(answer.user.email_verified);
}
