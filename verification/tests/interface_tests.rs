use rustpress_auth::config::{AuthConfig, ConfigVars};
use rustpress_auth::error::{AuthError, ConfigFault, StoreFault, ValidationFault};
use rustpress_auth::guard::{record_failure, record_success};
use rustpress_auth::handlers;
use rustpress_auth::handlers::RegisterResponse;
use rustpress_auth::hasher::{check_lanes, is_verifiable, DigestParam};
use rustpress_auth::http::{
    bearer_token, require_admin, require_role, take_first_entry, AuthRejection, ClientInfo,
};
use rustpress_auth::models::{time_after, RefreshToken, SingleUseToken, User, UserRole, UserStatus};
use rustpress_auth::plugin::{AuthPlugin, PluginState};
use rustpress_auth::requests::{
    ChangePasswordRequest, ForgotPasswordRequest, LoginRequest, RefreshTokenRequest,
    RegisterRequest, ResetPasswordRequest, VerifyEmailRequest,
};
use rustpress_auth::responses::{AuthUser, MessageResponse, UserResponse};
use rustpress_auth::service::AuthService;
use rustpress_auth::store::SecretStore;
use rustpress_auth::token::{
    is_statement_expired, read_id, read_number, read_text, AccessTokenClaims, Claim, ClaimValue,
    RefreshTokenClaims,
};

const T0: i64 = 1_700_000_000;

fn config() -> AuthConfig {
    let mut config = AuthConfig::with_secret("0123456789abcdef0123456789abcdef".to_string());
    config.argon2_memory_cost = 64;
    config.argon2_time_cost = 1;
    config.argon2_parallelism = 1;
    config
}

fn account(id: u128, email: &str) -> User {
    User {
        id,
        email: email.to_string(),
        password_hash: "digest".to_string(),
        name: "Ann".to_string(),
        role: UserRole::User,
        status: UserStatus::Active,
        email_verified_at: None,
        last_login_at: None,
        last_login_ip: None,
        failed_login_attempts: 0,
        locked_until: None,
        password_changed_at: T0,
        created_at: T0,
        updated_at: T0,
    }
}

fn caller(id: u128, role: &str) -> AuthUser {
    AuthUser { id, email: "a@b.com".to_string(), name: "Ann".to_string(), role: role.to_string() }
}

#[test]
fn test_plugin_info() {
    let plugin = AuthPlugin::new();
    assert_eq!(plugin.info().id, "rustpress-auth");
    assert_eq!(plugin.info().name, "RustPress Authentication");
}

#[test]
fn test_plugin_initial_state() {
    let plugin = AuthPlugin::new();
    assert_eq!(plugin.state(), PluginState::Inactive);
}

#[test]
fn plugin_lifecycle() {
    let mut plugin = AuthPlugin::new();
    assert!(plugin.auth_service().is_none());
    let bad = AuthConfig::with_secret("short".to_string());
    assert_eq!(plugin.activate(bad), Err(AuthError::Config(ConfigFault::ShortSecret)));
    assert_eq!(plugin.state(), PluginState::Inactive);
    assert!(plugin.auth_service().is_none());
    assert_eq!(plugin.activate(config()), Ok(()));
    assert_eq!(plugin.state(), PluginState::Active);
    assert_eq!(plugin.auth_service().unwrap().config().jwt_issuer, "rustpress");
    plugin.deactivate();
    assert_eq!(plugin.state(), PluginState::Inactive);
    assert!(plugin.auth_service().is_none());
    assert_eq!(plugin.info().description, "Core authentication system for RustPress");
}

#[test]
fn error_codes_and_statuses() {
    let table: Vec<(AuthError, u16, &str, &str)> = vec![
        (AuthError::InvalidCredentials, 401, "invalid_credentials", "Invalid credentials"),
        (AuthError::AccountLocked, 403, "account_locked", "Account is locked. Try again later"),
        (AuthError::AccountNotActive, 403, "account_not_active", "Account is not active"),
        (AuthError::EmailNotVerified, 403, "email_not_verified", "Email not verified"),
        (AuthError::InvalidToken, 401, "invalid_token", "Invalid or expired token"),
        (AuthError::TokenRevoked, 401, "token_revoked", "Token has been revoked"),
        (AuthError::UserNotFound, 404, "user_not_found", "User not found"),
        (AuthError::EmailExists, 409, "email_exists", "Email already registered"),
        (AuthError::WeakPassword, 400, "weak_password", "Password does not meet requirements"),
        (
            AuthError::Validation(ValidationFault::PasswordMismatch),
            400,
            "validation_error",
            "Passwords do not match",
        ),
        (
            AuthError::Config(ConfigFault::ShortSecret),
            500,
            "configuration_error",
            "JWT_SECRET must be at least 32 characters",
        ),
        (
            AuthError::Database(StoreFault::DuplicateKey),
            500,
            "internal_error",
            "An internal error occurred",
        ),
        (AuthError::Internal, 500, "internal_error", "An internal error occurred"),
    ];
    for (error, status, code, message) in table {
        assert_eq!(error.status_code(), status);
        assert_eq!(error.error_code(), code);
        let shown = error.response();
        assert_eq!(shown.status, status);
        assert_eq!(shown.error, code);
        assert_eq!(shown.message, message);
    }
}

#[test]
fn error_descriptions() {
    assert_eq!(AuthError::InvalidCredentials.to_string(), "Invalid credentials");
    assert_eq!(AuthError::Internal.to_string(), "Internal error");
    assert_eq!(
        AuthError::Validation(ValidationFault::InvalidEmail).to_string(),
        "Validation error: Invalid email format"
    );
    assert_eq!(
        AuthError::Database(StoreFault::DuplicateKey).to_string(),
        "Database error: duplicate key"
    );
    assert_eq!(
        AuthError::Config(ConfigFault::ShortMinimumPassword).to_string(),
        "Configuration error: MIN_PASSWORD_LENGTH must be at least 8"
    );
    assert_eq!(
        ValidationFault::NewPasswordTooShort.message(),
        "New password must be at least 8 characters"
    );
    assert_eq!(StoreFault::Unavailable.message(), "store unavailable");
}

#[test]
fn rejection_codes_and_statuses() {
    let table: Vec<(AuthRejection, u16, &str, &str)> = vec![
        (AuthRejection::AuthenticationRequired, 401, "unauthorized", "Authentication required"),
        (
            AuthRejection::InvalidHeaderFormat,
            401,
            "unauthorized",
            "Invalid authorization header format",
        ),
        (AuthRejection::InvalidToken, 401, "invalid_token", "Invalid or expired token"),
        (AuthRejection::AdminRequired, 403, "forbidden", "Admin access required"),
        (AuthRejection::InsufficientPermissions, 403, "forbidden", "Insufficient permissions"),
    ];
    for (rejection, status, code, message) in table {
        assert_eq!(rejection.status_code(), status);
        assert_eq!(rejection.error_code(), code);
        assert_eq!(rejection.message(), message);
    }
}

#[test]
fn roles() {
    assert!(UserRole::Admin.is_admin());
    assert!(!UserRole::Editor.is_admin());
    assert!(UserRole::Author.can_publish());
    assert!(UserRole::Editor.can_publish());
    assert!(UserRole::Admin.can_publish());
    assert!(!UserRole::User.can_publish());
    assert!(UserRole::Editor.can_moderate());
    assert!(UserRole::Admin.can_moderate());
    assert!(!UserRole::Author.can_moderate());
    assert_eq!(UserRole::User.as_str(), "user");
    assert_eq!(UserRole::Author.as_str(), "author");
    assert_eq!(UserRole::Editor.as_str(), "editor");
    assert_eq!(UserRole::Admin.as_str(), "admin");

    assert!(caller(1, "admin").is_admin());
    assert!(!caller(1, "Admin").is_admin());
    assert!(caller(1, "author").can_publish());
    assert!(!caller(1, "user").can_publish());
    assert!(caller(1, "editor").can_moderate());
    assert!(!caller(1, "author").can_moderate());
}

#[test]
fn account_predicates() {
    let mut user = account(1, "a@b.com");
    assert!(!user.is_locked(T0));
    assert!(user.can_login(T0));
    assert!(!user.is_email_verified());
    assert!(!user.is_admin());
    user.locked_until = Some(T0 + 10);
    assert!(user.is_locked(T0 + 9));
    assert!(!user.is_locked(T0 + 10));
    assert!(!user.can_login(T0 + 9));
    assert!(user.can_login(T0 + 10));
    user.status = UserStatus::Suspended;
    assert!(!user.can_login(T0 + 10));
    user.email_verified_at = Some(T0);
    user.role = UserRole::Admin;
    assert!(user.is_email_verified());
    assert!(user.is_admin());

    let shown = UserResponse::of(&user);
    assert_eq!(shown.id, 1);
    assert!(shown.email_verified);
    let moved = UserResponse::from(user);
    assert_eq!(moved.email, "a@b.com");
    assert_eq!(moved.role, UserRole::Admin);
    assert!(moved.email_verified);
}

#[test]
fn token_record_predicates() {
    let mut record = RefreshToken {
        id: 1,
        user_id: 2,
        token_hash: "h".to_string(),
        expires_at: T0 + 10,
        issued_at: T0,
        revoked_at: None,
        replaced_by: None,
        user_agent: None,
        ip_address: None,
        created_at: T0,
    };
    assert!(record.is_valid(T0 + 9));
    assert!(!record.is_expired(T0 + 9));
    // At its expiry a record is no longer in the future.
    assert!(record.is_expired(T0 + 10));
    assert!(!record.is_valid(T0 + 10));
    record.revoked_at = Some(T0);
    assert!(record.is_revoked());
    assert!(!record.is_valid(T0 + 1));

    let mut token = SingleUseToken {
        id: 1,
        user_id: 2,
        token_hash: "h".to_string(),
        expires_at: T0 + 10,
        used_at: None,
        created_at: T0,
    };
    assert!(token.is_usable(T0 + 9));
    assert!(!token.is_usable(T0 + 10));
    token.used_at = Some(T0);
    assert!(!token.is_usable(T0 + 1));
}

#[test]
fn time_saturates() {
    assert_eq!(time_after(10, 5), 15);
    assert_eq!(time_after(10, -15), -5);
    assert_eq!(time_after(i64::MAX - 1, 5), i64::MAX);
    assert_eq!(time_after(i64::MIN + 1, -5), i64::MIN);
    assert!(!is_statement_expired(100, 160));
    assert!(is_statement_expired(100, 161));
    assert!(!is_statement_expired(i64::MIN, i64::MIN + 10));
}

#[test]
fn guard_counts_and_locks() {
    let settings = config();
    let mut user = account(1, "a@b.com");
    user.failed_login_attempts = 3;
    user.locked_until = Some(5);
    let once = record_failure(user, &settings, T0);
    assert_eq!(once.failed_login_attempts, 4);
    // Below the threshold the lockout is left as it is.
    assert_eq!(once.locked_until, Some(5));
    assert_eq!(once.updated_at, T0);
    let twice = record_failure(once, &settings, T0 + 1);
    assert_eq!(twice.failed_login_attempts, 5);
    assert_eq!(twice.locked_until, Some(T0 + 1 + 900));

    let mut full = account(1, "a@b.com");
    full.failed_login_attempts = i32::MAX;
    assert_eq!(record_failure(full, &settings, T0).failed_login_attempts, i32::MAX);

    let welcomed = record_success(twice, T0 + 2, Some("1.2.3.4".to_string()));
    assert_eq!(welcomed.failed_login_attempts, 0);
    assert_eq!(welcomed.locked_until, None);
    assert_eq!(welcomed.last_login_at, Some(T0 + 2));
    assert_eq!(welcomed.last_login_ip, Some("1.2.3.4".to_string()));
}

#[test]
fn service_guard_operations() {
    let auth = AuthService::new(config());
    let mut store = SecretStore::new();
    assert!(store.users.insert(account(1, "a@b.com")));
    assert!(!auth.increment_failed_attempts(&mut store, 2, T0));
    assert!(auth.increment_failed_attempts(&mut store, 1, T0));
    assert_eq!(store.users.find_by_id(1).unwrap().failed_login_attempts, 1);
    assert!(auth.record_successful_login(&mut store, 1, None, T0 + 1));
    assert_eq!(store.users.find_by_id(1).unwrap().failed_login_attempts, 0);
    assert_eq!(auth.find_user_by_email(&store, "A@B.COM").unwrap().id, 1);
    assert!(auth.find_user_by_email(&store, "x@b.com").is_none());
    assert_eq!(auth.find_user_by_id(&store, 1).unwrap().email, "a@b.com");
    assert!(auth.find_user_by_id(&store, 9).is_none());
}

#[test]
fn store_keeps_keys_unique() {
    let mut store = SecretStore::new();
    assert!(store.users.insert(account(1, "a@b.com")));
    assert!(!store.users.insert(account(1, "c@d.com")));
    assert!(!store.users.insert(account(2, "a@b.com")));
    assert!(store.users.insert(account(2, "c@d.com")));
    assert_eq!(store.users.len(), 2);
    // An account can be replaced only under its own email.
    assert!(!store.users.replace(account(2, "a@b.com")));
    assert!(!store.users.replace(account(3, "e@f.com")));
    let mut changed = account(2, "c@d.com");
    changed.name = "Cy".to_string();
    assert!(store.users.replace(changed));
    assert_eq!(store.users.get(1).name, "Cy");
    assert_eq!(store.users.get(0).name, "Ann");

    let record = |id: u128, user_id: u128, hash: &str| RefreshToken {
        id,
        user_id,
        token_hash: hash.to_string(),
        expires_at: T0 + 10,
        issued_at: T0,
        revoked_at: None,
        replaced_by: None,
        user_agent: None,
        ip_address: None,
        created_at: T0,
    };
    assert!(store.refresh_tokens.insert(record(1, 1, "h1")));
    assert!(!store.refresh_tokens.insert(record(1, 1, "h2")));
    assert!(!store.refresh_tokens.insert(record(2, 1, "h1")));
    assert!(store.refresh_tokens.insert(record(2, 1, "h2")));
    assert!(store.refresh_tokens.insert(record(3, 2, "h3")));
    assert!(store.refresh_tokens.revoke(1, T0 + 1, Some(2)));
    // A record that is revoked already stays as it is.
    assert!(!store.refresh_tokens.revoke(1, T0 + 2, None));
    assert!(!store.refresh_tokens.revoke(9, T0 + 2, None));
    assert_eq!(store.refresh_tokens.get(0).revoked_at, Some(T0 + 1));
    assert_eq!(store.refresh_tokens.get(0).replaced_by, Some(2));
    store.refresh_tokens.revoke_all_for_user(1, T0 + 3);
    assert_eq!(store.refresh_tokens.get(0).revoked_at, Some(T0 + 1));
    assert_eq!(store.refresh_tokens.get(1).revoked_at, Some(T0 + 3));
    assert_eq!(store.refresh_tokens.get(2).revoked_at, None);
    assert_eq!(store.refresh_tokens.find_by_id(3).unwrap().user_id, 2);
    assert!(store.refresh_tokens.find_by_id(4).is_none());

    let token = |id: u128, user_id: u128, hash: &str| SingleUseToken {
        id,
        user_id,
        token_hash: hash.to_string(),
        expires_at: T0 + 10,
        used_at: None,
        created_at: T0,
    };
    assert!(store.password_resets.insert(token(1, 1, "h1")));
    assert!(!store.password_resets.insert(token(1, 1, "h2")));
    assert!(!store.password_resets.reissue(token(2, 1, "h1"), T0));
    assert_eq!(store.password_resets.get(0).used_at, None);
    assert!(store.password_resets.reissue(token(2, 1, "h2"), T0 + 1));
    assert_eq!(store.password_resets.get(0).used_at, Some(T0 + 1));
    assert_eq!(store.password_resets.get(1).used_at, None);
    assert!(store.password_resets.redeem(2, T0 + 2));
    assert!(!store.password_resets.redeem(2, T0 + 3));
    assert_eq!(store.password_resets.get(1).used_at, Some(T0 + 2));
    assert!(store.password_resets.insert(token(3, 2, "h3")));
    store.password_resets.invalidate_for_user(2, T0 + 4);
    assert_eq!(store.password_resets.find_by_hash("h3").unwrap().used_at, Some(T0 + 4));
    assert!(store.password_resets.find_by_hash("h9").is_none());
    // The two purposes are kept apart.
    assert_eq!(store.email_verifications.len(), 0);
}

#[test]
fn request_validation() {
    let login = |email: &str, password: &str| LoginRequest {
        email: email.to_string(),
        password: password.to_string(),
    };
    assert_eq!(login("a@b.com", "x").validate(), Ok(()));
    assert_eq!(
        login("a-b.com", "x").validate(),
        Err(AuthError::Validation(ValidationFault::InvalidEmail))
    );
    assert_eq!(
        login("a@b.com", "").validate(),
        Err(AuthError::Validation(ValidationFault::PasswordRequired))
    );

    let register = |email: &str, password: &str, confirm: &str, name: &str| RegisterRequest {
        email: email.to_string(),
        password: password.to_string(),
        password_confirm: confirm.to_string(),
        name: name.to_string(),
    };
    assert_eq!(register("a@b.com", "12345678", "12345678", "A").validate(), Ok(()));
    // Lengths count characters, not bytes.
    assert_eq!(register("a@b.com", "éééééééé", "éééééééé", "A").validate(), Ok(()));
    assert_eq!(
        register("a@b.com", "ééééééé", "ééééééé", "A").validate(),
        Err(AuthError::Validation(ValidationFault::PasswordTooShort))
    );
    assert_eq!(register("a@b.com", "12345678", "12345678", &"n".repeat(100)).validate(), Ok(()));
    assert_eq!(
        register("a@b.com", "12345678", "12345678", &"n".repeat(101)).validate(),
        Err(AuthError::Validation(ValidationFault::NameLength))
    );
    assert_eq!(
        register("", "1234567", "x", "").validate(),
        Err(AuthError::Validation(ValidationFault::InvalidEmail))
    );

    assert_eq!(
        RefreshTokenRequest { refresh_token: String::new() }.validate(),
        Err(AuthError::Validation(ValidationFault::RefreshTokenRequired))
    );
    assert_eq!(RefreshTokenRequest { refresh_token: "t".to_string() }.validate(), Ok(()));
    assert_eq!(
        ForgotPasswordRequest { email: "nobody".to_string() }.validate(),
        Err(AuthError::Validation(ValidationFault::InvalidEmail))
    );
    assert_eq!(ForgotPasswordRequest { email: "a@b.com".to_string() }.validate(), Ok(()));
    assert_eq!(
        VerifyEmailRequest { token: String::new() }.validate(),
        Err(AuthError::Validation(ValidationFault::TokenRequired))
    );
    let reset = |token: &str, password: &str, confirm: &str| ResetPasswordRequest {
        token: token.to_string(),
        password: password.to_string(),
        password_confirm: confirm.to_string(),
    };
    assert_eq!(
        reset("", "12345678", "12345678").validate(),
        Err(AuthError::Validation(ValidationFault::TokenRequired))
    );
    assert_eq!(
        reset("t", "1234567", "1234567").validate(),
        Err(AuthError::Validation(ValidationFault::PasswordTooShort))
    );
    assert_eq!(
        reset("t", "12345678", "12345679").validate(),
        Err(AuthError::Validation(ValidationFault::PasswordMismatch))
    );
    let change = |current: &str, new: &str, confirm: &str| ChangePasswordRequest {
        current_password: current.to_string(),
        new_password: new.to_string(),
        new_password_confirm: confirm.to_string(),
    };
    assert_eq!(
        change("", "12345678", "12345678").validate(),
        Err(AuthError::Validation(ValidationFault::CurrentPasswordRequired))
    );
    assert_eq!(
        change("c", "1234567", "1234567").validate(),
        Err(AuthError::Validation(ValidationFault::NewPasswordTooShort))
    );
    assert_eq!(
        change("c", "12345678", "1234567x").validate(),
        Err(AuthError::Validation(ValidationFault::PasswordMismatch))
    );
    assert_eq!(change("c", "12345678", "12345678").validate(), Ok(()));
}

#[test]
fn handlers_reject_a_malformed_request_before_anything_else() {
    let auth = AuthService::new(config());
    let mut store = SecretStore::new();
    let register = |email: &str, password: &str, confirm: &str, name: &str| RegisterRequest {
        email: email.to_string(),
        password: password.to_string(),
        password_confirm: confirm.to_string(),
        name: name.to_string(),
    };
    // Eight bytes in five characters: strong, and too short for a request.
    let strong_but_short = "Aé1éé";
    let cases = vec![
        (register("not-an-email", "Secret123", "Secret123", "Ann"), ValidationFault::InvalidEmail),
        (register("a@b.com", "Sec1", "Sec1", "Ann"), ValidationFault::PasswordTooShort),
        (
            register("a@b.com", strong_but_short, strong_but_short, "Ann"),
            ValidationFault::PasswordTooShort,
        ),
        (register("a@b.com", "Secret123", "Secret124", "Ann"), ValidationFault::PasswordMismatch),
        (register("a@b.com", "Secret123", "Secret123", ""), ValidationFault::NameLength),
    ];
    for (req, fault) in cases {
        assert_eq!(
            handlers::register(&auth, &mut store, req, T0).unwrap_err(),
            AuthError::Validation(fault)
        );
    }
    assert_eq!(store.users.len(), 0);
    // A request of the right shape with a weak password is weak.
    assert_eq!(
        handlers::register(
            &auth,
            &mut store,
            register("a@b.com", "secretsecret", "secretsecret", "Ann"),
            T0
        )
        .unwrap_err(),
        AuthError::WeakPassword
    );
    let registered = handlers::register(
        &auth,
        &mut store,
        register("a@b.com", "Secret123", "Secret123", "Ann"),
        T0,
    )
    .unwrap();
    let me = caller(registered.user.id, "user");
    let token = auth.forgot_password(&mut store, "a@b.com", T0).unwrap();

    let reset = |token: &str, password: &str, confirm: &str| ResetPasswordRequest {
        token: token.to_string(),
        password: password.to_string(),
        password_confirm: confirm.to_string(),
    };
    assert_eq!(
        handlers::reset_password(&auth, &mut store, reset("", "Newpass123", "Newpass123"), T0 + 1)
            .unwrap_err(),
        AuthError::Validation(ValidationFault::TokenRequired)
    );
    assert_eq!(
        handlers::reset_password(
            &auth,
            &mut store,
            reset(&token, strong_but_short, strong_but_short),
            T0 + 1
        )
        .unwrap_err(),
        AuthError::Validation(ValidationFault::PasswordTooShort)
    );
    assert_eq!(
        handlers::reset_password(&auth, &mut store, reset(&token, "newpass123", "newpass123"), T0 + 1)
            .unwrap_err(),
        AuthError::WeakPassword
    );
    assert_eq!(store.password_resets.get(0).used_at, None);

    let change = |current: &str, new: &str, confirm: &str| ChangePasswordRequest {
        current_password: current.to_string(),
        new_password: new.to_string(),
        new_password_confirm: confirm.to_string(),
    };
    assert_eq!(
        handlers::change_password(&auth, &mut store, &me, change("", "Newpass123", "Newpass123"), T0 + 2)
            .unwrap_err(),
        AuthError::Validation(ValidationFault::CurrentPasswordRequired)
    );
    assert_eq!(
        handlers::change_password(&auth, &mut store, &me, change("Wrong1234", "short", "short"), T0 + 2)
            .unwrap_err(),
        AuthError::Validation(ValidationFault::NewPasswordTooShort)
    );
    assert_eq!(
        handlers::change_password(
            &auth,
            &mut store,
            &me,
            change("Wrong1234", "Newpass123", "Newpass123"),
            T0 + 2
        )
        .unwrap_err(),
        AuthError::InvalidCredentials
    );
}

#[test]
fn digest_parameters_are_checked_before_verification() {
    let param = |name: &str, value: &str| DigestParam {
        name: name.to_string(),
        value: value.to_string(),
    };
    assert!(check_lanes(&vec![]));
    assert!(check_lanes(&vec![param("m", "4294967295"), param("t", "1")]));
    assert!(check_lanes(&vec![param("m", "64"), param("p", "16777215")]));
    assert!(!check_lanes(&vec![param("m", "64"), param("p", "16777216")]));
    assert!(!check_lanes(&vec![param("p", "1"), param("p", "536870912")]));
    assert!(!check_lanes(&vec![param("p", "many")]));
    assert!(!check_lanes(&vec![param("p", "")]));
    assert!(is_verifiable("$argon2id$v=19$m=64,t=1,p=1$c29tZXNhbHRzb21lc2FsdA$MTIzNDU2Nzg5MDEyMzQ1Ng"));
    assert!(!is_verifiable("$argon2id$v=19$m=64,t=1,p=536870912$c29tZXNhbHRzb21lc2FsdA$MTIzNDU2Nzg5MDEyMzQ1Ng"));
    assert!(!is_verifiable("not a digest"));
    assert!(!is_verifiable(""));
}

#[test]
fn bearer_header() {
    assert_eq!(bearer_token("Bearer abc.def"), Some("abc.def".to_string()));
    assert_eq!(bearer_token("Bearer "), Some(String::new()));
    assert_eq!(bearer_token("Bearer"), None);
    assert_eq!(bearer_token("bearer abc"), None);
    assert_eq!(bearer_token("Basic abc"), None);
    assert_eq!(bearer_token(""), None);
    assert_eq!(bearer_token("Bearer Bearer x"), Some("Bearer x".to_string()));
}

#[test]
fn authentication_of_a_request() {
    let auth = AuthService::new(config());
    let mut store = SecretStore::new();
    let req = RegisterRequest {
        email: "a@b.com".to_string(),
        password: "Secret123".to_string(),
        password_confirm: "Secret123".to_string(),
        name: "Ann".to_string(),
    };
    let user = auth.register(&mut store, req, T0).unwrap();
    let token = auth.generate_access_token(&user, T0).unwrap();
    let header = format!("Bearer {}", token);

    assert_eq!(auth.authenticate(None, T0).unwrap_err(), AuthRejection::AuthenticationRequired);
    assert_eq!(
        auth.authenticate(Some(&token), T0).unwrap_err(),
        AuthRejection::InvalidHeaderFormat
    );
    assert_eq!(
        auth.authenticate(Some("Bearer nonsense"), T0).unwrap_err(),
        AuthRejection::InvalidToken
    );
    assert_eq!(
        auth.authenticate(Some(&header), T0 + 961).unwrap_err(),
        AuthRejection::InvalidToken
    );
    let claims = auth.authenticate(Some(&header), T0 + 1).unwrap();
    assert_eq!(claims.sub, user.id);
    let who = AuthUser::from_claims(&claims);
    assert_eq!(who.id, user.id);
    assert_eq!(who.email, "a@b.com");
    assert_eq!(who.name, "Ann");
    assert_eq!(who.role, "user");

    assert!(auth.optional_auth(None, T0).is_none());
    assert!(auth.optional_auth(Some("Bearer nonsense"), T0).is_none());
    assert_eq!(auth.optional_auth(Some(&header), T0).unwrap().sub, user.id);

    assert_eq!(require_admin(&claims), Err(AuthRejection::AdminRequired));
    assert_eq!(require_role(&claims, &vec!["user".to_string()]), Ok(()));
    assert_eq!(
        require_role(&claims, &vec!["editor".to_string(), "admin".to_string()]),
        Err(AuthRejection::InsufficientPermissions)
    );
    assert_eq!(require_role(&claims, &vec![]), Err(AuthRejection::InsufficientPermissions));
    let mut admin = account(5, "root@b.com");
    admin.role = UserRole::Admin;
    let token = auth.generate_access_token(&admin, T0).unwrap();
    let claims = auth.validate_access_token(&token, T0).unwrap();
    assert_eq!(claims.role, "admin");
    assert_eq!(require_admin(&claims), Ok(()));
}

#[test]
fn claims_are_read_by_name_and_kind() {
    let claims = vec![
        Claim { name: "a".to_string(), value: ClaimValue::Text("x".to_string()) },
        Claim { name: "n".to_string(), value: ClaimValue::Number(7) },
        Claim { name: "a".to_string(), value: ClaimValue::Number(9) },
        Claim { name: "o".to_string(), value: ClaimValue::Other },
        Claim {
            name: "id".to_string(),
            value: ClaimValue::Text("00000000-0000-0000-0000-00000000002a".to_string()),
        },
    ];
    assert_eq!(read_text(&claims, "a"), Some("x".to_string()));
    assert_eq!(read_number(&claims, "a"), None);
    assert_eq!(read_number(&claims, "n"), Some(7));
    assert_eq!(read_text(&claims, "n"), None);
    assert_eq!(read_text(&claims, "o"), None);
    assert_eq!(read_text(&claims, "missing"), None);
    assert_eq!(read_id(&claims, "id"), Some(42));
    assert_eq!(read_id(&claims, "a"), None);
    assert!(AccessTokenClaims::from_claims(&claims).is_none());
    assert!(RefreshTokenClaims::from_claims(&claims).is_none());

    let full = RefreshTokenClaims { sub: 42, tid: 43, iat: 1, exp: 2, iss: "i".to_string() };
    let carried = full.to_claims();
    assert_eq!(carried.len(), 5);
    assert_eq!(read_text(&carried, "sub"), Some("00000000-0000-0000-0000-00000000002a".to_string()));
    let back = RefreshTokenClaims::from_claims(&carried).unwrap();
    assert_eq!(back.sub, 42);
    assert_eq!(back.tid, 43);
    assert_eq!(back.exp, 2);
    assert!(RefreshTokenClaims::check(Some(full.to_claims()), "i", 62, true).is_ok());
    assert_eq!(
        RefreshTokenClaims::check(Some(full.to_claims()), "i", 63, true).unwrap_err(),
        AuthError::InvalidToken
    );
    assert!(RefreshTokenClaims::check(Some(full.to_claims()), "i", 63, false).is_ok());
    assert_eq!(
        RefreshTokenClaims::check(Some(full.to_claims()), "j", 0, true).unwrap_err(),
        AuthError::InvalidToken
    );
    assert_eq!(
        RefreshTokenClaims::check(None, "i", 0, true).unwrap_err(),
        AuthError::InvalidToken
    );

    let access = AccessTokenClaims {
        sub: 1,
        email: "a@b.com".to_string(),
        name: "Ann".to_string(),
        role: "user".to_string(),
        iat: 1,
        exp: 100,
        iss: "i".to_string(),
        aud: "a".to_string(),
        jti: 2,
    };
    assert_eq!(access.to_claims().len(), 9);
    let read = AccessTokenClaims::from_claims(&access.to_claims()).unwrap();
    assert_eq!(read.sub, 1);
    assert_eq!(read.jti, 2);
    assert_eq!(read.email, "a@b.com");
    assert_eq!(read.name, "Ann");
    assert_eq!(read.role, "user");
    assert_eq!(read.iat, 1);
    assert_eq!(read.exp, 100);
    assert_eq!(read.iss, "i");
    assert_eq!(read.aud, "a");
    let widest = RefreshTokenClaims { sub: u128::MAX, tid: 0, iat: 0, exp: 0, iss: String::new() };
    let read = RefreshTokenClaims::from_claims(&widest.to_claims()).unwrap();
    assert_eq!(read.sub, u128::MAX);
    assert_eq!(read.tid, 0);
    assert!(AccessTokenClaims::check(Some(access.to_claims()), "i", "a", 160).is_ok());
    assert!(AccessTokenClaims::check(Some(access.to_claims()), "i", "a", 161).is_err());
    assert!(AccessTokenClaims::check(Some(access.to_claims()), "i", "b", 0).is_err());
    assert!(AccessTokenClaims::check(Some(access.to_claims()), "x", "a", 0).is_err());
    assert!(AccessTokenClaims::check(None, "i", "a", 0).is_err());
}

#[test]
fn client_information() {
    assert_eq!(take_first_entry("1.2.3.4, 5.6.7.8"), "1.2.3.4");
    assert_eq!(take_first_entry("1.2.3.4"), "1.2.3.4");
    assert_eq!(take_first_entry(",x"), "");
    assert_eq!(take_first_entry(""), "");

    let info = ClientInfo::from_headers(Some(" 1.2.3.4 , 5.6.7.8"), Some("9.9.9.9"), Some("agent"));
    assert_eq!(info.ip, Some("1.2.3.4".to_string()));
    assert_eq!(info.user_agent, Some("agent".to_string()));
    let info = ClientInfo::from_headers(None, Some("9.9.9.9"), None);
    assert_eq!(info.ip, Some("9.9.9.9".to_string()));
    assert_eq!(info.user_agent, None);
    let info = ClientInfo::from_headers(None, None, None);
    assert_eq!(info.ip, None);
}

#[test]
fn configuration_from_the_environment() {
    let unset = ConfigVars {
        jwt_access_expiration: None,
        jwt_refresh_expiration: None,
        jwt_issuer: None,
        jwt_audience: None,
        argon2_memory_cost: None,
        argon2_time_cost: None,
        argon2_parallelism: None,
        max_login_attempts: None,
        lockout_duration: None,
        password_reset_expiration: None,
        email_verification_expiration: None,
        min_password_length: None,
        require_email_verification: None,
    };
    let config = AuthConfig::from_vars("s".repeat(32), &unset);
    assert_eq!(config.access_token_expiration, 900);
    assert_eq!(config.refresh_token_expiration, 604800);
    assert_eq!(config.jwt_issuer, "rustpress");
    assert_eq!(config.jwt_audience, "rustpress-api");
    assert_eq!(config.argon2_memory_cost, 65536);
    assert_eq!(config.argon2_time_cost, 3);
    assert_eq!(config.argon2_parallelism, 4);
    assert_eq!(config.max_login_attempts, 5);
    assert_eq!(config.lockout_duration, 900);
    assert_eq!(config.password_reset_expiration, 3600);
    assert_eq!(config.email_verification_expiration, 86400);
    assert_eq!(config.min_password_length, 8);
    assert!(!config.require_email_verification);

    let set = ConfigVars {
        jwt_access_expiration: Some("60".to_string()),
        jwt_refresh_expiration: Some("not a number".to_string()),
        jwt_issuer: Some("me".to_string()),
        jwt_audience: Some("you".to_string()),
        argon2_memory_cost: Some("1024".to_string()),
        argon2_time_cost: Some("-1".to_string()),
        argon2_parallelism: Some("2".to_string()),
        max_login_attempts: Some("3".to_string()),
        lockout_duration: Some("30".to_string()),
        password_reset_expiration: Some("".to_string()),
        email_verification_expiration: Some("7".to_string()),
        min_password_length: Some("12".to_string()),
        require_email_verification: Some("TRUE".to_string()),
    };
    let config = AuthConfig::from_vars("s".repeat(32), &set);
    assert_eq!(config.access_token_expiration, 60);
    assert_eq!(config.refresh_token_expiration, 604800);
    assert_eq!(config.jwt_issuer, "me");
    assert_eq!(config.jwt_audience, "you");
    assert_eq!(config.argon2_memory_cost, 1024);
    assert_eq!(config.argon2_time_cost, 3);
    assert_eq!(config.argon2_parallelism, 2);
    assert_eq!(config.max_login_attempts, 3);
    assert_eq!(config.lockout_duration, 30);
    assert_eq!(config.password_reset_expiration, 3600);
    assert_eq!(config.email_verification_expiration, 7);
    assert_eq!(config.min_password_length, 12);
    assert!(config.require_email_verification);
    let mut other = set;
    other.require_email_verification = Some("yes".to_string());
    assert!(!AuthConfig::from_vars("s".repeat(32), &other).require_email_verification);
    // A length that no machine word holds falls to the default.
    other.min_password_length = Some("99999999999999999999999".to_string());
    assert_eq!(AuthConfig::from_vars("s".repeat(32), &other).min_password_length, 8);
    other.min_password_length = Some("-1".to_string());
    assert_eq!(AuthConfig::from_vars("s".repeat(32), &other).min_password_length, 8);
    other.min_password_length = Some("4294967295".to_string());
    assert_eq!(AuthConfig::from_vars("s".repeat(32), &other).min_password_length, 4294967295);
}

#[test]
fn requests_end_to_end() {
    let mut settings = config();
    settings.require_email_verification = true;
    let auth = AuthService::new(settings);
    let mut store = SecretStore::new();
    let client = || ClientInfo { ip: Some("1.2.3.4".to_string()), user_agent: None };

    assert_eq!(RegisterResponse::status_code(), 201);
    let registered = handlers::register(
        &auth,
        &mut store,
        RegisterRequest {
            email: "a@b.com".to_string(),
            password: "Secret123".to_string(),
            password_confirm: "Secret123".to_string(),
            name: "Ann".to_string(),
        },
        T0,
    )
    .unwrap();
    assert_eq!(registered.message, "Registration successful. Please verify your email.");
    assert_eq!(registered.user.email, "a@b.com");
    assert!(!registered.user.email_verified);
    assert_eq!(registered.verification_token.len(), 64);
    assert_eq!(store.email_verifications.len(), 1);
    let me = caller(registered.user.id, "user");

    let login = |store: &mut SecretStore, password: &str, now: i64| {
        handlers::login(
            &auth,
            store,
            client(),
            LoginRequest { email: "a@b.com".to_string(), password: password.to_string() },
            now,
        )
    };
    assert_eq!(login(&mut store, "Secret123", T0).unwrap_err(), AuthError::EmailNotVerified);
    assert_eq!(
        login(&mut store, "", T0).unwrap_err(),
        AuthError::Validation(ValidationFault::PasswordRequired)
    );

    let resent = handlers::resend_verification(&auth, &mut store, &me, T0 + 1).unwrap();
    assert_eq!(resent.message, "Verification email sent");
    let token = resent.verification_token.unwrap();
    assert_eq!(
        handlers::verify_email(&auth, &mut store, VerifyEmailRequest { token: String::new() }, T0 + 2)
            .unwrap_err(),
        AuthError::Validation(ValidationFault::TokenRequired)
    );
    assert_eq!(
        handlers::verify_email(
            &auth,
            &mut store,
            VerifyEmailRequest { token: registered.verification_token.clone() },
            T0 + 2
        )
        .unwrap_err(),
        AuthError::InvalidToken
    );
    let verified =
        handlers::verify_email(&auth, &mut store, VerifyEmailRequest { token }, T0 + 2).unwrap();
    assert_eq!(verified.message, "Email verified successfully");
    assert!(verified.user.email_verified);
    let resent = handlers::resend_verification(&auth, &mut store, &me, T0 + 3).unwrap();
    assert_eq!(resent.message, "Email is already verified");
    assert_eq!(resent.verification_token, None);
    assert_eq!(
        handlers::resend_verification(&auth, &mut store, &caller(0, "user"), T0 + 3).unwrap_err(),
        AuthError::UserNotFound
    );

    let session = login(&mut store, "Secret123", T0 + 4).unwrap();
    assert_eq!(session.token_type, "Bearer");
    assert_eq!(store.refresh_tokens.get(0).ip_address, Some("1.2.3.4".to_string()));
    let current = handlers::get_current_user(&store, &me).unwrap();
    assert_eq!(current.id, me.id);
    assert_eq!(current.role, UserRole::User);
    assert!(current.email_verified);
    assert_eq!(
        handlers::get_current_user(&store, &caller(0, "user")).unwrap_err(),
        AuthError::UserNotFound
    );

    let refreshed = handlers::refresh_token(
        &auth,
        &mut store,
        client(),
        RefreshTokenRequest { refresh_token: session.refresh_token.clone() },
        T0 + 5,
    )
    .unwrap();
    assert_eq!(
        handlers::refresh_token(
            &auth,
            &mut store,
            client(),
            RefreshTokenRequest { refresh_token: String::new() },
            T0 + 5,
        )
        .unwrap_err(),
        AuthError::Validation(ValidationFault::RefreshTokenRequired)
    );
    let out = handlers::logout(
        &auth,
        &mut store,
        RefreshTokenRequest { refresh_token: refreshed.refresh_token.clone() },
        T0 + 6,
    )
    .unwrap();
    assert_eq!(out.message, "Logged out successfully");
    assert_eq!(store.refresh_tokens.get(1).revoked_at, Some(T0 + 6));

    let changed = handlers::change_password(
        &auth,
        &mut store,
        &me,
        ChangePasswordRequest {
            current_password: "Secret123".to_string(),
            new_password: "Newpass123".to_string(),
            new_password_confirm: "Newpass123".to_string(),
        },
        T0 + 7,
    )
    .unwrap();
    assert_eq!(
        changed.message,
        "Password changed successfully. Please login again on all devices."
    );

    assert_eq!(
        handlers::forgot_password(
            &auth,
            &mut store,
            ForgotPasswordRequest { email: "nobody".to_string() },
            T0 + 8
        )
        .unwrap_err(),
        AuthError::Validation(ValidationFault::InvalidEmail)
    );
    let unknown = handlers::forgot_password(
        &auth,
        &mut store,
        ForgotPasswordRequest { email: "unknown@x.test".to_string() },
        T0 + 8,
    )
    .unwrap();
    let known = handlers::forgot_password(
        &auth,
        &mut store,
        ForgotPasswordRequest { email: "a@b.com".to_string() },
        T0 + 8,
    )
    .unwrap();
    assert_eq!(unknown.message, known.message);
    assert_eq!(unknown.reset_token, None);
    let reset_token = known.reset_token.unwrap();
    let reset = handlers::reset_password(
        &auth,
        &mut store,
        ResetPasswordRequest {
            token: reset_token.clone(),
            password: "Third1234".to_string(),
            password_confirm: "Third1234".to_string(),
        },
        T0 + 9,
    )
    .unwrap();
    assert_eq!(reset.message, "Password reset successful. Please login with your new password.");
    assert_eq!(
        handlers::reset_password(
            &auth,
            &mut store,
            ResetPasswordRequest {
                token: reset_token,
                password: "Fourth1234".to_string(),
                password_confirm: "Fourth1234".to_string(),
            },
            T0 + 10,
        )
        .unwrap_err(),
        AuthError::InvalidToken
    );
    assert!(login(&mut store, "Third1234", T0 + 11).is_ok());
    assert_eq!(MessageResponse::new("hello").message, "hello");
}
