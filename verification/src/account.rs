//! Accounts: registration, change of password, password reset and email
//! verification.

use crate::config::AuthConfig;
use crate::encoding::{base64_url_encode, lemma_hex_string_len, lowercase_of, to_lowercase};
use crate::error::{AuthError, ValidationFault};
use crate::hasher::{password_matches, is_strong_password, password_digest, text_result};
use crate::lookup::{first_index, lemma_first_index};
use crate::models::{
    spec_time_after, time_after, SingleUseToken, SingleUseTokenView, User, UserRole, UserStatus,
    UserView,
};
use crate::requests::{ChangePasswordRequest, RegisterRequest, ResetPasswordRequest};
use crate::service::AuthService;
use crate::session::{Entropy, EntropyView};
use crate::store::{
    lemma_single_use_found, revoke_owned, single_use_reissue,
    single_use_with_hash, used_record, user_with_email, user_with_id, users_can_add, SecretStore,
    StoreView,
};
use crate::token::{secret_text, token_digest};
use vstd::prelude::*;

verus! {

pub open spec fn user_result_view(result: Result<User, AuthError>) -> Result<UserView, AuthError> {
    match result {
        Ok(user) => Ok(user@),
        Err(e) => Err(e),
    }
}

// ---------------------------------------------------------------------------
// Registration
// ---------------------------------------------------------------------------
/// The account that a registration creates: an ordinary user, pending while
/// email verification is required and active otherwise, never logged in,
/// with its email in lowercase.
pub open spec fn new_account(
    config: &AuthConfig,
    id: u128,
    email: Seq<char>,
    digest: Seq<char>,
    name: Seq<char>,
    now: i64,
) -> UserView {
    UserView {
        id: id,
        email: lowercase_of(email),
        password_hash: digest,
        name: name,
        role: UserRole::User,
        status: if config.require_email_verification {
            UserStatus::Pending
        } else {
            UserStatus::Active
        },
        email_verified_at: None,
        last_login_at: None,
        last_login_ip: None,
        failed_login_attempts: 0,
        locked_until: None,
        password_changed_at: now,
        created_at: now,
        updated_at: now,
    }
}

/// Registration. A password that is not confirmed, a weak password and an
/// email that an account already has, compared without regard to case, are
/// rejected in that order and change nothing. Otherwise the password is
/// hashed and the account is created.
pub open spec fn register_model(
    store: StoreView,
    config: &AuthConfig,
    email: Seq<char>,
    password: Seq<char>,
    password_confirm: Seq<char>,
    name: Seq<char>,
    now: i64,
    entropy: EntropyView,
) -> (StoreView, Result<UserView, AuthError>) {
    if password_confirm != password {
        (store, Err(AuthError::Validation(ValidationFault::PasswordMismatch)))
    } else if !is_strong_password(password, config.min_password_length) {
        (store, Err(AuthError::WeakPassword))
    } else if first_index(store.users, user_with_email(lowercase_of(email))) is Some {
        (store, Err(AuthError::EmailExists))
    } else {
        match password_digest(config, password, entropy.salt) {
            Err(e) => (store, Err(e)),
            Ok(digest) => {
                let account = new_account(config, entropy.id, email, digest, name, now);
                if users_can_add(store.users, account) {
                    (StoreView { users: store.users.push(account), ..store }, Ok(account))
                } else {
                    (store, Err(AuthError::Internal))
                }
            },
        }
    }
}

// ---------------------------------------------------------------------------
// Passwords
// ---------------------------------------------------------------------------
/// An account after its password has been set at `now`.
pub open spec fn with_password(user: UserView, digest: Seq<char>, now: i64) -> UserView {
    UserView { password_hash: digest, password_changed_at: now, updated_at: now, ..user }
}

/// Change of password. The current password is verified again first; then
/// the new one must be confirmed and strong. Then the new digest is stored
/// and every refresh token of the account is revoked.
pub open spec fn change_password_model(
    store: StoreView,
    config: &AuthConfig,
    user_id: u128,
    current_password: Seq<char>,
    new_password: Seq<char>,
    new_password_confirm: Seq<char>,
    now: i64,
    entropy: EntropyView,
) -> (StoreView, Result<(), AuthError>) {
    match first_index(store.users, user_with_id(user_id)) {
        None => (store, Err(AuthError::UserNotFound)),
        Some(at) => if !password_matches(current_password, store.users[at].password_hash) {
            (store, Err(AuthError::InvalidCredentials))
        } else if new_password_confirm != new_password {
            (store, Err(AuthError::Validation(ValidationFault::PasswordMismatch)))
        } else if !is_strong_password(new_password, config.min_password_length) {
            (store, Err(AuthError::WeakPassword))
        } else {
            match password_digest(config, new_password, entropy.salt) {
                Err(e) => (store, Err(e)),
                Ok(digest) => (
                    StoreView {
                        users: store.users.update(at, with_password(store.users[at], digest, now)),
                        refresh_tokens: revoke_owned(store.refresh_tokens, user_id, now),
                        ..store
                    },
                    Ok(()),
                ),
            }
        },
    }
}

/// The single-use token issued to an account at `now` with a lifetime.
pub open spec fn new_single_use(
    user_id: u128,
    lifetime: i64,
    now: i64,
    entropy: EntropyView,
) -> SingleUseTokenView {
    SingleUseTokenView {
        id: entropy.id,
        user_id: user_id,
        token_hash: token_digest(secret_text(entropy.secret)),
        expires_at: spec_time_after(now, lifetime),
        used_at: None,
        created_at: now,
    }
}

/// Request for a password reset. For an email that no account has, nothing
/// changes and the answer is the empty token. Otherwise every outstanding
/// reset token of the account is invalidated, one new token is stored by
/// its digest, and its value is handed out.
pub open spec fn forgot_password_model(
    store: StoreView,
    config: &AuthConfig,
    email: Seq<char>,
    now: i64,
    entropy: EntropyView,
) -> (StoreView, Result<Seq<char>, AuthError>) {
    match first_index(store.users, user_with_email(lowercase_of(email))) {
        None => (store, Ok(Seq::empty())),
        Some(at) => match single_use_reissue(
            store.password_resets,
            new_single_use(store.users[at].id, config.password_reset_expiration, now, entropy),
            now,
        ) {
            Some(rows) => (
                StoreView { password_resets: rows, ..store },
                Ok(secret_text(entropy.secret)),
            ),
            None => (store, Err(AuthError::Internal)),
        },
    }
}

/// Password reset. The token must be the value of an unused and unexpired
/// reset token; then the new password must be confirmed and strong. Then the
/// new digest is stored, the token is marked used, and every refresh token
/// of the account is revoked.
pub open spec fn reset_password_model(
    store: StoreView,
    config: &AuthConfig,
    token: Seq<char>,
    password: Seq<char>,
    password_confirm: Seq<char>,
    now: i64,
    entropy: EntropyView,
) -> (StoreView, Result<(), AuthError>) {
    match first_index(store.password_resets, single_use_with_hash(token_digest(token))) {
        None => (store, Err(AuthError::InvalidToken)),
        Some(at) => {
            let record = store.password_resets[at];
            if !record.is_usable(now) {
                (store, Err(AuthError::InvalidToken))
            } else if password_confirm != password {
                (store, Err(AuthError::Validation(ValidationFault::PasswordMismatch)))
            } else if !is_strong_password(password, config.min_password_length) {
                (store, Err(AuthError::WeakPassword))
            } else {
                match first_index(store.users, user_with_id(record.user_id)) {
                    None => (store, Err(AuthError::UserNotFound)),
                    Some(owner) => match password_digest(config, password, entropy.salt) {
                        Err(e) => (store, Err(e)),
                        Ok(digest) => (
                            StoreView {
                                users: store.users.update(
                                    owner,
                                    with_password(store.users[owner], digest, now),
                                ),
                                password_resets: store.password_resets.update(
                                    at,
                                    used_record(record, now),
                                ),
                                refresh_tokens: revoke_owned(
                                    store.refresh_tokens,
                                    record.user_id,
                                    now,
                                ),
                                ..store
                            },
                            Ok(()),
                        ),
                    },
                }
            }
        },
    }
}

// ---------------------------------------------------------------------------
// Email verification
// ---------------------------------------------------------------------------
/// Issue of an email-verification token to an account. Every outstanding
/// verification token of the account is invalidated, one new token is
/// stored by its digest, and its value is handed out.
pub open spec fn create_email_verification_model(
    store: StoreView,
    config: &AuthConfig,
    user_id: u128,
    now: i64,
    entropy: EntropyView,
) -> (StoreView, Result<Seq<char>, AuthError>) {
    match first_index(store.users, user_with_id(user_id)) {
        None => (store, Err(AuthError::UserNotFound)),
        Some(_) => match single_use_reissue(
            store.email_verifications,
            new_single_use(user_id, config.email_verification_expiration, now, entropy),
            now,
        ) {
            Some(rows) => (
                StoreView { email_verifications: rows, ..store },
                Ok(secret_text(entropy.secret)),
            ),
            None => (store, Err(AuthError::Internal)),
        },
    }
}

/// An account after its email has been verified at `now`: the time is
/// recorded and a pending account becomes active.
pub open spec fn verified_account(user: UserView, now: i64) -> UserView {
    UserView {
        email_verified_at: Some(now),
        status: if user.status == UserStatus::Pending {
            UserStatus::Active
        } else {
            user.status
        },
        updated_at: now,
        ..user
    }
}

/// Email verification. The token must be the value of an unused and
/// unexpired verification token. Then the account is verified and the token
/// is marked used.
pub open spec fn verify_email_model(store: StoreView, token: Seq<char>, now: i64) -> (
    StoreView,
    Result<UserView, AuthError>,
) {
    match first_index(store.email_verifications, single_use_with_hash(token_digest(token))) {
        None => (store, Err(AuthError::InvalidToken)),
        Some(at) => {
            let record = store.email_verifications[at];
            if !record.is_usable(now) {
                (store, Err(AuthError::InvalidToken))
            } else {
                match first_index(store.users, user_with_id(record.user_id)) {
                    None => (store, Err(AuthError::UserNotFound)),
                    Some(owner) => (
                        StoreView {
                            users: store.users.update(
                                owner,
                                verified_account(store.users[owner], now),
                            ),
                            email_verifications: store.email_verifications.update(
                                at,
                                used_record(record, now),
                            ),
                            ..store
                        },
                        Ok(verified_account(store.users[owner], now)),
                    ),
                }
            }
        },
    }
}

fn set_password(user: User, digest: String, now: i64) -> (after: User)
    ensures
        after@ == with_password(user@, digest@, now),
{
    User {
        id: user.id,
        email: user.email,
        password_hash: digest,
        name: user.name,
        role: user.role,
        status: user.status,
        email_verified_at: user.email_verified_at,
        last_login_at: user.last_login_at,
        last_login_ip: user.last_login_ip,
        failed_login_attempts: user.failed_login_attempts,
        locked_until: user.locked_until,
        password_changed_at: now,
        created_at: user.created_at,
        updated_at: now,
    }
}

fn mark_verified(user: User, now: i64) -> (after: User)
    ensures
        after@ == verified_account(user@, now),
{
    let status = if user.status == UserStatus::Pending {
        UserStatus::Active
    } else {
        user.status
    };
    User {
        id: user.id,
        email: user.email,
        password_hash: user.password_hash,
        name: user.name,
        role: user.role,
        status,
        email_verified_at: Some(now),
        last_login_at: user.last_login_at,
        last_login_ip: user.last_login_ip,
        failed_login_attempts: user.failed_login_attempts,
        locked_until: user.locked_until,
        password_changed_at: user.password_changed_at,
        created_at: user.created_at,
        updated_at: now,
    }
}

impl AuthService {
    fn single_use_token(&self, user_id: u128, lifetime: i64, now: i64, entropy: &Entropy) -> (made: (
        SingleUseToken,
        String,
    ))
        ensures
            made.0@ == new_single_use(user_id, lifetime, now, entropy@),
            made.1@ == secret_text(entropy@.secret),
    {
        let secret = base64_url_encode(entropy.secret.as_slice());
        let record = SingleUseToken {
            id: entropy.id,
            user_id,
            token_hash: self.hash_token(secret.as_str()),
            expires_at: time_after(now, lifetime),
            used_at: None,
            created_at: now,
        };
        (record, secret)
    }

    /// Registration with the given random values.
    pub fn register_with(
        &self,
        store: &mut SecretStore,
        req: &RegisterRequest,
        now: i64,
        entropy: &Entropy,
    ) -> (created: Result<User, AuthError>)
        ensures
            (final(store)@, user_result_view(created)) == register_model(
                old(store)@,
                self.config(),
                req.email@,
                req.password@,
                req.password_confirm@,
                req.name@,
                now,
                entropy@,
            ),
    {
        if req.password_confirm != req.password {
            return Err(AuthError::Validation(ValidationFault::PasswordMismatch));
        }
        match self.validate_password(req.password.as_str()) {
            Ok(_) => {},
            Err(_) => return Err(AuthError::WeakPassword),
        }
        let email = to_lowercase(req.email.as_str());
        if store.users.find_by_email(email.as_str()).is_some() {
            return Err(AuthError::EmailExists);
        }
        let digest = match self.hash_password_with_salt(
            req.password.as_str(),
            entropy.salt.as_str(),
        ) {
            Ok(digest) => digest,
            Err(e) => return Err(e),
        };
        let status = if self.config().require_email_verification {
            UserStatus::Pending
        } else {
            UserStatus::Active
        };
        let account = User {
            id: entropy.id,
            email,
            password_hash: digest,
            name: req.name.clone(),
            role: UserRole::User,
            status,
            email_verified_at: None,
            last_login_at: None,
            last_login_ip: None,
            failed_login_attempts: 0,
            locked_until: None,
            password_changed_at: now,
            created_at: now,
            updated_at: now,
        };
        if !store.users.insert(account.clone()) {
            return Err(AuthError::Internal);
        }
        Ok(account)
    }

    /// Registration. Whatever values are drawn from the random source, the
    /// outcome is that of `register_model` for them.
    pub fn register(&self, store: &mut SecretStore, req: RegisterRequest, now: i64) -> (created:
        Result<User, AuthError>)
        ensures
            exists|entropy: EntropyView|
                entropy.secret.len() == 32 && (final(store)@, user_result_view(created)) == register_model(
                    old(store)@,
                    self.config(),
                    req.email@,
                    req.password@,
                    req.password_confirm@,
                    req.name@,
                    now,
                    entropy,
                ),
    {
        let entropy = Entropy::draw();
        let created = self.register_with(store, &req, now, &entropy);
        assert((store@, user_result_view(created)) == register_model(
            old(store)@,
            self.config(),
            req.email@,
            req.password@,
            req.password_confirm@,
            req.name@,
            now,
            entropy@,
        ));
        created
    }

    /// Change of password with the given random values.
    pub fn change_password_with(
        &self,
        store: &mut SecretStore,
        user_id: u128,
        req: &ChangePasswordRequest,
        now: i64,
        entropy: &Entropy,
    ) -> (done: Result<(), AuthError>)
        ensures
            (final(store)@, done) == change_password_model(
                old(store)@,
                self.config(),
                user_id,
                req.current_password@,
                req.new_password@,
                req.new_password_confirm@,
                now,
                entropy@,
            ),
    {
        proof {
            lemma_first_index(store@.users, user_with_id(user_id));
        }
        let user = match store.users.find_by_id(user_id) {
            Some(user) => user,
            None => return Err(AuthError::UserNotFound),
        };
        if !self.verify_password(req.current_password.as_str(), user.password_hash.as_str()) {
            return Err(AuthError::InvalidCredentials);
        }
        if req.new_password_confirm != req.new_password {
            return Err(AuthError::Validation(ValidationFault::PasswordMismatch));
        }
        match self.validate_password(req.new_password.as_str()) {
            Ok(_) => {},
            Err(_) => return Err(AuthError::WeakPassword),
        }
        let digest = match self.hash_password_with_salt(
            req.new_password.as_str(),
            entropy.salt.as_str(),
        ) {
            Ok(digest) => digest,
            Err(e) => return Err(e),
        };
        let kept = store.users.replace(set_password(user, digest, now));
        assert(kept);
        store.refresh_tokens.revoke_all_for_user(user_id, now);
        Ok(())
    }

    /// Change of password. Whatever salt is drawn, the outcome is that of
    /// `change_password_model` for it.
    pub fn change_password(
        &self,
        store: &mut SecretStore,
        user_id: u128,
        req: ChangePasswordRequest,
        now: i64,
    ) -> (done: Result<(), AuthError>)
        ensures
            exists|entropy: EntropyView|
                entropy.secret.len() == 32 && (final(store)@, done) == change_password_model(
                    old(store)@,
                    self.config(),
                    user_id,
                    req.current_password@,
                    req.new_password@,
                    req.new_password_confirm@,
                    now,
                    entropy,
                ),
    {
        let entropy = Entropy::draw();
        let done = self.change_password_with(store, user_id, &req, now, &entropy);
        assert((store@, done) == change_password_model(
            old(store)@,
            self.config(),
            user_id,
            req.current_password@,
            req.new_password@,
            req.new_password_confirm@,
            now,
            entropy@,
        ));
        done
    }

    /// Request for a password reset with the given random values.
    pub fn forgot_password_with(
        &self,
        store: &mut SecretStore,
        email: &str,
        now: i64,
        entropy: &Entropy,
    ) -> (token: Result<String, AuthError>)
        ensures
            (final(store)@, text_result(token)) == forgot_password_model(
                old(store)@,
                self.config(),
                email@,
                now,
                entropy@,
            ),
    {
        let lower = to_lowercase(email);
        proof {
            lemma_first_index(store@.users, user_with_email(lower@));
        }
        let user = match store.users.find_by_email(lower.as_str()) {
            Some(user) => user,
            None => return Ok(String::new()),
        };
        let (record, secret) = self.single_use_token(
            user.id,
            self.config().password_reset_expiration,
            now,
            entropy,
        );
        if !store.password_resets.reissue(record, now) {
            return Err(AuthError::Internal);
        }
        Ok(secret)
    }

    /// Request for a password reset. Whatever values are drawn from the
    /// random source, the outcome is that of `forgot_password_model` for
    /// them. The token handed out for an email that an account has is 64
    /// characters long; for any other email it is empty.
    pub fn forgot_password(&self, store: &mut SecretStore, email: &str, now: i64) -> (token: Result<
        String,
        AuthError,
    >)
        ensures
            exists|entropy: EntropyView|
                entropy.secret.len() == 32 && (final(store)@, text_result(token)) == forgot_password_model(
                    old(store)@,
                    self.config(),
                    email@,
                    now,
                    entropy,
                ),
            token matches Ok(handed) ==> handed@.len() == if first_index(
                old(store)@.users,
                user_with_email(lowercase_of(email@)),
            ) is Some {
                64nat
            } else {
                0nat
            },
    {
        let entropy = Entropy::draw();
        proof {
            lemma_hex_string_len(entropy@.secret);
        }
        let token = self.forgot_password_with(store, email, now, &entropy);
        assert((store@, text_result(token)) == forgot_password_model(
            old(store)@,
            self.config(),
            email@,
            now,
            entropy@,
        ));
        token
    }

    /// Password reset with the given random values.
    pub fn reset_password_with(
        &self,
        store: &mut SecretStore,
        req: &ResetPasswordRequest,
        now: i64,
        entropy: &Entropy,
    ) -> (done: Result<(), AuthError>)
        ensures
            (final(store)@, done) == reset_password_model(
                old(store)@,
                self.config(),
                req.token@,
                req.password@,
                req.password_confirm@,
                now,
                entropy@,
            ),
    {
        proof {
            use_type_invariant(&store.password_resets);
        }
        let digest = self.hash_token(req.token.as_str());
        proof {
            lemma_first_index(store@.password_resets, single_use_with_hash(digest@));
        }
        let record = match store.password_resets.find_by_hash(digest.as_str()) {
            Some(record) => record,
            None => return Err(AuthError::InvalidToken),
        };
        let ghost at = first_index(store@.password_resets, single_use_with_hash(digest@)).unwrap();
        if !record.is_usable(now) {
            return Err(AuthError::InvalidToken);
        }
        if req.password_confirm != req.password {
            return Err(AuthError::Validation(ValidationFault::PasswordMismatch));
        }
        match self.validate_password(req.password.as_str()) {
            Ok(_) => {},
            Err(_) => return Err(AuthError::WeakPassword),
        }
        proof {
            lemma_first_index(store@.users, user_with_id(record.user_id));
        }
        let user = match store.users.find_by_id(record.user_id) {
            Some(user) => user,
            None => return Err(AuthError::UserNotFound),
        };
        let password_hash = match self.hash_password_with_salt(
            req.password.as_str(),
            entropy.salt.as_str(),
        ) {
            Ok(hash) => hash,
            Err(e) => return Err(e),
        };
        proof {
            lemma_single_use_found(store@.password_resets, at);
        }
        let kept = store.users.replace(set_password(user, password_hash, now));
        assert(kept);
        let redeemed = store.password_resets.redeem(record.id, now);
        assert(redeemed);
        store.refresh_tokens.revoke_all_for_user(record.user_id, now);
        Ok(())
    }

    /// Password reset. Whatever salt is drawn, the outcome is that of
    /// `reset_password_model` for it.
    pub fn reset_password(&self, store: &mut SecretStore, req: ResetPasswordRequest, now: i64) -> (done:
        Result<(), AuthError>)
        ensures
            exists|entropy: EntropyView|
                entropy.secret.len() == 32 && (final(store)@, done) == reset_password_model(
                    old(store)@,
                    self.config(),
                    req.token@,
                    req.password@,
                    req.password_confirm@,
                    now,
                    entropy,
                ),
    {
        let entropy = Entropy::draw();
        let done = self.reset_password_with(store, &req, now, &entropy);
        assert((store@, done) == reset_password_model(
            old(store)@,
            self.config(),
            req.token@,
            req.password@,
            req.password_confirm@,
            now,
            entropy@,
        ));
        done
    }

    /// Issue of an email-verification token with the given random values.
    pub fn create_email_verification_with(
        &self,
        store: &mut SecretStore,
        user_id: u128,
        now: i64,
        entropy: &Entropy,
    ) -> (token: Result<String, AuthError>)
        ensures
            (final(store)@, text_result(token)) == create_email_verification_model(
                old(store)@,
                self.config(),
                user_id,
                now,
                entropy@,
            ),
    {
        if store.users.find_by_id(user_id).is_none() {
            return Err(AuthError::UserNotFound);
        }
        let (record, secret) = self.single_use_token(
            user_id,
            self.config().email_verification_expiration,
            now,
            entropy,
        );
        if !store.email_verifications.reissue(record, now) {
            return Err(AuthError::Internal);
        }
        Ok(secret)
    }

    /// Issue of an email-verification token. Whatever values are drawn from
    /// the random source, the outcome is that of
    /// `create_email_verification_model` for them. The token handed out is
    /// 64 characters long.
    pub fn create_email_verification(&self, store: &mut SecretStore, user_id: u128, now: i64) -> (token:
        Result<String, AuthError>)
        ensures
            exists|entropy: EntropyView|
                entropy.secret.len() == 32 && (final(store)@, text_result(token)) == create_email_verification_model(
                    old(store)@,
                    self.config(),
                    user_id,
                    now,
                    entropy,
                ),
            token matches Ok(handed) ==> handed@.len() == 64,
    {
        let entropy = Entropy::draw();
        proof {
            lemma_hex_string_len(entropy@.secret);
        }
        let token = self.create_email_verification_with(store, user_id, now, &entropy);
        assert((store@, text_result(token)) == create_email_verification_model(
            old(store)@,
            self.config(),
            user_id,
            now,
            entropy@,
        ));
        token
    }

    /// Email verification.
    pub fn verify_email(&self, store: &mut SecretStore, token: &str, now: i64) -> (verified: Result<
        User,
        AuthError,
    >)
        ensures
            (final(store)@, user_result_view(verified)) == verify_email_model(
                old(store)@,
                token@,
                now,
            ),
    {
        proof {
            use_type_invariant(&store.email_verifications);
        }
        let digest = self.hash_token(token);
        proof {
            lemma_first_index(store@.email_verifications, single_use_with_hash(digest@));
        }
        let record = match store.email_verifications.find_by_hash(digest.as_str()) {
            Some(record) => record,
            None => return Err(AuthError::InvalidToken),
        };
        let ghost at = first_index(store@.email_verifications, single_use_with_hash(digest@)).unwrap();
        if !record.is_usable(now) {
            return Err(AuthError::InvalidToken);
        }
        proof {
            lemma_first_index(store@.users, user_with_id(record.user_id));
        }
        let user = match store.users.find_by_id(record.user_id) {
            Some(user) => user,
            None => return Err(AuthError::UserNotFound),
        };
        let verified = mark_verified(user, now);
        proof {
            lemma_single_use_found(store@.email_verifications, at);
        }
        let kept = store.users.replace(verified.clone());
        assert(kept);
        let redeemed = store.email_verifications.redeem(record.id, now);
        assert(redeemed);
        Ok(verified)
    }
}

} // verus!
