//! Sessions: login, refresh with rotation and reuse detection, and logout.

use crate::config::AuthConfig;
use crate::encoding::{base64_url_encode, lowercase_of, random_bytes, to_lowercase};
use crate::error::AuthError;
use crate::guard::{after_failed_attempt, after_successful_login, record_failure, record_success};
use crate::hasher::{password_matches, fresh_salt};
use crate::lookup::{first_index, lemma_first_index, lemma_first_index_push};
use crate::models::{
    clone_text, spec_time_after, text_view, time_after, RefreshToken, RefreshTokenView, User,
    UserStatus, UserView,
};
use crate::requests::LoginRequest;
use crate::responses::{
    public_user, AuthResponse, AuthResponseView, TokenResponse, TokenResponseView, UserResponse,
};
use crate::service::AuthService;
use crate::store::{
    lemma_user_found, refresh_revoke_at, refresh_tokens_can_add,
    refresh_with_id, revoke_owned, revoked_record, user_with_email, user_with_id, SecretStore,
    StoreView,
};
use crate::token::{
    access_token_for, fresh_id, refresh_statement_check, refresh_statement_for,
    refresh_token_parts, refresh_token_text, secret_text, split_refresh_token, token_digest,
};
use vstd::prelude::*;
use vstd::string::StringExecFns;

verus! {

/// The values that an operation draws from the random source: the id of the
/// record it creates, the id of the access token it signs, the bytes of the
/// secret it hands out, and the salt of the digest it computes.
#[derive(Debug)]
pub struct Entropy {
    pub id: u128,
    pub jti: u128,
    pub secret: Vec<u8>,
    pub salt: String,
}

pub struct EntropyView {
    pub id: u128,
    pub jti: u128,
    pub secret: Seq<u8>,
    pub salt: Seq<char>,
}

impl View for Entropy {
    type V = EntropyView;

    open spec fn view(&self) -> EntropyView {
        EntropyView { id: self.id, jti: self.jti, secret: self.secret@, salt: self.salt@ }
    }
}

impl Entropy {
    /// Draws fresh values from the random source. Only the length of the
    /// secret is known of them.
    pub fn draw() -> (entropy: Entropy)
        ensures
            entropy@.secret.len() == 32,
    {
        Entropy { id: fresh_id(), jti: fresh_id(), secret: random_bytes(), salt: fresh_salt() }
    }
}

/// An access token and the refresh token issued with it.
#[derive(Debug)]
pub struct TokenPair {
    pub access_token: String,
    pub refresh_token: String,
}

pub struct TokenPairView {
    pub access_token: Seq<char>,
    pub refresh_token: Seq<char>,
}

impl View for TokenPair {
    type V = TokenPairView;

    open spec fn view(&self) -> TokenPairView {
        TokenPairView { access_token: self.access_token@, refresh_token: self.refresh_token@ }
    }
}

pub open spec fn pair_result_view(result: Result<TokenPair, AuthError>) -> Result<
    TokenPairView,
    AuthError,
> {
    match result {
        Ok(pair) => Ok(pair@),
        Err(e) => Err(e),
    }
}

pub open spec fn auth_result_view(result: Result<AuthResponse, AuthError>) -> Result<
    AuthResponseView,
    AuthError,
> {
    match result {
        Ok(answer) => Ok(answer@),
        Err(e) => Err(e),
    }
}

pub open spec fn token_result_view(result: Result<TokenResponse, AuthError>) -> Result<
    TokenResponseView,
    AuthError,
> {
    match result {
        Ok(answer) => Ok(answer@),
        Err(e) => Err(e),
    }
}

// ---------------------------------------------------------------------------
// Issuing a pair of tokens
// ---------------------------------------------------------------------------
/// The record of a refresh token issued at `now`. Only the digest of the
/// secret is part of it.
pub open spec fn new_refresh_record(
    user_id: u128,
    config: &AuthConfig,
    ip: Option<Seq<char>>,
    user_agent: Option<Seq<char>>,
    now: i64,
    entropy: EntropyView,
) -> RefreshTokenView {
    RefreshTokenView {
        id: entropy.id,
        user_id: user_id,
        token_hash: token_digest(secret_text(entropy.secret)),
        expires_at: spec_time_after(now, config.refresh_token_expiration),
        issued_at: now,
        revoked_at: None,
        replaced_by: None,
        user_agent: user_agent,
        ip_address: ip,
        created_at: now,
    }
}

/// Issuing a refresh token to an account: the statement is signed, the
/// record is added to the store, and the token is the statement joined to
/// the secret. Where signing fails or the record's keys are taken, nothing
/// changes and the error is internal.
pub open spec fn refresh_issue_model(
    store: StoreView,
    config: &AuthConfig,
    user_id: u128,
    ip: Option<Seq<char>>,
    user_agent: Option<Seq<char>>,
    now: i64,
    entropy: EntropyView,
) -> (StoreView, Result<Seq<char>, AuthError>) {
    let record = new_refresh_record(user_id, config, ip, user_agent, now, entropy);
    match refresh_statement_for(user_id, entropy.id, config, now) {
        Some(statement) => if refresh_tokens_can_add(store.refresh_tokens, record) {
            (
                StoreView { refresh_tokens: store.refresh_tokens.push(record), ..store },
                Ok(refresh_token_text(statement, secret_text(entropy.secret))),
            )
        } else {
            (store, Err(AuthError::Internal))
        },
        None => (store, Err(AuthError::Internal)),
    }
}

/// Issuing a pair of tokens to an account: the access token is signed and
/// the refresh token is issued. Where either fails, nothing changes and the
/// error is internal.
pub open spec fn issue_model(
    store: StoreView,
    config: &AuthConfig,
    user: UserView,
    ip: Option<Seq<char>>,
    user_agent: Option<Seq<char>>,
    now: i64,
    entropy: EntropyView,
) -> (StoreView, Result<TokenPairView, AuthError>) {
    match access_token_for(user, config, now, entropy.jti) {
        None => (store, Err(AuthError::Internal)),
        Some(access) => match refresh_issue_model(
            store,
            config,
            user.id,
            ip,
            user_agent,
            now,
            entropy,
        ) {
            (issued, Ok(refresh)) => (
                issued,
                Ok(TokenPairView { access_token: access, refresh_token: refresh }),
            ),
            (_, Err(e)) => (store, Err(e)),
        },
    }
}

// ---------------------------------------------------------------------------
// Login
// ---------------------------------------------------------------------------
/// Why an account may not log in at `now`, whatever the password: it is
/// locked, or it is not active.
pub open spec fn login_rejection(user: UserView, config: &AuthConfig, now: i64) -> Option<
    AuthError,
> {
    if user.is_locked(now) {
        Some(AuthError::AccountLocked)
    } else if user.status != UserStatus::Active {
        if user.status == UserStatus::Pending && config.require_email_verification {
            Some(AuthError::EmailNotVerified)
        } else {
            Some(AuthError::AccountNotActive)
        }
    } else {
        None
    }
}

/// The answer to a successful login.
pub open spec fn login_answer(user: UserView, pair: TokenPairView, config: &AuthConfig) -> AuthResponseView {
    AuthResponseView {
        user: public_user(user),
        access_token: pair.access_token,
        refresh_token: pair.refresh_token,
        token_type: "Bearer"@,
        expires_in: config.access_token_expiration,
    }
}

/// Login. An unknown email and a wrong password give the same error. A
/// locked or inactive account is refused before the password is looked at.
/// A wrong password is counted against the account; a right one resets the
/// counter, clears the lockout and issues a pair of tokens.
pub open spec fn login_model(
    store: StoreView,
    config: &AuthConfig,
    email: Seq<char>,
    password: Seq<char>,
    ip: Option<Seq<char>>,
    user_agent: Option<Seq<char>>,
    now: i64,
    entropy: EntropyView,
) -> (StoreView, Result<AuthResponseView, AuthError>) {
    match first_index(store.users, user_with_email(lowercase_of(email))) {
        None => (store, Err(AuthError::InvalidCredentials)),
        Some(at) => {
            let user = store.users[at];
            match login_rejection(user, config, now) {
                Some(rejection) => (store, Err(rejection)),
                None => if !password_matches(password, user.password_hash) {
                    (
                        StoreView {
                            users: store.users.update(at, after_failed_attempt(user, config, now)),
                            ..store
                        },
                        Err(AuthError::InvalidCredentials),
                    )
                } else {
                    let welcomed = after_successful_login(user, now, ip);
                    match issue_model(store, config, welcomed, ip, user_agent, now, entropy) {
                        (issued, Ok(pair)) => (
                            StoreView { users: store.users.update(at, welcomed), ..issued },
                            Ok(login_answer(welcomed, pair, config)),
                        ),
                        (_, Err(e)) => (store, Err(e)),
                    }
                },
            }
        },
    }
}

// ---------------------------------------------------------------------------
// Refresh
// ---------------------------------------------------------------------------
/// The answer to a successful refresh.
pub open spec fn refresh_answer(pair: TokenPairView, config: &AuthConfig) -> TokenResponseView {
    TokenResponseView {
        access_token: pair.access_token,
        refresh_token: pair.refresh_token,
        token_type: "Bearer"@,
        expires_in: config.access_token_expiration,
    }
}

/// Refresh. The token must split into a signed statement and a secret, the
/// statement must verify and be unexpired, and the record it names must hold
/// the digest of the secret and belong to the account it names. A revoked
/// record means the token was used before: every refresh token of the
/// account is revoked and the answer is that the token is revoked. An
/// expired record is invalid. Otherwise a new pair is issued and, in the
/// same step, the presented record is revoked and linked to its successor.
pub open spec fn refresh_model(
    store: StoreView,
    config: &AuthConfig,
    token: Seq<char>,
    ip: Option<Seq<char>>,
    user_agent: Option<Seq<char>>,
    now: i64,
    entropy: EntropyView,
) -> (StoreView, Result<TokenResponseView, AuthError>) {
    match refresh_token_parts(token) {
        None => (store, Err(AuthError::InvalidToken)),
        Some((statement, secret)) => match refresh_statement_check(config, statement, now, true) {
            Err(e) => (store, Err(e)),
            Ok(claims) => match first_index(store.refresh_tokens, refresh_with_id(claims.tid)) {
                None => (store, Err(AuthError::InvalidToken)),
                Some(at) => {
                    let record = store.refresh_tokens[at];
                    if record.token_hash != token_digest(secret) || record.user_id != claims.sub {
                        (store, Err(AuthError::InvalidToken))
                    } else if record.is_revoked() {
                        (
                            StoreView {
                                refresh_tokens: revoke_owned(
                                    store.refresh_tokens,
                                    record.user_id,
                                    now,
                                ),
                                ..store
                            },
                            Err(AuthError::TokenRevoked),
                        )
                    } else if record.is_expired(now) {
                        (store, Err(AuthError::InvalidToken))
                    } else {
                        match first_index(store.users, user_with_id(claims.sub)) {
                            None => (store, Err(AuthError::UserNotFound)),
                            Some(owner) => if !store.users[owner].can_login(now) {
                                (store, Err(AuthError::AccountNotActive))
                            } else {
                                match issue_model(
                                    store,
                                    config,
                                    store.users[owner],
                                    ip,
                                    user_agent,
                                    now,
                                    entropy,
                                ) {
                                    (issued, Ok(pair)) => (
                                        StoreView {
                                            refresh_tokens: issued.refresh_tokens.update(
                                                at,
                                                revoked_record(record, now, Some(entropy.id)),
                                            ),
                                            ..issued
                                        },
                                        Ok(refresh_answer(pair, config)),
                                    ),
                                    (_, Err(e)) => (store, Err(e)),
                                }
                            },
                        }
                    }
                },
            },
        },
    }
}

// ---------------------------------------------------------------------------
// Logout
// ---------------------------------------------------------------------------
/// Logout. Only the signature and the issuer of the statement are checked.
/// The record it names is revoked if it is not revoked yet; where it is
/// revoked already, or there is none, nothing changes and logout still
/// succeeds.
pub open spec fn logout_model(store: StoreView, config: &AuthConfig, token: Seq<char>, now: i64) -> (
    StoreView,
    Result<(), AuthError>,
) {
    match refresh_token_parts(token) {
        None => (store, Err(AuthError::InvalidToken)),
        Some((statement, secret)) => match refresh_statement_check(config, statement, now, false) {
            Err(e) => (store, Err(e)),
            Ok(claims) => match refresh_revoke_at(store.refresh_tokens, claims.tid) {
                Some(at) => (
                    StoreView {
                        refresh_tokens: store.refresh_tokens.update(
                            at,
                            revoked_record(store.refresh_tokens[at], now, None),
                        ),
                        ..store
                    },
                    Ok(()),
                ),
                None => (store, Ok(())),
            },
        },
    }
}

impl AuthService {
    /// Issues a refresh token with the given random values and adds its
    /// record to the store.
    pub fn generate_refresh_token_with(
        &self,
        store: &mut SecretStore,
        user_id: u128,
        ip: Option<String>,
        user_agent: Option<String>,
        now: i64,
        entropy: &Entropy,
    ) -> (token: Result<String, AuthError>)
        ensures
            (final(store)@, crate::hasher::text_result(token)) == refresh_issue_model(
                old(store)@,
                self.config(),
                user_id,
                text_view(ip),
                text_view(user_agent),
                now,
                entropy@,
            ),
    {
        let statement = match self.sign_refresh_statement(user_id, entropy.id, now) {
            Ok(token) => token,
            Err(_) => return Err(AuthError::Internal),
        };
        let secret = base64_url_encode(entropy.secret.as_slice());
        let record = RefreshToken {
            id: entropy.id,
            user_id,
            token_hash: self.hash_token(secret.as_str()),
            expires_at: time_after(now, self.config().refresh_token_expiration),
            issued_at: now,
            revoked_at: None,
            replaced_by: None,
            user_agent,
            ip_address: ip,
            created_at: now,
        };
        if !store.refresh_tokens.insert(record) {
            return Err(AuthError::Internal);
        }
        proof {
            reveal_strlit(".");
            assert("."@ =~= seq!['.']);
        }
        Ok(statement.concat(".").concat(secret.as_str()))
    }

    /// Issues a refresh token and adds its record to the store. Whatever
    /// values are drawn from the random source, the outcome is that of
    /// `refresh_issue_model` for them.
    pub fn generate_refresh_token(
        &self,
        store: &mut SecretStore,
        user_id: u128,
        ip: Option<String>,
        user_agent: Option<String>,
        now: i64,
    ) -> (token: Result<String, AuthError>)
        ensures
            exists|entropy: EntropyView|
                entropy.secret.len() == 32 && (final(store)@, crate::hasher::text_result(token)) == refresh_issue_model(
                    old(store)@,
                    self.config(),
                    user_id,
                    text_view(ip),
                    text_view(user_agent),
                    now,
                    entropy,
                ),
    {
        let entropy = Entropy::draw();
        let token = self.generate_refresh_token_with(store, user_id, ip, user_agent, now, &entropy);
        assert((store@, crate::hasher::text_result(token)) == refresh_issue_model(
            old(store)@,
            self.config(),
            user_id,
            text_view(ip),
            text_view(user_agent),
            now,
            entropy@,
        ));
        token
    }

    /// Issues an access token and a refresh token to an account and adds the
    /// record of the refresh token to the store.
    pub fn generate_token_pair(
        &self,
        store: &mut SecretStore,
        user: &User,
        ip: Option<String>,
        user_agent: Option<String>,
        now: i64,
        entropy: &Entropy,
    ) -> (pair: Result<TokenPair, AuthError>)
        ensures
            (final(store)@, pair_result_view(pair)) == issue_model(
                old(store)@,
                self.config(),
                user@,
                text_view(ip),
                text_view(user_agent),
                now,
                entropy@,
            ),
    {
        let access_token = match self.sign_access_token(user, now, entropy.jti) {
            Ok(token) => token,
            Err(_) => return Err(AuthError::Internal),
        };
        match self.generate_refresh_token_with(store, user.id, ip, user_agent, now, entropy) {
            Ok(refresh_token) => Ok(TokenPair { access_token, refresh_token }),
            Err(e) => Err(e),
        }
    }

    /// Login with the given random values.
    pub fn login_with(
        &self,
        store: &mut SecretStore,
        req: &LoginRequest,
        ip: Option<String>,
        user_agent: Option<String>,
        now: i64,
        entropy: &Entropy,
    ) -> (answer: Result<AuthResponse, AuthError>)
        ensures
            (final(store)@, auth_result_view(answer)) == login_model(
                old(store)@,
                self.config(),
                req.email@,
                req.password@,
                text_view(ip),
                text_view(user_agent),
                now,
                entropy@,
            ),
    {
        proof {
            use_type_invariant(&store.users);
        }
        let email = to_lowercase(req.email.as_str());
        proof {
            lemma_first_index(store@.users, user_with_email(email@));
        }
        let user = match store.users.find_by_email(email.as_str()) {
            Some(user) => user,
            None => return Err(AuthError::InvalidCredentials),
        };
        let ghost at = first_index(store@.users, user_with_email(email@)).unwrap();
        proof {
            lemma_user_found(store@.users, at);
        }
        if user.is_locked(now) {
            return Err(AuthError::AccountLocked);
        }
        if user.status != UserStatus::Active {
            if user.status == UserStatus::Pending && self.config().require_email_verification {
                return Err(AuthError::EmailNotVerified);
            }
            return Err(AuthError::AccountNotActive);
        }
        if !self.verify_password(req.password.as_str(), user.password_hash.as_str()) {
            let failed = record_failure(user, self.config(), now);
            let kept = store.users.replace(failed);
            assert(kept);
            return Err(AuthError::InvalidCredentials);
        }
        let welcomed = record_success(user, now, clone_text(&ip));
        let pair = match self.generate_token_pair(store, &welcomed, ip, user_agent, now, entropy) {
            Ok(pair) => pair,
            Err(e) => return Err(e),
        };
        let shown = UserResponse::of(&welcomed);
        let kept = store.users.replace(welcomed);
        assert(kept);
        Ok(
            AuthResponse {
                user: shown,
                access_token: pair.access_token,
                refresh_token: pair.refresh_token,
                token_type: String::from_str("Bearer"),
                expires_in: self.config().access_token_expiration,
            },
        )
    }

    /// Login. Whatever values are drawn from the random source, the outcome
    /// is that of `login_model` for them.
    pub fn login(
        &self,
        store: &mut SecretStore,
        req: LoginRequest,
        ip: Option<String>,
        user_agent: Option<String>,
        now: i64,
    ) -> (answer: Result<AuthResponse, AuthError>)
        ensures
            exists|entropy: EntropyView|
                entropy.secret.len() == 32 && (final(store)@, auth_result_view(answer)) == login_model(
                    old(store)@,
                    self.config(),
                    req.email@,
                    req.password@,
                    text_view(ip),
                    text_view(user_agent),
                    now,
                    entropy,
                ),
    {
        let entropy = Entropy::draw();
        let answer = self.login_with(store, &req, ip, user_agent, now, &entropy);
        assert((store@, auth_result_view(answer)) == login_model(
            old(store)@,
            self.config(),
            req.email@,
            req.password@,
            text_view(ip),
            text_view(user_agent),
            now,
            entropy@,
        ));
        answer
    }

    /// Refresh with the given random values.
    pub fn refresh_tokens_with(
        &self,
        store: &mut SecretStore,
        refresh_token: &str,
        ip: Option<String>,
        user_agent: Option<String>,
        now: i64,
        entropy: &Entropy,
    ) -> (answer: Result<TokenResponse, AuthError>)
        ensures
            (final(store)@, token_result_view(answer)) == refresh_model(
                old(store)@,
                self.config(),
                refresh_token@,
                text_view(ip),
                text_view(user_agent),
                now,
                entropy@,
            ),
    {
        let (statement, secret) = match split_refresh_token(refresh_token) {
            Some(parts) => parts,
            None => return Err(AuthError::InvalidToken),
        };
        let claims = match self.decode_refresh_token(statement.as_str(), now) {
            Ok(claims) => claims,
            Err(e) => return Err(e),
        };
        proof {
            lemma_first_index(store@.refresh_tokens, refresh_with_id(claims.tid));
        }
        let record = match store.refresh_tokens.find_by_id(claims.tid) {
            Some(record) => record,
            None => return Err(AuthError::InvalidToken),
        };
        let ghost at = first_index(store@.refresh_tokens, refresh_with_id(claims.tid)).unwrap();
        let digest = self.hash_token(secret.as_str());
        if record.token_hash != digest || record.user_id != claims.sub {
            return Err(AuthError::InvalidToken);
        }
        if record.is_revoked() {
            store.refresh_tokens.revoke_all_for_user(record.user_id, now);
            return Err(AuthError::TokenRevoked);
        }
        if record.is_expired(now) {
            return Err(AuthError::InvalidToken);
        }
        let user = match store.users.find_by_id(claims.sub) {
            Some(user) => user,
            None => return Err(AuthError::UserNotFound),
        };
        if !user.can_login(now) {
            return Err(AuthError::AccountNotActive);
        }
        let pair = match self.generate_token_pair(store, &user, ip, user_agent, now, entropy) {
            Ok(pair) => pair,
            Err(e) => return Err(e),
        };
        proof {
            let added = store@.refresh_tokens.last();
            assert(store@.refresh_tokens == old(store)@.refresh_tokens.push(added));
            lemma_first_index_push(
                old(store)@.refresh_tokens,
                added,
                refresh_with_id(claims.tid),
            );
        }
        let rotated = store.refresh_tokens.revoke(claims.tid, now, Some(entropy.id));
        assert(rotated);
        Ok(
            TokenResponse {
                access_token: pair.access_token,
                refresh_token: pair.refresh_token,
                token_type: String::from_str("Bearer"),
                expires_in: self.config().access_token_expiration,
            },
        )
    }

    /// Refresh. Whatever values are drawn from the random source, the
    /// outcome is that of `refresh_model` for them.
    pub fn refresh_tokens(
        &self,
        store: &mut SecretStore,
        refresh_token: &str,
        ip: Option<String>,
        user_agent: Option<String>,
        now: i64,
    ) -> (answer: Result<TokenResponse, AuthError>)
        ensures
            exists|entropy: EntropyView|
                entropy.secret.len() == 32 && (final(store)@, token_result_view(answer)) == refresh_model(
                    old(store)@,
                    self.config(),
                    refresh_token@,
                    text_view(ip),
                    text_view(user_agent),
                    now,
                    entropy,
                ),
    {
        let entropy = Entropy::draw();
        let answer = self.refresh_tokens_with(store, refresh_token, ip, user_agent, now, &entropy);
        assert((store@, token_result_view(answer)) == refresh_model(
            old(store)@,
            self.config(),
            refresh_token@,
            text_view(ip),
            text_view(user_agent),
            now,
            entropy@,
        ));
        answer
    }

    /// Logout: revokes the record that the refresh token names.
    pub fn logout(&self, store: &mut SecretStore, refresh_token: &str, now: i64) -> (done: Result<
        (),
        AuthError,
    >)
        ensures
            (final(store)@, done) == logout_model(old(store)@, self.config(), refresh_token@, now),
    {
        let (statement, _secret) = match split_refresh_token(refresh_token) {
            Some(parts) => parts,
            None => return Err(AuthError::InvalidToken),
        };
        let claims = match self.read_refresh_statement(statement.as_str(), now, false) {
            Ok(claims) => claims,
            Err(e) => return Err(e),
        };
        store.refresh_tokens.revoke(claims.tid, now, None);
        Ok(())
    }
}

} // verus!
