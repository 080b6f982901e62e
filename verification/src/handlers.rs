//! The public operations as a request layer calls them: each validates its
//! request, calls the service and builds the answer. Sending the answer is
//! left to the caller.

use crate::account::{
    change_password_model, create_email_verification_model, forgot_password_model,
    register_model, reset_password_model, verify_email_model,
};
use crate::config::AuthConfig;
use crate::error::AuthError;
use crate::http::ClientInfo;
use crate::lookup::first_index;
use crate::models::{text_view, UserView};
use crate::requests::{
    ChangePasswordRequest, ForgotPasswordRequest, LoginRequest, RefreshTokenRequest,
    RegisterRequest, ResetPasswordRequest, VerifyEmailRequest,
};
use crate::responses::{
    public_user, AuthResponse, AuthResponseView, AuthUser, ForgotPasswordResponse,
    MessageResponse, TokenResponse, TokenResponseView, UserResponse, UserResponseView,
};
use crate::service::AuthService;
use crate::session::{
    auth_result_view, login_model, logout_model, refresh_model, token_result_view, Entropy,
    EntropyView,
};
use crate::store::{user_with_id, SecretStore, StoreView};
use vstd::prelude::*;
use vstd::string::StringExecFns;

verus! {

/// The answer to a registration.
#[derive(Debug)]
pub struct RegisterResponse {
    pub message: String,
    pub user: UserResponse,
    pub verification_token: String,
}

pub struct RegisterResponseView {
    pub message: Seq<char>,
    pub user: UserResponseView,
    pub verification_token: Seq<char>,
}

impl View for RegisterResponse {
    type V = RegisterResponseView;

    open spec fn view(&self) -> RegisterResponseView {
        RegisterResponseView {
            message: self.message@,
            user: self.user@,
            verification_token: self.verification_token@,
        }
    }
}

impl RegisterResponse {
    /// The status of a registration that succeeded: created.
    pub fn status_code() -> (code: u16)
        ensures
            code == 201,
    {
        201
    }
}

/// The answer to the verification of an email address.
#[derive(Debug)]
pub struct VerifyEmailResponse {
    pub message: String,
    pub user: UserResponse,
}

pub struct VerifyEmailResponseView {
    pub message: Seq<char>,
    pub user: UserResponseView,
}

impl View for VerifyEmailResponse {
    type V = VerifyEmailResponseView;

    open spec fn view(&self) -> VerifyEmailResponseView {
        VerifyEmailResponseView { message: self.message@, user: self.user@ }
    }
}

/// The answer to a request for a new verification token.
#[derive(Debug)]
pub struct ResendVerificationResponse {
    pub message: String,
    pub verification_token: Option<String>,
}

pub struct ResendVerificationResponseView {
    pub message: Seq<char>,
    pub verification_token: Option<Seq<char>>,
}

impl View for ResendVerificationResponse {
    type V = ResendVerificationResponseView;

    open spec fn view(&self) -> ResendVerificationResponseView {
        ResendVerificationResponseView {
            message: self.message@,
            verification_token: text_view(self.verification_token),
        }
    }
}

pub open spec fn register_response_view(result: Result<RegisterResponse, AuthError>) -> Result<
    RegisterResponseView,
    AuthError,
> {
    match result {
        Ok(answer) => Ok(answer@),
        Err(e) => Err(e),
    }
}

pub open spec fn message_view(result: Result<MessageResponse, AuthError>) -> Result<
    Seq<char>,
    AuthError,
> {
    match result {
        Ok(answer) => Ok(answer.message@),
        Err(e) => Err(e),
    }
}

pub open spec fn verify_response_view(result: Result<VerifyEmailResponse, AuthError>) -> Result<
    VerifyEmailResponseView,
    AuthError,
> {
    match result {
        Ok(answer) => Ok(answer@),
        Err(e) => Err(e),
    }
}

pub open spec fn resend_response_view(
    result: Result<ResendVerificationResponse, AuthError>,
) -> Result<ResendVerificationResponseView, AuthError> {
    match result {
        Ok(answer) => Ok(answer@),
        Err(e) => Err(e),
    }
}

pub open spec fn user_response_view(result: Result<UserResponse, AuthError>) -> Result<
    UserResponseView,
    AuthError,
> {
    match result {
        Ok(answer) => Ok(answer@),
        Err(e) => Err(e),
    }
}

pub open spec fn forgot_response_view(result: Result<ForgotPasswordResponse, AuthError>) -> Result<
    (Seq<char>, Option<Seq<char>>),
    AuthError,
> {
    match result {
        Ok(answer) => Ok((answer.message@, text_view(answer.reset_token))),
        Err(e) => Err(e),
    }
}

/// Replaces the value of a success and keeps an error.
pub open spec fn then_answer<T, U>(outcome: Result<T, AuthError>, answer: U) -> Result<
    U,
    AuthError,
> {
    match outcome {
        Ok(_) => Ok(answer),
        Err(e) => Err(e),
    }
}

/// Registration as a request: the account is created, and then a
/// verification token is issued to it. Where the token cannot be issued the
/// account stays.
pub open spec fn registration_model(
    store: StoreView,
    config: &AuthConfig,
    email: Seq<char>,
    password: Seq<char>,
    password_confirm: Seq<char>,
    name: Seq<char>,
    now: i64,
    account_entropy: EntropyView,
    token_entropy: EntropyView,
) -> (StoreView, Result<RegisterResponseView, AuthError>) {
    match register_model(
        store,
        config,
        email,
        password,
        password_confirm,
        name,
        now,
        account_entropy,
    ) {
        (unchanged, Err(e)) => (unchanged, Err(e)),
        (registered, Ok(user)) => match create_email_verification_model(
            registered,
            config,
            user.id,
            now,
            token_entropy,
        ) {
            (kept, Err(e)) => (kept, Err(e)),
            (issued, Ok(token)) => (
                issued,
                Ok(
                    RegisterResponseView {
                        message: "Registration successful. Please verify your email."@,
                        user: public_user(user),
                        verification_token: token,
                    },
                ),
            ),
        },
    }
}

/// A new verification token as a request of an authenticated caller: an
/// account whose email is verified already is told so and gets no token.
pub open spec fn resend_verification_model(
    store: StoreView,
    config: &AuthConfig,
    user_id: u128,
    now: i64,
    entropy: EntropyView,
) -> (StoreView, Result<ResendVerificationResponseView, AuthError>) {
    match first_index(store.users, user_with_id(user_id)) {
        None => (store, Err(AuthError::UserNotFound)),
        Some(at) => if store.users[at].is_email_verified() {
            (
                store,
                Ok(
                    ResendVerificationResponseView {
                        message: "Email is already verified"@,
                        verification_token: None,
                    },
                ),
            )
        } else {
            match create_email_verification_model(store, config, user_id, now, entropy) {
                (kept, Err(e)) => (kept, Err(e)),
                (issued, Ok(token)) => (
                    issued,
                    Ok(
                        ResendVerificationResponseView {
                            message: "Verification email sent"@,
                            verification_token: Some(token),
                        },
                    ),
                ),
            }
        },
    }
}

/// The public part of the account of an authenticated caller.
pub open spec fn current_user_model(store: StoreView, user_id: u128) -> Result<
    UserResponseView,
    AuthError,
> {
    match first_index(store.users, user_with_id(user_id)) {
        Some(at) => Ok(public_user(store.users[at])),
        None => Err(AuthError::UserNotFound),
    }
}

/// Registers an account and issues its first verification token. A request
/// that breaks a rule is rejected before anything else is looked at.
pub fn register(auth: &AuthService, store: &mut SecretStore, req: RegisterRequest, now: i64) -> (answer:
    Result<RegisterResponse, AuthError>)
    ensures
        match req.fault() {
            Some(fault) => final(store)@ == old(store)@ && register_response_view(answer) == Err::<
                RegisterResponseView,
                AuthError,
            >(AuthError::Validation(fault)),
            None => exists|account_entropy: EntropyView, token_entropy: EntropyView|
                account_entropy.secret.len() == 32 && token_entropy.secret.len() == 32 && (
                    final(store)@,
                    register_response_view(answer),
                ) == registration_model(
                    old(store)@,
                    auth.config(),
                    req.email@,
                    req.password@,
                    req.password_confirm@,
                    req.name@,
                    now,
                    account_entropy,
                    token_entropy,
                ),
        },
{
    match req.validate() {
        Ok(_) => {},
        Err(e) => return Err(e),
    }
    let account_entropy = Entropy::draw();
    let token_entropy = Entropy::draw();
    let answer = match auth.register_with(store, &req, now, &account_entropy) {
        Err(e) => Err(e),
        Ok(user) => match auth.create_email_verification_with(store, user.id, now, &token_entropy) {
            Err(e) => Err(e),
            Ok(verification_token) => Ok(
                RegisterResponse {
                    message: String::from_str("Registration successful. Please verify your email."),
                    user: UserResponse::of(&user),
                    verification_token,
                },
            ),
        },
    };
    assert((store@, register_response_view(answer)) == registration_model(
        old(store)@,
        auth.config(),
        req.email@,
        req.password@,
        req.password_confirm@,
        req.name@,
        now,
        account_entropy@,
        token_entropy@,
    ));
    answer
}

/// Logs in. A request that breaks a rule is rejected before any account is
/// looked at.
pub fn login(
    auth: &AuthService,
    store: &mut SecretStore,
    client: ClientInfo,
    req: LoginRequest,
    now: i64,
) -> (answer: Result<AuthResponse, AuthError>)
    ensures
        match req.fault() {
            Some(fault) => final(store)@ == old(store)@ && auth_result_view(answer) == Err::<
                AuthResponseView,
                AuthError,
            >(AuthError::Validation(fault)),
            None => exists|entropy: EntropyView|
                entropy.secret.len() == 32 && (final(store)@, auth_result_view(answer)) == login_model(
                    old(store)@,
                    auth.config(),
                    req.email@,
                    req.password@,
                    text_view(client.ip),
                    text_view(client.user_agent),
                    now,
                    entropy,
                ),
        },
{
    match req.validate() {
        Ok(_) => {},
        Err(e) => return Err(e),
    }
    auth.login(store, req, client.ip, client.user_agent, now)
}

/// Logs out.
pub fn logout(auth: &AuthService, store: &mut SecretStore, req: RefreshTokenRequest, now: i64) -> (answer:
    Result<MessageResponse, AuthError>)
    ensures
        (final(store)@, message_view(answer)) == ({
            let outcome = logout_model(old(store)@, auth.config(), req.refresh_token@, now);
            (outcome.0, then_answer(outcome.1, "Logged out successfully"@))
        }),
{
    match auth.logout(store, req.refresh_token.as_str(), now) {
        Ok(_) => Ok(MessageResponse::new("Logged out successfully")),
        Err(e) => Err(e),
    }
}

/// Exchanges a refresh token for a new pair of tokens.
pub fn refresh_token(
    auth: &AuthService,
    store: &mut SecretStore,
    client: ClientInfo,
    req: RefreshTokenRequest,
    now: i64,
) -> (answer: Result<TokenResponse, AuthError>)
    ensures
        match req.fault() {
            Some(fault) => final(store)@ == old(store)@ && token_result_view(answer) == Err::<
                TokenResponseView,
                AuthError,
            >(AuthError::Validation(fault)),
            None => exists|entropy: EntropyView|
                entropy.secret.len() == 32 && (final(store)@, token_result_view(answer)) == refresh_model(
                    old(store)@,
                    auth.config(),
                    req.refresh_token@,
                    text_view(client.ip),
                    text_view(client.user_agent),
                    now,
                    entropy,
                ),
        },
{
    match req.validate() {
        Ok(_) => {},
        Err(e) => return Err(e),
    }
    auth.refresh_tokens(store, req.refresh_token.as_str(), client.ip, client.user_agent, now)
}

/// What a request for a password reset is answered for the outcome of the
/// service: the one neutral message, with the token where there is one.
pub open spec fn forgot_password_answer(outcome: Result<Seq<char>, AuthError>) -> Result<
    (Seq<char>, Option<Seq<char>>),
    AuthError,
> {
    match outcome {
        Ok(token) => Ok(
            (
                ForgotPasswordResponse::neutral_message(),
                if token.len() == 0 {
                    None
                } else {
                    Some(token)
                },
            ),
        ),
        Err(e) => Err(e),
    }
}

/// A request for a password reset, answered.
pub open spec fn forgot_password_request_model(
    store: StoreView,
    config: &AuthConfig,
    email: Seq<char>,
    now: i64,
    entropy: EntropyView,
) -> (StoreView, Result<(Seq<char>, Option<Seq<char>>), AuthError>) {
    let outcome = forgot_password_model(store, config, email, now, entropy);
    (outcome.0, forgot_password_answer(outcome.1))
}

/// A password reset, answered.
pub open spec fn reset_password_request_model(
    store: StoreView,
    config: &AuthConfig,
    token: Seq<char>,
    password: Seq<char>,
    password_confirm: Seq<char>,
    now: i64,
    entropy: EntropyView,
) -> (StoreView, Result<Seq<char>, AuthError>) {
    let outcome = reset_password_model(
        store,
        config,
        token,
        password,
        password_confirm,
        now,
        entropy,
    );
    (
        outcome.0,
        then_answer(outcome.1, "Password reset successful. Please login with your new password."@),
    )
}

/// A change of password, answered.
pub open spec fn change_password_request_model(
    store: StoreView,
    config: &AuthConfig,
    user_id: u128,
    current_password: Seq<char>,
    new_password: Seq<char>,
    new_password_confirm: Seq<char>,
    now: i64,
    entropy: EntropyView,
) -> (StoreView, Result<Seq<char>, AuthError>) {
    let outcome = change_password_model(
        store,
        config,
        user_id,
        current_password,
        new_password,
        new_password_confirm,
        now,
        entropy,
    );
    (
        outcome.0,
        then_answer(
            outcome.1,
            "Password changed successfully. Please login again on all devices."@,
        ),
    )
}

/// Starts a password reset. The answer has the same message whether or not
/// an account has the email.
pub fn forgot_password(
    auth: &AuthService,
    store: &mut SecretStore,
    req: ForgotPasswordRequest,
    now: i64,
) -> (answer: Result<ForgotPasswordResponse, AuthError>)
    ensures
        match req.fault() {
            Some(fault) => final(store)@ == old(store)@ && forgot_response_view(answer) == Err::<
                (Seq<char>, Option<Seq<char>>),
                AuthError,
            >(AuthError::Validation(fault)),
            None => exists|entropy: EntropyView|
                entropy.secret.len() == 32 && (final(store)@, forgot_response_view(answer)) == forgot_password_request_model(
                    old(store)@,
                    auth.config(),
                    req.email@,
                    now,
                    entropy,
                ),
        },
{
    match req.validate() {
        Ok(_) => {},
        Err(e) => return Err(e),
    }
    let entropy = Entropy::draw();
    let answer = match auth.forgot_password_with(store, req.email.as_str(), now, &entropy) {
        Ok(token) => Ok(ForgotPasswordResponse::new(token)),
        Err(e) => Err(e),
    };
    assert((store@, forgot_response_view(answer)) == forgot_password_request_model(
        old(store)@,
        auth.config(),
        req.email@,
        now,
        entropy@,
    ));
    answer
}

/// Completes a password reset. A request that breaks a rule is rejected
/// before the token is looked at.
pub fn reset_password(
    auth: &AuthService,
    store: &mut SecretStore,
    req: ResetPasswordRequest,
    now: i64,
) -> (answer: Result<MessageResponse, AuthError>)
    ensures
        match req.fault() {
            Some(fault) => final(store)@ == old(store)@ && message_view(answer) == Err::<
                Seq<char>,
                AuthError,
            >(AuthError::Validation(fault)),
            None => exists|entropy: EntropyView|
                entropy.secret.len() == 32 && (final(store)@, message_view(answer))
                    == reset_password_request_model(
                    old(store)@,
                    auth.config(),
                    req.token@,
                    req.password@,
                    req.password_confirm@,
                    now,
                    entropy,
                ),
        },
{
    match req.validate() {
        Ok(_) => {},
        Err(e) => return Err(e),
    }
    let entropy = Entropy::draw();
    let answer = match auth.reset_password_with(store, &req, now, &entropy) {
        Ok(_) => Ok(
            MessageResponse::new("Password reset successful. Please login with your new password."),
        ),
        Err(e) => Err(e),
    };
    assert((store@, message_view(answer)) == reset_password_request_model(
        old(store)@,
        auth.config(),
        req.token@,
        req.password@,
        req.password_confirm@,
        now,
        entropy@,
    ));
    answer
}

/// Changes the password of the authenticated caller. A request that breaks
/// a rule is rejected before any password is looked at.
pub fn change_password(
    auth: &AuthService,
    store: &mut SecretStore,
    caller: &AuthUser,
    req: ChangePasswordRequest,
    now: i64,
) -> (answer: Result<MessageResponse, AuthError>)
    ensures
        match req.fault() {
            Some(fault) => final(store)@ == old(store)@ && message_view(answer) == Err::<
                Seq<char>,
                AuthError,
            >(AuthError::Validation(fault)),
            None => exists|entropy: EntropyView|
                entropy.secret.len() == 32 && (final(store)@, message_view(answer))
                    == change_password_request_model(
                    old(store)@,
                    auth.config(),
                    caller.id,
                    req.current_password@,
                    req.new_password@,
                    req.new_password_confirm@,
                    now,
                    entropy,
                ),
        },
{
    match req.validate() {
        Ok(_) => {},
        Err(e) => return Err(e),
    }
    let entropy = Entropy::draw();
    let answer = match auth.change_password_with(store, caller.id, &req, now, &entropy) {
        Ok(_) => Ok(
            MessageResponse::new(
                "Password changed successfully. Please login again on all devices.",
            ),
        ),
        Err(e) => Err(e),
    };
    assert((store@, message_view(answer)) == change_password_request_model(
        old(store)@,
        auth.config(),
        caller.id,
        req.current_password@,
        req.new_password@,
        req.new_password_confirm@,
        now,
        entropy@,
    ));
    answer
}

/// What the verification of an email is answered for the outcome of the
/// service.
pub open spec fn verify_email_answer(outcome: Result<UserView, AuthError>) -> Result<
    VerifyEmailResponseView,
    AuthError,
> {
    match outcome {
        Ok(user) => Ok(
            VerifyEmailResponseView {
                message: "Email verified successfully"@,
                user: public_user(user),
            },
        ),
        Err(e) => Err(e),
    }
}

/// Verifies an email address.
pub fn verify_email(auth: &AuthService, store: &mut SecretStore, req: VerifyEmailRequest, now: i64) -> (answer:
    Result<VerifyEmailResponse, AuthError>)
    ensures
        match req.fault() {
            Some(fault) => final(store)@ == old(store)@ && verify_response_view(answer) == Err::<
                VerifyEmailResponseView,
                AuthError,
            >(AuthError::Validation(fault)),
            None => (final(store)@, verify_response_view(answer)) == ({
                let outcome = verify_email_model(old(store)@, req.token@, now);
                (outcome.0, verify_email_answer(outcome.1))
            }),
        },
{
    match req.validate() {
        Ok(_) => {},
        Err(e) => return Err(e),
    }
    match auth.verify_email(store, req.token.as_str(), now) {
        Ok(user) => Ok(
            VerifyEmailResponse {
                message: String::from_str("Email verified successfully"),
                user: UserResponse::of(&user),
            },
        ),
        Err(e) => Err(e),
    }
}

/// Issues a new verification token to the authenticated caller, unless the
/// email is verified already.
pub fn resend_verification(
    auth: &AuthService,
    store: &mut SecretStore,
    caller: &AuthUser,
    now: i64,
) -> (answer: Result<ResendVerificationResponse, AuthError>)
    ensures
        exists|entropy: EntropyView|
            entropy.secret.len() == 32 && (final(store)@, resend_response_view(answer)) == resend_verification_model(
                old(store)@,
                auth.config(),
                caller.id,
                now,
                entropy,
            ),
{
    let entropy = Entropy::draw();
    let answer = match store.users.find_by_id(caller.id) {
        None => Err(AuthError::UserNotFound),
        Some(user) => if user.is_email_verified() {
            Ok(
                ResendVerificationResponse {
                    message: String::from_str("Email is already verified"),
                    verification_token: None,
                },
            )
        } else {
            match auth.create_email_verification_with(store, caller.id, now, &entropy) {
                Ok(token) => Ok(
                    ResendVerificationResponse {
                        message: String::from_str("Verification email sent"),
                        verification_token: Some(token),
                    },
                ),
                Err(e) => Err(e),
            }
        },
    };
    assert((store@, resend_response_view(answer)) == resend_verification_model(
        old(store)@,
        auth.config(),
        caller.id,
        now,
        entropy@,
    ));
    answer
}

/// The public part of the account of the authenticated caller.
pub fn get_current_user(store: &SecretStore, caller: &AuthUser) -> (answer: Result<
    UserResponse,
    AuthError,
>)
    ensures
        user_response_view(answer) == current_user_model(store@, caller.id),
{
    match store.users.find_by_id(caller.id) {
        Some(user) => Ok(UserResponse::of(&user)),
        None => Err(AuthError::UserNotFound),
    }
}

} // verus!
