//! What the public operations answer, and the authenticated caller as a
//! token describes it. The password digest is part of none of them.

use crate::encoding::same_text;
use crate::models::{User, UserRole, UserView};
use crate::token::{AccessTokenClaims, AccessTokenClaimsView};
use vstd::prelude::*;
use vstd::string::StrSliceExecFns;
use vstd::string::StringExecFns;

verus! {

/// The public part of an account.
#[derive(Debug)]
pub struct UserResponse {
    pub id: u128,
    pub email: String,
    pub name: String,
    pub role: UserRole,
    pub email_verified: bool,
    pub created_at: i64,
}

pub struct UserResponseView {
    pub id: u128,
    pub email: Seq<char>,
    pub name: Seq<char>,
    pub role: UserRole,
    pub email_verified: bool,
    pub created_at: i64,
}

impl View for UserResponse {
    type V = UserResponseView;

    open spec fn view(&self) -> UserResponseView {
        UserResponseView {
            id: self.id,
            email: self.email@,
            name: self.name@,
            role: self.role,
            email_verified: self.email_verified,
            created_at: self.created_at,
        }
    }
}

/// The public part of an account.
pub open spec fn public_user(user: UserView) -> UserResponseView {
    UserResponseView {
        id: user.id,
        email: user.email,
        name: user.name,
        role: user.role,
        email_verified: user.email_verified_at is Some,
        created_at: user.created_at,
    }
}

impl From<User> for UserResponse {
    fn from(user: User) -> (shown: UserResponse) {
        let email_verified = user.is_email_verified();
        UserResponse {
            id: user.id,
            email: user.email,
            name: user.name,
            role: user.role,
            email_verified,
            created_at: user.created_at,
        }
    }
}

impl vstd::std_specs::convert::FromSpecImpl<User> for UserResponse {
    open spec fn obeys_from_spec() -> bool {
        true
    }

    open spec fn from_spec(user: User) -> UserResponse {
        UserResponse {
            id: user.id,
            email: user.email,
            name: user.name,
            role: user.role,
            email_verified: user.email_verified_at is Some,
            created_at: user.created_at,
        }
    }
}

impl UserResponse {
    /// The public part of an account.
    pub fn of(user: &User) -> (shown: UserResponse)
        ensures
            shown@ == public_user(user@),
    {
        UserResponse {
            id: user.id,
            email: user.email.clone(),
            name: user.name.clone(),
            role: user.role,
            email_verified: user.is_email_verified(),
            created_at: user.created_at,
        }
    }
}

/// The answer to a login: the account and a fresh pair of tokens.
#[derive(Debug)]
pub struct AuthResponse {
    pub user: UserResponse,
    pub access_token: String,
    pub refresh_token: String,
    pub token_type: String,
    pub expires_in: i64,
}

pub struct AuthResponseView {
    pub user: UserResponseView,
    pub access_token: Seq<char>,
    pub refresh_token: Seq<char>,
    pub token_type: Seq<char>,
    pub expires_in: i64,
}

impl View for AuthResponse {
    type V = AuthResponseView;

    open spec fn view(&self) -> AuthResponseView {
        AuthResponseView {
            user: self.user@,
            access_token: self.access_token@,
            refresh_token: self.refresh_token@,
            token_type: self.token_type@,
            expires_in: self.expires_in,
        }
    }
}

/// The answer to a refresh: a fresh pair of tokens.
#[derive(Debug)]
pub struct TokenResponse {
    pub access_token: String,
    pub refresh_token: String,
    pub token_type: String,
    pub expires_in: i64,
}

pub struct TokenResponseView {
    pub access_token: Seq<char>,
    pub refresh_token: Seq<char>,
    pub token_type: Seq<char>,
    pub expires_in: i64,
}

impl View for TokenResponse {
    type V = TokenResponseView;

    open spec fn view(&self) -> TokenResponseView {
        TokenResponseView {
            access_token: self.access_token@,
            refresh_token: self.refresh_token@,
            token_type: self.token_type@,
            expires_in: self.expires_in,
        }
    }
}

/// An answer that is a message and nothing else.
#[derive(Debug)]
pub struct MessageResponse {
    pub message: String,
}

impl MessageResponse {
    pub fn new(message: &str) -> (response: MessageResponse)
        ensures
            response.message@ == message@,
    {
        MessageResponse { message: String::from_str(message) }
    }
}

/// The answer to a request for a password reset. Its message is the same
/// whether or not an account has the email.
#[derive(Debug)]
pub struct ForgotPasswordResponse {
    pub message: String,
    pub reset_token: Option<String>,
}

impl ForgotPasswordResponse {
    /// The one message of every answer.
    pub open spec fn neutral_message() -> Seq<char> {
        "If an account with that email exists, a password reset link has been sent."@
    }

    /// The answer for the token that the service returned; the empty token
    /// of an unknown email is left out.
    pub fn new(token: String) -> (response: ForgotPasswordResponse)
        ensures
            response.message@ == Self::neutral_message(),
            crate::models::text_view(response.reset_token) == if token@.len() == 0 {
                None
            } else {
                Some(token@)
            },
    {
        let reset_token = if token.as_str().unicode_len() == 0 {
            None
        } else {
            Some(token)
        };
        ForgotPasswordResponse {
            message: String::from_str(
                "If an account with that email exists, a password reset link has been sent.",
            ),
            reset_token,
        }
    }
}

/// The authenticated caller, as the claims of an access token describe it.
#[derive(Debug)]
pub struct AuthUser {
    pub id: u128,
    pub email: String,
    pub name: String,
    pub role: String,
}

pub struct AuthUserView {
    pub id: u128,
    pub email: Seq<char>,
    pub name: Seq<char>,
    pub role: Seq<char>,
}

impl View for AuthUser {
    type V = AuthUserView;

    open spec fn view(&self) -> AuthUserView {
        AuthUserView { id: self.id, email: self.email@, name: self.name@, role: self.role@ }
    }
}

/// The caller that access claims describe.
pub open spec fn caller_of(claims: AccessTokenClaimsView) -> AuthUserView {
    AuthUserView { id: claims.sub, email: claims.email, name: claims.name, role: claims.role }
}

impl AuthUser {
    pub fn from_claims(claims: &AccessTokenClaims) -> (caller: AuthUser)
        ensures
            caller@ == caller_of(claims@),
    {
        AuthUser {
            id: claims.sub,
            email: claims.email.clone(),
            name: claims.name.clone(),
            role: claims.role.clone(),
        }
    }

    pub fn is_admin(&self) -> (yes: bool)
        ensures
            yes == (self.role@ == UserRole::Admin.spec_as_str()),
    {
        same_text(self.role.as_str(), "admin")
    }

    pub fn can_publish(&self) -> (yes: bool)
        ensures
            yes == (self.role@ == UserRole::Author.spec_as_str() || self.role@
                == UserRole::Editor.spec_as_str() || self.role@ == UserRole::Admin.spec_as_str()),
    {
        same_text(self.role.as_str(), "author") || same_text(self.role.as_str(), "editor")
            || same_text(self.role.as_str(), "admin")
    }

    pub fn can_moderate(&self) -> (yes: bool)
        ensures
            yes == (self.role@ == UserRole::Editor.spec_as_str() || self.role@
                == UserRole::Admin.spec_as_str()),
    {
        same_text(self.role.as_str(), "editor") || same_text(self.role.as_str(), "admin")
    }
}

} // verus!
