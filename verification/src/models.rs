//! Records of the authentication core and the mathematical view of each.

use vstd::prelude::*;

verus! {

/// The text of an optional string.
pub open spec fn text_view(text: Option<String>) -> Option<Seq<char>> {
    match text {
        Some(t) => Some(t@),
        None => None,
    }
}

/// Copies an optional string.
pub fn clone_text(text: &Option<String>) -> (copy: Option<String>)
    ensures
        copy == *text,
{
    match text {
        Some(t) => Some(t.clone()),
        None => None,
    }
}

/// What an account may do. Each privilege is granted by an explicit check;
/// no order between roles is implied beyond them.
#[derive(Debug, Clone, Copy, PartialEq, Eq, Structural)]
pub enum UserRole {
    User,
    Author,
    Editor,
    Admin,
}

impl UserRole {
    pub open spec fn spec_is_admin(&self) -> bool {
        *self == UserRole::Admin
    }

    pub open spec fn spec_can_publish(&self) -> bool {
        *self == UserRole::Author || *self == UserRole::Editor || *self == UserRole::Admin
    }

    pub open spec fn spec_can_moderate(&self) -> bool {
        *self == UserRole::Editor || *self == UserRole::Admin
    }

    /// The lowercase name under which the role is stored and signed.
    pub open spec fn spec_as_str(&self) -> Seq<char> {
        match self {
            UserRole::User => "user"@,
            UserRole::Author => "author"@,
            UserRole::Editor => "editor"@,
            UserRole::Admin => "admin"@,
        }
    }

    #[verifier::when_used_as_spec(spec_is_admin)]
    pub fn is_admin(&self) -> (yes: bool)
        ensures
            yes == self.spec_is_admin(),
    {
        matches!(self, UserRole::Admin)
    }

    #[verifier::when_used_as_spec(spec_can_publish)]
    pub fn can_publish(&self) -> (yes: bool)
        ensures
            yes == self.spec_can_publish(),
    {
        matches!(self, UserRole::Author | UserRole::Editor | UserRole::Admin)
    }

    #[verifier::when_used_as_spec(spec_can_moderate)]
    pub fn can_moderate(&self) -> (yes: bool)
        ensures
            yes == self.spec_can_moderate(),
    {
        matches!(self, UserRole::Editor | UserRole::Admin)
    }

    pub fn as_str(&self) -> (name: &'static str)
        ensures
            name@ == self.spec_as_str(),
    {
        match self {
            UserRole::User => "user",
            UserRole::Author => "author",
            UserRole::Editor => "editor",
            UserRole::Admin => "admin",
        }
    }
}

/// Whoever may moderate may publish, and an administrator may do both.
pub proof fn law_role_privileges(role: UserRole)
    ensures
        role.spec_is_admin() ==> role.spec_can_moderate(),
        role.spec_can_moderate() ==> role.spec_can_publish(),
{
}

/// Where an account stands in its life.
#[derive(Debug, Clone, Copy, PartialEq, Eq, Structural)]
pub enum UserStatus {
    Pending,
    Active,
    Suspended,
    Deleted,
}

/// An account. Times are seconds since the epoch.
#[derive(Debug)]
pub struct User {
    pub id: u128,
    /// Lowercase, unique among accounts.
    pub email: String,
    /// Self-describing digest of the password; never part of a response.
    pub password_hash: String,
    pub name: String,
    pub role: UserRole,
    pub status: UserStatus,
    pub email_verified_at: Option<i64>,
    pub last_login_at: Option<i64>,
    pub last_login_ip: Option<String>,
    pub failed_login_attempts: i32,
    pub locked_until: Option<i64>,
    pub password_changed_at: i64,
    pub created_at: i64,
    pub updated_at: i64,
}

/// The mathematical view of an account.
pub struct UserView {
    pub id: u128,
    pub email: Seq<char>,
    pub password_hash: Seq<char>,
    pub name: Seq<char>,
    pub role: UserRole,
    pub status: UserStatus,
    pub email_verified_at: Option<i64>,
    pub last_login_at: Option<i64>,
    pub last_login_ip: Option<Seq<char>>,
    pub failed_login_attempts: i32,
    pub locked_until: Option<i64>,
    pub password_changed_at: i64,
    pub created_at: i64,
    pub updated_at: i64,
}

impl UserView {
    /// Locked while a lockout expiry is set and still in the future.
    pub open spec fn is_locked(self, now: i64) -> bool {
        self.locked_until matches Some(until) && until > now
    }

    pub open spec fn is_email_verified(self) -> bool {
        self.email_verified_at is Some
    }

    /// An account can authenticate only while it is active and not locked.
    pub open spec fn can_login(self, now: i64) -> bool {
        self.status == UserStatus::Active && !self.is_locked(now)
    }
}

impl View for User {
    type V = UserView;

    open spec fn view(&self) -> UserView {
        UserView {
            id: self.id,
            email: self.email@,
            password_hash: self.password_hash@,
            name: self.name@,
            role: self.role,
            status: self.status,
            email_verified_at: self.email_verified_at,
            last_login_at: self.last_login_at,
            last_login_ip: text_view(self.last_login_ip),
            failed_login_attempts: self.failed_login_attempts,
            locked_until: self.locked_until,
            password_changed_at: self.password_changed_at,
            created_at: self.created_at,
            updated_at: self.updated_at,
        }
    }
}

impl Clone for User {
    fn clone(&self) -> (copy: Self)
        ensures
            copy == *self,
    {
        User {
            id: self.id,
            email: self.email.clone(),
            password_hash: self.password_hash.clone(),
            name: self.name.clone(),
            role: self.role,
            status: self.status,
            email_verified_at: self.email_verified_at,
            last_login_at: self.last_login_at,
            last_login_ip: clone_text(&self.last_login_ip),
            failed_login_attempts: self.failed_login_attempts,
            locked_until: self.locked_until,
            password_changed_at: self.password_changed_at,
            created_at: self.created_at,
            updated_at: self.updated_at,
        }
    }
}

impl User {
    /// Whether the account is locked at the given time.
    pub fn is_locked(&self, now: i64) -> (locked: bool)
        ensures
            locked == self@.is_locked(now),
    {
        match self.locked_until {
            Some(until) => until > now,
            None => false,
        }
    }

    pub fn is_email_verified(&self) -> (verified: bool)
        ensures
            verified == self@.is_email_verified(),
    {
        self.email_verified_at.is_some()
    }

    /// Whether the account can authenticate at the given time.
    pub fn can_login(&self, now: i64) -> (allowed: bool)
        ensures
            allowed == self@.can_login(now),
    {
        self.status == UserStatus::Active && !self.is_locked(now)
    }

    pub fn is_admin(&self) -> (yes: bool)
        ensures
            yes == self.role.spec_is_admin(),
    {
        self.role.is_admin()
    }
}

/// One issued refresh token. The secret itself is never stored, only its
/// digest.
#[derive(Debug)]
pub struct RefreshToken {
    pub id: u128,
    pub user_id: u128,
    pub token_hash: String,
    pub expires_at: i64,
    pub issued_at: i64,
    pub revoked_at: Option<i64>,
    /// The token that superseded this one, once it was rotated.
    pub replaced_by: Option<u128>,
    pub user_agent: Option<String>,
    pub ip_address: Option<String>,
    pub created_at: i64,
}

/// The mathematical view of a refresh-token record.
pub struct RefreshTokenView {
    pub id: u128,
    pub user_id: u128,
    pub token_hash: Seq<char>,
    pub expires_at: i64,
    pub issued_at: i64,
    pub revoked_at: Option<i64>,
    pub replaced_by: Option<u128>,
    pub user_agent: Option<Seq<char>>,
    pub ip_address: Option<Seq<char>>,
    pub created_at: i64,
}

impl RefreshTokenView {
    /// Expired once its expiry is no longer in the future.
    pub open spec fn is_expired(self, now: i64) -> bool {
        self.expires_at <= now
    }

    pub open spec fn is_revoked(self) -> bool {
        self.revoked_at is Some
    }

    /// Valid exactly while it is unrevoked and unexpired.
    pub open spec fn is_valid(self, now: i64) -> bool {
        !self.is_revoked() && !self.is_expired(now)
    }
}

impl View for RefreshToken {
    type V = RefreshTokenView;

    open spec fn view(&self) -> RefreshTokenView {
        RefreshTokenView {
            id: self.id,
            user_id: self.user_id,
            token_hash: self.token_hash@,
            expires_at: self.expires_at,
            issued_at: self.issued_at,
            revoked_at: self.revoked_at,
            replaced_by: self.replaced_by,
            user_agent: text_view(self.user_agent),
            ip_address: text_view(self.ip_address),
            created_at: self.created_at,
        }
    }
}

impl Clone for RefreshToken {
    fn clone(&self) -> (copy: Self)
        ensures
            copy == *self,
    {
        RefreshToken {
            id: self.id,
            user_id: self.user_id,
            token_hash: self.token_hash.clone(),
            expires_at: self.expires_at,
            issued_at: self.issued_at,
            revoked_at: self.revoked_at,
            replaced_by: self.replaced_by,
            user_agent: clone_text(&self.user_agent),
            ip_address: clone_text(&self.ip_address),
            created_at: self.created_at,
        }
    }
}

impl RefreshToken {
    pub fn is_expired(&self, now: i64) -> (expired: bool)
        ensures
            expired == self@.is_expired(now),
    {
        self.expires_at <= now
    }

    pub fn is_revoked(&self) -> (revoked: bool)
        ensures
            revoked == self@.is_revoked(),
    {
        self.revoked_at.is_some()
    }

    pub fn is_valid(&self, now: i64) -> (valid: bool)
        ensures
            valid == self@.is_valid(now),
    {
        !self.is_expired(now) && !self.is_revoked()
    }
}

/// A token that can be redeemed once: for a password reset or for the
/// verification of an email address.
#[derive(Debug)]
pub struct SingleUseToken {
    pub id: u128,
    pub user_id: u128,
    pub token_hash: String,
    pub expires_at: i64,
    pub used_at: Option<i64>,
    pub created_at: i64,
}

/// The mathematical view of a single-use token.
pub struct SingleUseTokenView {
    pub id: u128,
    pub user_id: u128,
    pub token_hash: Seq<char>,
    pub expires_at: i64,
    pub used_at: Option<i64>,
    pub created_at: i64,
}

impl SingleUseTokenView {
    /// Usable only while unused and with its expiry in the future.
    pub open spec fn is_usable(self, now: i64) -> bool {
        self.used_at is None && self.expires_at > now
    }
}

impl View for SingleUseToken {
    type V = SingleUseTokenView;

    open spec fn view(&self) -> SingleUseTokenView {
        SingleUseTokenView {
            id: self.id,
            user_id: self.user_id,
            token_hash: self.token_hash@,
            expires_at: self.expires_at,
            used_at: self.used_at,
            created_at: self.created_at,
        }
    }
}

impl Clone for SingleUseToken {
    fn clone(&self) -> (copy: Self)
        ensures
            copy == *self,
    {
        SingleUseToken {
            id: self.id,
            user_id: self.user_id,
            token_hash: self.token_hash.clone(),
            expires_at: self.expires_at,
            used_at: self.used_at,
            created_at: self.created_at,
        }
    }
}

impl SingleUseToken {
    pub fn is_usable(&self, now: i64) -> (usable: bool)
        ensures
            usable == self@.is_usable(now),
    {
        self.used_at.is_none() && self.expires_at > now
    }
}

/// The later of a time and that time plus a duration, held at the largest
/// and smallest representable times.
pub open spec fn spec_time_after(now: i64, seconds: i64) -> i64 {
    if now + seconds > i64::MAX {
        i64::MAX
    } else if now + seconds < i64::MIN {
        i64::MIN
    } else {
        (now + seconds) as i64
    }
}

/// The time a duration after `now`, saturating at the ends of the range.
pub fn time_after(now: i64, seconds: i64) -> (then: i64)
    ensures
        then == spec_time_after(now, seconds),
{
    match now.checked_add(seconds) {
        Some(then) => then,
        None => if seconds > 0 {
            i64::MAX
        } else {
            i64::MIN
        },
    }
}

} // verus!
