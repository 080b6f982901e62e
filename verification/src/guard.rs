//! The account guard: what a failed and what a successful login do to the
//! failure counter and the lockout of an account.

use crate::config::AuthConfig;
use crate::models::{spec_time_after, text_view, time_after, User, UserView};
use vstd::prelude::*;

verus! {

/// The failure counter after one more failure. It stops at the largest
/// number it can hold.
pub open spec fn next_attempts(attempts: i32) -> i32 {
    if attempts < i32::MAX {
        (attempts + 1) as i32
    } else {
        attempts
    }
}

/// An account after a failed password check at `now`: the counter goes up
/// by one, and once it reaches the threshold the account is locked for the
/// configured duration. Below the threshold the lockout is left as it is.
pub open spec fn after_failed_attempt(user: UserView, config: &AuthConfig, now: i64) -> UserView {
    UserView {
        failed_login_attempts: next_attempts(user.failed_login_attempts),
        locked_until: if next_attempts(user.failed_login_attempts) >= config.max_login_attempts {
            Some(spec_time_after(now, config.lockout_duration))
        } else {
            user.locked_until
        },
        updated_at: now,
        ..user
    }
}

/// An account after a successful login at `now`: the counter is back at
/// zero, the lockout is cleared, and the time and address of the login are
/// recorded.
pub open spec fn after_successful_login(
    user: UserView,
    now: i64,
    ip: Option<Seq<char>>,
) -> UserView {
    UserView {
        failed_login_attempts: 0,
        locked_until: None,
        last_login_at: Some(now),
        last_login_ip: ip,
        updated_at: now,
        ..user
    }
}

/// Applies a failed password check to an account.
pub fn record_failure(user: User, config: &AuthConfig, now: i64) -> (after: User)
    ensures
        after@ == after_failed_attempt(user@, config, now),
{
    let attempts: i32 = if user.failed_login_attempts < i32::MAX {
        user.failed_login_attempts + 1
    } else {
        user.failed_login_attempts
    };
    let locked_until = if attempts >= config.max_login_attempts {
        Some(time_after(now, config.lockout_duration))
    } else {
        user.locked_until
    };
    User {
        id: user.id,
        email: user.email,
        password_hash: user.password_hash,
        name: user.name,
        role: user.role,
        status: user.status,
        email_verified_at: user.email_verified_at,
        last_login_at: user.last_login_at,
        last_login_ip: user.last_login_ip,
        failed_login_attempts: attempts,
        locked_until,
        password_changed_at: user.password_changed_at,
        created_at: user.created_at,
        updated_at: now,
    }
}

/// Applies a successful login to an account.
pub fn record_success(user: User, now: i64, ip: Option<String>) -> (after: User)
    ensures
        after@ == after_successful_login(user@, now, text_view(ip)),
{
    User {
        id: user.id,
        email: user.email,
        password_hash: user.password_hash,
        name: user.name,
        role: user.role,
        status: user.status,
        email_verified_at: user.email_verified_at,
        last_login_at: Some(now),
        last_login_ip: ip,
        failed_login_attempts: 0,
        locked_until: None,
        password_changed_at: user.password_changed_at,
        created_at: user.created_at,
        updated_at: now,
    }
}

/// A failure that brings the counter to the threshold locks the account
/// until the lockout duration has passed, and a success unlocks it.
pub proof fn law_guard_locks_and_unlocks(user: UserView, config: &AuthConfig, now: i64, ip: Option<Seq<char>>)
    ensures
        next_attempts(user.failed_login_attempts) >= config.max_login_attempts ==> forall|t: i64|
            t < spec_time_after(now, config.lockout_duration) ==> #[trigger] after_failed_attempt(
                user,
                config,
                now,
            ).is_locked(t),
        next_attempts(user.failed_login_attempts) < config.max_login_attempts
            ==> after_failed_attempt(user, config, now).locked_until == user.locked_until,
        forall|t: i64| !(#[trigger] after_successful_login(user, now, ip).is_locked(t)),
        after_successful_login(user, now, ip).failed_login_attempts == 0,
{
}

} // verus!
