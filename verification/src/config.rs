//! Settings of the authentication core and the rules they must meet.

use crate::error::{AuthError, ConfigFault};
use vstd::prelude::*;
use vstd::string::StringExecFns;

verus! {

/// Settings of the authentication core. Durations are in seconds.
#[derive(Debug)]
pub struct AuthConfig {
    /// Secret with which tokens are signed.
    pub jwt_secret: String,
    /// Lifetime of an access token.
    pub access_token_expiration: i64,
    /// Lifetime of a refresh token.
    pub refresh_token_expiration: i64,
    /// Issuer written into and required of every token.
    pub jwt_issuer: String,
    /// Audience written into and required of every access token.
    pub jwt_audience: String,
    /// Memory cost of password hashing, in KiB.
    pub argon2_memory_cost: u32,
    /// Number of passes of password hashing.
    pub argon2_time_cost: u32,
    /// Degree of parallelism of password hashing.
    pub argon2_parallelism: u32,
    /// Failed logins after which an account is locked.
    pub max_login_attempts: i32,
    /// How long a locked account stays locked.
    pub lockout_duration: i64,
    /// Lifetime of a password-reset token.
    pub password_reset_expiration: i64,
    /// Lifetime of an email-verification token.
    pub email_verification_expiration: i64,
    /// Least number of bytes of a password.
    pub min_password_length: usize,
    /// Whether a new account stays pending until its email is verified.
    pub require_email_verification: bool,
}

/// The values of the settings as the environment holds them, each one unset
/// or text.
#[derive(Debug)]
pub struct ConfigVars {
    pub jwt_access_expiration: Option<String>,
    pub jwt_refresh_expiration: Option<String>,
    pub jwt_issuer: Option<String>,
    pub jwt_audience: Option<String>,
    pub argon2_memory_cost: Option<String>,
    pub argon2_time_cost: Option<String>,
    pub argon2_parallelism: Option<String>,
    pub max_login_attempts: Option<String>,
    pub lockout_duration: Option<String>,
    pub password_reset_expiration: Option<String>,
    pub email_verification_expiration: Option<String>,
    pub min_password_length: Option<String>,
    pub require_email_verification: Option<String>,
}

/// The number that a decimal text denotes, if it denotes one that fits.
pub uninterp spec fn parsed_i64(text: Seq<char>) -> Option<i64>;

/// The number that a decimal text denotes, if it denotes one that fits.
pub uninterp spec fn parsed_i32(text: Seq<char>) -> Option<i32>;

/// The number that a decimal text denotes, if it denotes one that fits.
pub uninterp spec fn parsed_u32(text: Seq<char>) -> Option<u32>;

/// The number that a decimal text denotes, if it denotes one that fits.
pub uninterp spec fn parsed_u64(text: Seq<char>) -> Option<u64>;

/// Calls `str::parse` for `u64`.
#[verifier::external_body]
pub(crate) fn parse_u64(text: &str) -> (number: Option<u64>)
    ensures
        number == parsed_u64(text@),
{
    text.parse::<u64>().ok()
}

/// Calls `str::parse` for `i64`.
#[verifier::external_body]
pub(crate) fn parse_i64(text: &str) -> (number: Option<i64>)
    ensures
        number == parsed_i64(text@),
{
    text.parse::<i64>().ok()
}

/// Calls `str::parse` for `i32`.
#[verifier::external_body]
pub(crate) fn parse_i32(text: &str) -> (number: Option<i32>)
    ensures
        number == parsed_i32(text@),
{
    text.parse::<i32>().ok()
}

/// Calls `str::parse` for `u32`.
#[verifier::external_body]
pub(crate) fn parse_u32(text: &str) -> (number: Option<u32>)
    ensures
        number == parsed_u32(text@),
{
    text.parse::<u32>().ok()
}

/// A setting that is a number of seconds: the number its text denotes, and
/// the default where it is unset or denotes none.
pub open spec fn seconds_setting(value: Option<String>, default: i64) -> i64 {
    match value {
        Some(text) => match parsed_i64(text@) {
            Some(number) => number,
            None => default,
        },
        None => default,
    }
}

/// A setting that is a cost of hashing.
pub open spec fn cost_setting(value: Option<String>, default: u32) -> u32 {
    match value {
        Some(text) => match parsed_u32(text@) {
            Some(number) => number,
            None => default,
        },
        None => default,
    }
}

/// The setting of the threshold of failed logins.
pub open spec fn attempts_setting(value: Option<String>, default: i32) -> i32 {
    match value {
        Some(text) => match parsed_i32(text@) {
            Some(number) => number,
            None => default,
        },
        None => default,
    }
}

/// The setting of the least length of a password: the number its text
/// denotes where that is a length on this machine, and the default
/// otherwise.
pub open spec fn length_setting(value: Option<String>, default: usize) -> usize {
    match value {
        Some(text) => match parsed_u64(text@) {
            Some(number) => if number <= usize::MAX {
                number as usize
            } else {
                default
            },
            None => default,
        },
        None => default,
    }
}

/// A setting that is text.
pub open spec fn text_setting(value: Option<String>, default: Seq<char>) -> Seq<char> {
    match value {
        Some(text) => text@,
        None => default,
    }
}

/// A setting that is a switch: on exactly where its text is `true` in any
/// case of letters.
pub open spec fn switch_setting(value: Option<String>) -> bool {
    match value {
        Some(text) => crate::encoding::lowercase_of(text@) == "true"@,
        None => false,
    }
}

fn read_seconds(value: &Option<String>, default: i64) -> (setting: i64)
    ensures
        setting == seconds_setting(*value, default),
{
    match value {
        Some(text) => match parse_i64(text.as_str()) {
            Some(number) => number,
            None => default,
        },
        None => default,
    }
}

fn read_cost(value: &Option<String>, default: u32) -> (setting: u32)
    ensures
        setting == cost_setting(*value, default),
{
    match value {
        Some(text) => match parse_u32(text.as_str()) {
            Some(number) => number,
            None => default,
        },
        None => default,
    }
}

fn read_text(value: &Option<String>, default: &str) -> (setting: String)
    ensures
        setting@ == text_setting(*value, default@),
{
    match value {
        Some(text) => text.clone(),
        None => String::from_str(default),
    }
}

impl Clone for AuthConfig {
    fn clone(&self) -> (copy: Self)
        ensures
            copy == *self,
    {
        AuthConfig {
            jwt_secret: self.jwt_secret.clone(),
            access_token_expiration: self.access_token_expiration,
            refresh_token_expiration: self.refresh_token_expiration,
            jwt_issuer: self.jwt_issuer.clone(),
            jwt_audience: self.jwt_audience.clone(),
            argon2_memory_cost: self.argon2_memory_cost,
            argon2_time_cost: self.argon2_time_cost,
            argon2_parallelism: self.argon2_parallelism,
            max_login_attempts: self.max_login_attempts,
            lockout_duration: self.lockout_duration,
            password_reset_expiration: self.password_reset_expiration,
            email_verification_expiration: self.email_verification_expiration,
            min_password_length: self.min_password_length,
            require_email_verification: self.require_email_verification,
        }
    }
}

impl AuthConfig {
    /// The first rule that the configuration breaks, if any: the secret has
    /// at least 32 bytes, the access lifetime is positive, the refresh
    /// lifetime exceeds it, and passwords have at least 8 bytes.
    pub open spec fn fault(&self) -> Option<ConfigFault> {
        if vstd::utf8::encode_utf8(self.jwt_secret@).len() < 32 {
            Some(ConfigFault::ShortSecret)
        } else if self.access_token_expiration <= 0 {
            Some(ConfigFault::AccessExpirationNotPositive)
        } else if self.refresh_token_expiration <= self.access_token_expiration {
            Some(ConfigFault::RefreshNotLongerThanAccess)
        } else if self.min_password_length < 8 {
            Some(ConfigFault::ShortMinimumPassword)
        } else {
            None
        }
    }

    /// A configuration with the given secret and the default of every other
    /// setting.
    pub fn with_secret(jwt_secret: String) -> (config: AuthConfig)
        ensures
            config.jwt_secret == jwt_secret,
            config.access_token_expiration == 900,
            config.refresh_token_expiration == 604800,
            config.jwt_issuer@ == "rustpress"@,
            config.jwt_audience@ == "rustpress-api"@,
            config.argon2_memory_cost == 65536,
            config.argon2_time_cost == 3,
            config.argon2_parallelism == 4,
            config.max_login_attempts == 5,
            config.lockout_duration == 900,
            config.password_reset_expiration == 3600,
            config.email_verification_expiration == 86400,
            config.min_password_length == 8,
            !config.require_email_verification,
    {
        AuthConfig {
            jwt_secret,
            access_token_expiration: 900,
            refresh_token_expiration: 604800,
            jwt_issuer: String::from_str("rustpress"),
            jwt_audience: String::from_str("rustpress-api"),
            argon2_memory_cost: 65536,
            argon2_time_cost: 3,
            argon2_parallelism: 4,
            max_login_attempts: 5,
            lockout_duration: 900,
            password_reset_expiration: 3600,
            email_verification_expiration: 86400,
            min_password_length: 8,
            require_email_verification: false,
        }
    }

    /// The configuration that the values of the environment give: each
    /// setting is the value that its text denotes, and its default where it
    /// is unset or its text denotes none.
    pub fn from_vars(jwt_secret: String, vars: &ConfigVars) -> (config: AuthConfig)
        ensures
            config.jwt_secret == jwt_secret,
            config.access_token_expiration == seconds_setting(vars.jwt_access_expiration, 900),
            config.refresh_token_expiration == seconds_setting(
                vars.jwt_refresh_expiration,
                604800,
            ),
            config.jwt_issuer@ == text_setting(vars.jwt_issuer, "rustpress"@),
            config.jwt_audience@ == text_setting(vars.jwt_audience, "rustpress-api"@),
            config.argon2_memory_cost == cost_setting(vars.argon2_memory_cost, 65536),
            config.argon2_time_cost == cost_setting(vars.argon2_time_cost, 3),
            config.argon2_parallelism == cost_setting(vars.argon2_parallelism, 4),
            config.max_login_attempts == attempts_setting(vars.max_login_attempts, 5),
            config.lockout_duration == seconds_setting(vars.lockout_duration, 900),
            config.password_reset_expiration == seconds_setting(
                vars.password_reset_expiration,
                3600,
            ),
            config.email_verification_expiration == seconds_setting(
                vars.email_verification_expiration,
                86400,
            ),
            config.min_password_length == length_setting(vars.min_password_length, 8),
            config.require_email_verification == switch_setting(vars.require_email_verification),
    {
        let max_login_attempts: i32 = match &vars.max_login_attempts {
            Some(text) => match parse_i32(text.as_str()) {
                Some(number) => number,
                None => 5,
            },
            None => 5,
        };
        let min_password_length: usize = match &vars.min_password_length {
            Some(text) => match parse_u64(text.as_str()) {
                Some(number) => if number <= usize::MAX as u64 {
                    number as usize
                } else {
                    8
                },
                None => 8,
            },
            None => 8,
        };
        let require_email_verification = match &vars.require_email_verification {
            Some(text) => crate::encoding::same_text(
                crate::encoding::to_lowercase(text.as_str()).as_str(),
                "true",
            ),
            None => false,
        };
        AuthConfig {
            jwt_secret,
            access_token_expiration: read_seconds(&vars.jwt_access_expiration, 900),
            refresh_token_expiration: read_seconds(&vars.jwt_refresh_expiration, 604800),
            jwt_issuer: read_text(&vars.jwt_issuer, "rustpress"),
            jwt_audience: read_text(&vars.jwt_audience, "rustpress-api"),
            argon2_memory_cost: read_cost(&vars.argon2_memory_cost, 65536),
            argon2_time_cost: read_cost(&vars.argon2_time_cost, 3),
            argon2_parallelism: read_cost(&vars.argon2_parallelism, 4),
            max_login_attempts,
            lockout_duration: read_seconds(&vars.lockout_duration, 900),
            password_reset_expiration: read_seconds(&vars.password_reset_expiration, 3600),
            email_verification_expiration: read_seconds(&vars.email_verification_expiration, 86400),
            min_password_length,
            require_email_verification,
        }
    }

    /// Accepts the configuration if it breaks no rule, and otherwise names
    /// the first rule broken.
    pub fn validate(&self) -> (checked: Result<(), AuthError>)
        ensures
            checked == match self.fault() {
                Some(fault) => Err::<(), AuthError>(AuthError::Config(fault)),
                None => Ok(()),
            },
    {
        if self.jwt_secret.as_str().as_bytes().len() < 32 {
            return Err(AuthError::Config(ConfigFault::ShortSecret));
        }
        if self.access_token_expiration <= 0 {
            return Err(AuthError::Config(ConfigFault::AccessExpirationNotPositive));
        }
        if self.refresh_token_expiration <= self.access_token_expiration {
            return Err(AuthError::Config(ConfigFault::RefreshNotLongerThanAccess));
        }
        if self.min_password_length < 8 {
            return Err(AuthError::Config(ConfigFault::ShortMinimumPassword));
        }
        Ok(())
    }
}

} // verus!
