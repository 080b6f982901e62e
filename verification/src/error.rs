//! The tagged errors of every authentication operation, with the status, the
//! machine-readable code and the safe message under which each one is reported.

use vstd::prelude::*;
use vstd::string::StringExecFns;

verus! {

/// The rule that a request breaks.
#[derive(Debug, Clone, Copy, PartialEq, Eq, Structural)]
pub enum ValidationFault {
    InvalidEmail,
    PasswordRequired,
    PasswordTooShort,
    PasswordMismatch,
    NameLength,
    RefreshTokenRequired,
    TokenRequired,
    CurrentPasswordRequired,
    NewPasswordTooShort,
}

/// The rule that a configuration breaks.
#[derive(Debug, Clone, Copy, PartialEq, Eq, Structural)]
pub enum ConfigFault {
    ShortSecret,
    AccessExpirationNotPositive,
    RefreshNotLongerThanAccess,
    ShortMinimumPassword,
}

/// Why the store refused or failed.
#[derive(Debug, Clone, Copy, PartialEq, Eq, Structural)]
pub enum StoreFault {
    /// A key that must be unique is taken.
    DuplicateKey,
    /// The store could not be reached.
    Unavailable,
}

impl ValidationFault {
    pub open spec fn spec_message(self) -> Seq<char> {
        match self {
            ValidationFault::InvalidEmail => "Invalid email format"@,
            ValidationFault::PasswordRequired => "Password is required"@,
            ValidationFault::PasswordTooShort => "Password must be at least 8 characters"@,
            ValidationFault::PasswordMismatch => "Passwords do not match"@,
            ValidationFault::NameLength => "Name must be 1-100 characters"@,
            ValidationFault::RefreshTokenRequired => "Refresh token is required"@,
            ValidationFault::TokenRequired => "Token is required"@,
            ValidationFault::CurrentPasswordRequired => "Current password is required"@,
            ValidationFault::NewPasswordTooShort => "New password must be at least 8 characters"@,
        }
    }

    pub fn message(self) -> (text: &'static str)
        ensures
            text@ == self.spec_message(),
    {
        match self {
            ValidationFault::InvalidEmail => "Invalid email format",
            ValidationFault::PasswordRequired => "Password is required",
            ValidationFault::PasswordTooShort => "Password must be at least 8 characters",
            ValidationFault::PasswordMismatch => "Passwords do not match",
            ValidationFault::NameLength => "Name must be 1-100 characters",
            ValidationFault::RefreshTokenRequired => "Refresh token is required",
            ValidationFault::TokenRequired => "Token is required",
            ValidationFault::CurrentPasswordRequired => "Current password is required",
            ValidationFault::NewPasswordTooShort => "New password must be at least 8 characters",
        }
    }
}

impl ConfigFault {
    pub open spec fn spec_message(self) -> Seq<char> {
        match self {
            ConfigFault::ShortSecret => "JWT_SECRET must be at least 32 characters"@,
            ConfigFault::AccessExpirationNotPositive => "JWT_ACCESS_EXPIRATION must be positive"@,
            ConfigFault::RefreshNotLongerThanAccess => "JWT_REFRESH_EXPIRATION must be greater than JWT_ACCESS_EXPIRATION"@,
            ConfigFault::ShortMinimumPassword => "MIN_PASSWORD_LENGTH must be at least 8"@,
        }
    }

    pub fn message(self) -> (text: &'static str)
        ensures
            text@ == self.spec_message(),
    {
        match self {
            ConfigFault::ShortSecret => "JWT_SECRET must be at least 32 characters",
            ConfigFault::AccessExpirationNotPositive => "JWT_ACCESS_EXPIRATION must be positive",
            ConfigFault::RefreshNotLongerThanAccess => "JWT_REFRESH_EXPIRATION must be greater than JWT_ACCESS_EXPIRATION",
            ConfigFault::ShortMinimumPassword => "MIN_PASSWORD_LENGTH must be at least 8",
        }
    }
}

impl StoreFault {
    pub open spec fn spec_message(self) -> Seq<char> {
        match self {
            StoreFault::DuplicateKey => "duplicate key"@,
            StoreFault::Unavailable => "store unavailable"@,
        }
    }

    pub fn message(self) -> (text: &'static str)
        ensures
            text@ == self.spec_message(),
    {
        match self {
            StoreFault::DuplicateKey => "duplicate key",
            StoreFault::Unavailable => "store unavailable",
        }
    }
}

/// Why an authentication operation failed.
#[derive(Debug, Clone, Copy, PartialEq, Eq, Structural)]
pub enum AuthError {
    InvalidCredentials,
    AccountLocked,
    AccountNotActive,
    EmailNotVerified,
    InvalidToken,
    TokenRevoked,
    UserNotFound,
    EmailExists,
    WeakPassword,
    Validation(ValidationFault),
    Database(StoreFault),
    Config(ConfigFault),
    Internal,
}

/// What a caller is shown of an error.
#[derive(Debug)]
pub struct ErrorResponse {
    pub status: u16,
    pub error: String,
    pub message: String,
}

impl AuthError {
    /// The HTTP status under which the error is reported.
    pub open spec fn spec_status_code(&self) -> u16 {
        match self {
            AuthError::InvalidCredentials => 401,
            AuthError::AccountLocked => 403,
            AuthError::AccountNotActive => 403,
            AuthError::EmailNotVerified => 403,
            AuthError::InvalidToken => 401,
            AuthError::TokenRevoked => 401,
            AuthError::UserNotFound => 404,
            AuthError::EmailExists => 409,
            AuthError::WeakPassword => 400,
            AuthError::Validation(_) => 400,
            AuthError::Database(_) => 500,
            AuthError::Config(_) => 500,
            AuthError::Internal => 500,
        }
    }

    /// The stable machine-readable code of the error. Storage and internal
    /// failures share one code.
    pub open spec fn spec_error_code(&self) -> Seq<char> {
        match self {
            AuthError::InvalidCredentials => "invalid_credentials"@,
            AuthError::AccountLocked => "account_locked"@,
            AuthError::AccountNotActive => "account_not_active"@,
            AuthError::EmailNotVerified => "email_not_verified"@,
            AuthError::InvalidToken => "invalid_token"@,
            AuthError::TokenRevoked => "token_revoked"@,
            AuthError::UserNotFound => "user_not_found"@,
            AuthError::EmailExists => "email_exists"@,
            AuthError::WeakPassword => "weak_password"@,
            AuthError::Validation(_) => "validation_error"@,
            AuthError::Database(_) => "internal_error"@,
            AuthError::Config(_) => "configuration_error"@,
            AuthError::Internal => "internal_error"@,
        }
    }

    /// The full description of the error, detail included.
    pub open spec fn spec_description(&self) -> Seq<char> {
        match self {
            AuthError::InvalidCredentials => "Invalid credentials"@,
            AuthError::AccountLocked => "Account is locked. Try again later"@,
            AuthError::AccountNotActive => "Account is not active"@,
            AuthError::EmailNotVerified => "Email not verified"@,
            AuthError::InvalidToken => "Invalid or expired token"@,
            AuthError::TokenRevoked => "Token has been revoked"@,
            AuthError::UserNotFound => "User not found"@,
            AuthError::EmailExists => "Email already registered"@,
            AuthError::WeakPassword => "Password does not meet requirements"@,
            AuthError::Validation(fault) => "Validation error: "@ + fault.spec_message(),
            AuthError::Database(fault) => "Database error: "@ + fault.spec_message(),
            AuthError::Config(fault) => "Configuration error: "@ + fault.spec_message(),
            AuthError::Internal => "Internal error"@,
        }
    }

    /// The message that may be shown to a caller: the description of a
    /// business-rule error, the bare detail of a validation or configuration
    /// error, and one fixed sentence for storage and internal failures.
    pub open spec fn spec_safe_message(&self) -> Seq<char> {
        match self {
            AuthError::Validation(fault) => fault.spec_message(),
            AuthError::Config(fault) => fault.spec_message(),
            AuthError::Database(_) => "An internal error occurred"@,
            AuthError::Internal => "An internal error occurred"@,
            _ => self.spec_description(),
        }
    }

    /// True for the failures whose detail must never reach a caller.
    pub open spec fn is_internal(&self) -> bool {
        self is Database || self is Internal
    }

    pub fn status_code(&self) -> (code: u16)
        ensures
            code == self.spec_status_code(),
    {
        match self {
            AuthError::InvalidCredentials | AuthError::InvalidToken | AuthError::TokenRevoked => 401,
            AuthError::AccountLocked | AuthError::AccountNotActive | AuthError::EmailNotVerified => 403,
            AuthError::UserNotFound => 404,
            AuthError::EmailExists => 409,
            AuthError::WeakPassword | AuthError::Validation(_) => 400,
            AuthError::Database(_) | AuthError::Config(_) | AuthError::Internal => 500,
        }
    }

    pub fn error_code(&self) -> (code: &'static str)
        ensures
            code@ == self.spec_error_code(),
    {
        match self {
            AuthError::InvalidCredentials => "invalid_credentials",
            AuthError::AccountLocked => "account_locked",
            AuthError::AccountNotActive => "account_not_active",
            AuthError::EmailNotVerified => "email_not_verified",
            AuthError::InvalidToken => "invalid_token",
            AuthError::TokenRevoked => "token_revoked",
            AuthError::UserNotFound => "user_not_found",
            AuthError::EmailExists => "email_exists",
            AuthError::WeakPassword => "weak_password",
            AuthError::Validation(_) => "validation_error",
            AuthError::Config(_) => "configuration_error",
            AuthError::Database(_) | AuthError::Internal => "internal_error",
        }
    }

    /// The description of the error as text.
    pub fn to_string(&self) -> (text: String)
        ensures
            text@ == self.spec_description(),
    {
        match self {
            AuthError::InvalidCredentials => String::from_str("Invalid credentials"),
            AuthError::AccountLocked => String::from_str("Account is locked. Try again later"),
            AuthError::AccountNotActive => String::from_str("Account is not active"),
            AuthError::EmailNotVerified => String::from_str("Email not verified"),
            AuthError::InvalidToken => String::from_str("Invalid or expired token"),
            AuthError::TokenRevoked => String::from_str("Token has been revoked"),
            AuthError::UserNotFound => String::from_str("User not found"),
            AuthError::EmailExists => String::from_str("Email already registered"),
            AuthError::WeakPassword => String::from_str("Password does not meet requirements"),
            AuthError::Validation(fault) => String::from_str("Validation error: ").concat(
                fault.message(),
            ),
            AuthError::Database(fault) => String::from_str("Database error: ").concat(
                fault.message(),
            ),
            AuthError::Config(fault) => String::from_str("Configuration error: ").concat(
                fault.message(),
            ),
            AuthError::Internal => String::from_str("Internal error"),
        }
    }

    /// The status, code and message under which the error is reported. The
    /// detail of a storage failure is not part of it.
    pub fn response(&self) -> (shown: ErrorResponse)
        ensures
            shown.status == self.spec_status_code(),
            shown.error@ == self.spec_error_code(),
            shown.message@ == self.spec_safe_message(),
    {
        let message = match self {
            AuthError::Validation(fault) => String::from_str(fault.message()),
            AuthError::Config(fault) => String::from_str(fault.message()),
            AuthError::Database(_) | AuthError::Internal => String::from_str(
                "An internal error occurred",
            ),
            _ => self.to_string(),
        };
        ErrorResponse {
            status: self.status_code(),
            error: String::from_str(self.error_code()),
            message,
        }
    }
}

/// The message shown for a storage or internal failure is one fixed sentence,
/// whatever detail the error carries.
pub proof fn law_internal_errors_are_opaque(first: AuthError, second: AuthError)
    requires
        first.is_internal(),
        second.is_internal(),
    ensures
        first.spec_safe_message() == second.spec_safe_message(),
        first.spec_error_code() == second.spec_error_code(),
        first.spec_status_code() == second.spec_status_code(),
{
}

} // verus!
