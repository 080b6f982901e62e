//! The requests of the public operations and the rules each must meet before
//! it reaches the service.

use crate::error::{AuthError, ValidationFault};
use vstd::prelude::*;
use vstd::string::StrSliceExecFns;

verus! {

/// Whether a text is an email address of the form that HTML5 accepts in an
/// email field.
pub uninterp spec fn email_is_valid(email: Seq<char>) -> bool;

/// Calls `validator::ValidateEmail::validate_email`. The contract names the
/// answer.
#[verifier::external_body]
pub(crate) fn validate_email(email: &str) -> (valid: bool)
    ensures
        valid == email_is_valid(email@),
{
    validator::ValidateEmail::validate_email(&email)
}

/// What validation returns for the first rule broken, if any.
pub open spec fn fault_result(fault: Option<ValidationFault>) -> Result<(), AuthError> {
    match fault {
        Some(f) => Err(AuthError::Validation(f)),
        None => Ok(()),
    }
}

fn report(fault: Option<ValidationFault>) -> (checked: Result<(), AuthError>)
    ensures
        checked == fault_result(fault),
{
    match fault {
        Some(f) => Err(AuthError::Validation(f)),
        None => Ok(()),
    }
}

/// A request to log in.
#[derive(Debug)]
pub struct LoginRequest {
    pub email: String,
    pub password: String,
}

impl LoginRequest {
    /// The first rule broken: the email is an address and the password is
    /// not empty.
    pub open spec fn fault(&self) -> Option<ValidationFault> {
        if !email_is_valid(self.email@) {
            Some(ValidationFault::InvalidEmail)
        } else if self.password@.len() < 1 {
            Some(ValidationFault::PasswordRequired)
        } else {
            None
        }
    }

    pub fn validate(&self) -> (checked: Result<(), AuthError>)
        ensures
            checked == fault_result(self.fault()),
    {
        if !validate_email(self.email.as_str()) {
            return report(Some(ValidationFault::InvalidEmail));
        }
        if self.password.as_str().unicode_len() < 1 {
            return report(Some(ValidationFault::PasswordRequired));
        }
        report(None)
    }
}

/// The first rule that a registration breaks: the email is an address, the
/// password has at least 8 characters and is confirmed, and the name has
/// between 1 and 100 characters.
pub open spec fn registration_fault(
    email: Seq<char>,
    password: Seq<char>,
    password_confirm: Seq<char>,
    name: Seq<char>,
) -> Option<ValidationFault> {
    if !email_is_valid(email) {
        Some(ValidationFault::InvalidEmail)
    } else if password.len() < 8 {
        Some(ValidationFault::PasswordTooShort)
    } else if password_confirm != password {
        Some(ValidationFault::PasswordMismatch)
    } else if name.len() < 1 || name.len() > 100 {
        Some(ValidationFault::NameLength)
    } else {
        None
    }
}

/// A request to register an account.
#[derive(Debug)]
pub struct RegisterRequest {
    pub email: String,
    pub password: String,
    pub password_confirm: String,
    pub name: String,
}

impl RegisterRequest {
    pub open spec fn fault(&self) -> Option<ValidationFault> {
        registration_fault(self.email@, self.password@, self.password_confirm@, self.name@)
    }

    pub fn validate(&self) -> (checked: Result<(), AuthError>)
        ensures
            checked == fault_result(self.fault()),
    {
        if !validate_email(self.email.as_str()) {
            return report(Some(ValidationFault::InvalidEmail));
        }
        if self.password.as_str().unicode_len() < 8 {
            return report(Some(ValidationFault::PasswordTooShort));
        }
        if self.password_confirm != self.password {
            return report(Some(ValidationFault::PasswordMismatch));
        }
        let name_len = self.name.as_str().unicode_len();
        if name_len < 1 || name_len > 100 {
            return report(Some(ValidationFault::NameLength));
        }
        report(None)
    }
}

/// A request that presents a refresh token.
#[derive(Debug)]
pub struct RefreshTokenRequest {
    pub refresh_token: String,
}

impl RefreshTokenRequest {
    pub open spec fn fault(&self) -> Option<ValidationFault> {
        if self.refresh_token@.len() < 1 {
            Some(ValidationFault::RefreshTokenRequired)
        } else {
            None
        }
    }

    pub fn validate(&self) -> (checked: Result<(), AuthError>)
        ensures
            checked == fault_result(self.fault()),
    {
        if self.refresh_token.as_str().unicode_len() < 1 {
            return report(Some(ValidationFault::RefreshTokenRequired));
        }
        report(None)
    }
}

/// A request to start a password reset.
#[derive(Debug)]
pub struct ForgotPasswordRequest {
    pub email: String,
}

impl ForgotPasswordRequest {
    pub open spec fn fault(&self) -> Option<ValidationFault> {
        if !email_is_valid(self.email@) {
            Some(ValidationFault::InvalidEmail)
        } else {
            None
        }
    }

    pub fn validate(&self) -> (checked: Result<(), AuthError>)
        ensures
            checked == fault_result(self.fault()),
    {
        if !validate_email(self.email.as_str()) {
            return report(Some(ValidationFault::InvalidEmail));
        }
        report(None)
    }
}

/// The first rule that a password reset breaks: the token is not empty and
/// the password has at least 8 characters and is confirmed.
pub open spec fn reset_fault(
    token: Seq<char>,
    password: Seq<char>,
    password_confirm: Seq<char>,
) -> Option<ValidationFault> {
    if token.len() < 1 {
        Some(ValidationFault::TokenRequired)
    } else if password.len() < 8 {
        Some(ValidationFault::PasswordTooShort)
    } else if password_confirm != password {
        Some(ValidationFault::PasswordMismatch)
    } else {
        None
    }
}

/// A request to complete a password reset.
#[derive(Debug)]
pub struct ResetPasswordRequest {
    pub token: String,
    pub password: String,
    pub password_confirm: String,
}

impl ResetPasswordRequest {
    pub open spec fn fault(&self) -> Option<ValidationFault> {
        reset_fault(self.token@, self.password@, self.password_confirm@)
    }

    pub fn validate(&self) -> (checked: Result<(), AuthError>)
        ensures
            checked == fault_result(self.fault()),
    {
        if self.token.as_str().unicode_len() < 1 {
            return report(Some(ValidationFault::TokenRequired));
        }
        if self.password.as_str().unicode_len() < 8 {
            return report(Some(ValidationFault::PasswordTooShort));
        }
        if self.password_confirm != self.password {
            return report(Some(ValidationFault::PasswordMismatch));
        }
        report(None)
    }
}

/// The first rule that a change of password breaks: the current password is
/// not empty and the new one has at least 8 characters and is confirmed.
pub open spec fn change_fault(
    current_password: Seq<char>,
    new_password: Seq<char>,
    new_password_confirm: Seq<char>,
) -> Option<ValidationFault> {
    if current_password.len() < 1 {
        Some(ValidationFault::CurrentPasswordRequired)
    } else if new_password.len() < 8 {
        Some(ValidationFault::NewPasswordTooShort)
    } else if new_password_confirm != new_password {
        Some(ValidationFault::PasswordMismatch)
    } else {
        None
    }
}

/// A request of an authenticated caller to change the password.
#[derive(Debug)]
pub struct ChangePasswordRequest {
    pub current_password: String,
    pub new_password: String,
    pub new_password_confirm: String,
}

impl ChangePasswordRequest {
    pub open spec fn fault(&self) -> Option<ValidationFault> {
        change_fault(self.current_password@, self.new_password@, self.new_password_confirm@)
    }

    pub fn validate(&self) -> (checked: Result<(), AuthError>)
        ensures
            checked == fault_result(self.fault()),
    {
        if self.current_password.as_str().unicode_len() < 1 {
            return report(Some(ValidationFault::CurrentPasswordRequired));
        }
        if self.new_password.as_str().unicode_len() < 8 {
            return report(Some(ValidationFault::NewPasswordTooShort));
        }
        if self.new_password_confirm != self.new_password {
            return report(Some(ValidationFault::PasswordMismatch));
        }
        report(None)
    }
}

/// A request to verify an email address.
#[derive(Debug)]
pub struct VerifyEmailRequest {
    pub token: String,
}

impl VerifyEmailRequest {
    pub open spec fn fault(&self) -> Option<ValidationFault> {
        if self.token@.len() < 1 {
            Some(ValidationFault::TokenRequired)
        } else {
            None
        }
    }

    pub fn validate(&self) -> (checked: Result<(), AuthError>)
        ensures
            checked == fault_result(self.fault()),
    {
        if self.token.as_str().unicode_len() < 1 {
            return report(Some(ValidationFault::TokenRequired));
        }
        report(None)
    }
}

} // verus!
