//! Business-rule violations of the identity context.

use vstd::prelude::*;

use crate::error::{ErrorCode, ErrorContext};
use crate::identity::email::{email_error_message, EmailError};
use crate::identity::password::{password_error_message, PasswordError};
use crate::identity::username::{username_error_message, UsernameError};
use crate::text::push_str;

verus! {

/// A business rule violation within the identity domain.
#[derive(Debug, Clone, Copy, PartialEq, Eq, Structural)]
pub enum IdentityError {
    /// The user provided an incorrect email or password.
    InvalidCredentials,
    /// The requested user account could not be found.
    AccountNotFound,
    /// The email address is already used by another account.
    EmailAlreadyExists,
    PasswordValidation(PasswordError),
    EmailValidation(EmailError),
    UsernameValidation(UsernameError),
}

impl ErrorCode for IdentityError {
    open spec fn code_of(&self) -> Seq<char> {
        match *self {
            IdentityError::InvalidCredentials => "AUTH_INVALID_CREDENTIALS"@,
            IdentityError::AccountNotFound => "AUTH_ACCOUNT_NOT_FOUND"@,
            IdentityError::EmailAlreadyExists => "AUTH_EMAIL_ALREADY_EXISTS"@,
            IdentityError::PasswordValidation(e) => e.code_of(),
            IdentityError::EmailValidation(e) => e.code_of(),
            IdentityError::UsernameValidation(e) => e.code_of(),
        }
    }

    open spec fn context_of(&self) -> Option<ErrorContext> {
        match *self {
            IdentityError::PasswordValidation(e) => e.context_of(),
            IdentityError::EmailValidation(e) => e.context_of(),
            IdentityError::UsernameValidation(e) => e.context_of(),
            _ => None,
        }
    }

    /// The slug; validation errors report the slug of the inner error.
    fn error_code(&self) -> (code: &'static str) {
        match self {
            IdentityError::InvalidCredentials => "AUTH_INVALID_CREDENTIALS",
            IdentityError::AccountNotFound => "AUTH_ACCOUNT_NOT_FOUND",
            IdentityError::EmailAlreadyExists => "AUTH_EMAIL_ALREADY_EXISTS",
            IdentityError::PasswordValidation(err) => err.error_code(),
            IdentityError::EmailValidation(err) => err.error_code(),
            IdentityError::UsernameValidation(err) => err.error_code(),
        }
    }

    /// The context of the inner validation error; other errors have none.
    fn context(&self) -> (ctx: Option<ErrorContext>) {
        match self {
            IdentityError::EmailValidation(err) => err.context(),
            IdentityError::UsernameValidation(err) => err.context(),
            IdentityError::PasswordValidation(err) => err.context(),
            _ => None,
        }
    }
}

/// The human-readable message of each identity error; email and username
/// errors show their own message unchanged.
pub open spec fn identity_error_message(e: IdentityError) -> Seq<char> {
    match e {
        IdentityError::InvalidCredentials => "Invalid credentials provided."@,
        IdentityError::AccountNotFound => "The specified account does not exist."@,
        IdentityError::EmailAlreadyExists => "An account with this email address already exists."@,
        IdentityError::PasswordValidation(p) => "Password invalid: "@ + password_error_message(p),
        IdentityError::EmailValidation(m) => email_error_message(m),
        IdentityError::UsernameValidation(u) => username_error_message(u),
    }
}

impl IdentityError {
    /// The message shown for the error (its display text).
    pub fn message(&self) -> (s: String)
        ensures
            s@ == identity_error_message(*self),
    {
        match self {
            IdentityError::InvalidCredentials => "Invalid credentials provided.".to_owned(),
            IdentityError::AccountNotFound => "The specified account does not exist.".to_owned(),
            IdentityError::EmailAlreadyExists => "An account with this email address already exists.".to_owned(),
            IdentityError::PasswordValidation(p) => {
                let mut s = "Password invalid: ".to_owned();
                let inner = p.message();
                push_str(&mut s, inner.as_str());
                s
            },
            IdentityError::EmailValidation(m) => m.message(),
            IdentityError::UsernameValidation(u) => u.message(),
        }
    }
}

impl From<PasswordError> for IdentityError {
    fn from(err: PasswordError) -> (r: IdentityError) {
        IdentityError::PasswordValidation(err)
    }
}

impl vstd::std_specs::convert::FromSpecImpl<PasswordError> for IdentityError {
    open spec fn obeys_from_spec() -> bool {
        true
    }

    open spec fn from_spec(err: PasswordError) -> IdentityError {
        IdentityError::PasswordValidation(err)
    }
}

impl From<EmailError> for IdentityError {
    fn from(err: EmailError) -> (r: IdentityError) {
        IdentityError::EmailValidation(err)
    }
}

impl vstd::std_specs::convert::FromSpecImpl<EmailError> for IdentityError {
    open spec fn obeys_from_spec() -> bool {
        true
    }

    open spec fn from_spec(err: EmailError) -> IdentityError {
        IdentityError::EmailValidation(err)
    }
}

impl From<UsernameError> for IdentityError {
    fn from(err: UsernameError) -> (r: IdentityError) {
        IdentityError::UsernameValidation(err)
    }
}

impl vstd::std_specs::convert::FromSpecImpl<UsernameError> for IdentityError {
    open spec fn obeys_from_spec() -> bool {
        true
    }

    open spec fn from_spec(err: UsernameError) -> IdentityError {
        IdentityError::UsernameValidation(err)
    }
}

} // verus!
