//! Username value object.

use vstd::prelude::*;

use crate::error::{ErrorCode, ErrorContext};
use crate::text::{
    is_trimmed, lemma_trim_ws_is_trimmed, lemma_trimmed_is_fixed, str_to_lowercase, str_trim, trim_ws,
};

verus! {

/// The ways a username can be rejected.
#[derive(Debug, Clone, Copy, PartialEq, Eq, Structural)]
pub enum UsernameError {
    ValidationFailed,
}

impl ErrorCode for UsernameError {
    open spec fn code_of(&self) -> Seq<char> {
        "IDENTITY_USERNAME_VALIDATION_FAILED"@
    }

    open spec fn context_of(&self) -> Option<ErrorContext> {
        None
    }

    fn error_code(&self) -> (code: &'static str) {
        "IDENTITY_USERNAME_VALIDATION_FAILED"
    }

    fn context(&self) -> (ctx: Option<ErrorContext>) {
        None
    }
}

/// The human-readable message of the username error.
pub open spec fn username_error_message(e: UsernameError) -> Seq<char> {
    "The username contains did not pass validation."@
}

impl UsernameError {
    /// The message shown for the error (its display text).
    pub fn message(&self) -> (s: String)
        ensures
            s@ == username_error_message(*self),
    {
        "The username contains did not pass validation.".to_owned()
    }
}

/// The outcome of validating raw input: the trimmed name (its
/// capitalization kept) when it is not empty.
pub open spec fn username_outcome(raw: Seq<char>) -> Result<Seq<char>, UsernameError> {
    if trim_ws(raw).len() > 0 {
        Ok(trim_ws(raw))
    } else {
        Err(UsernameError::ValidationFailed)
    }
}

/// A validated display name.
#[derive(Debug, PartialEq, Eq, Hash)]
pub struct Username(String);

impl Clone for Username {
    fn clone(&self) -> (r: Username)
        ensures
            r@ == self@,
    {
        proof {
            use_type_invariant(self);
        }
        Username(self.0.clone())
    }
}

impl View for Username {
    type V = Seq<char>;

    closed spec fn view(&self) -> Seq<char> {
        self.0@
    }
}

impl Username {
    /// Every username is trimmed and not empty.
    #[verifier::type_invariant]
    spec fn is_valid(self) -> bool {
        is_trimmed(self.0@) && self.0@.len() > 0
    }

    /// Builds a `Username` from raw input (`TryFrom<String>`): surrounding
    /// whitespace is removed and the name must not be empty.
    pub fn try_from(value: String) -> (r: Result<Username, UsernameError>)
        ensures
            match username_outcome(value@) {
                Ok(s) => r matches Ok(u) && u@ == s,
                Err(e) => r == Err::<Username, UsernameError>(e),
            },
    {
        let trimmed = str_trim(value.as_str());
        // The emptiness test runs on the lowercase form; lowercasing keeps
        // exactly the empty text empty.
        let sanitized = str_to_lowercase(trimmed);
        if !sanitized.as_str().is_empty() {
            proof {
                lemma_trim_ws_is_trimmed(value@);
            }
            // The trimmed input is kept, so its capitalization survives.
            Ok(Username(trimmed.to_owned()))
        } else {
            Err(UsernameError::ValidationFailed)
        }
    }

    /// Parses a `Username` from a string slice (`FromStr`).
    pub fn from_str(s: &str) -> (r: Result<Username, UsernameError>)
        ensures
            match username_outcome(s@) {
                Ok(v) => r matches Ok(u) && u@ == v,
                Err(e) => r == Err::<Username, UsernameError>(e),
            },
    {
        Username::try_from(s.to_owned())
    }

    /// The validated name: validating it again gives it back unchanged.
    pub fn as_str(&self) -> (s: &str)
        ensures
            s@ == self@,
            is_trimmed(s@),
            username_outcome(s@) == Ok::<Seq<char>, UsernameError>(s@),
    {
        proof {
            use_type_invariant(self);
            lemma_trimmed_is_fixed(self.0@);
        }
        self.0.as_str()
    }
}

impl std::str::FromStr for Username {
    type Err = UsernameError;

    fn from_str(s: &str) -> (r: Result<Username, UsernameError>)
        ensures
            match username_outcome(s@) {
                Ok(v) => r matches Ok(u) && u@ == v,
                Err(e) => r == Err::<Username, UsernameError>(e),
            },
    {
        Username::from_str(s)
    }
}

} // verus!
