//! Shared error contracts: the application error and the structured,
//! translation-friendly description that domain errors expose.

use vstd::prelude::*;

verus! {

/// Data a frontend needs, beside the error code, to render a translated message.
#[derive(Debug, Clone, Copy, PartialEq, Eq, Structural)]
pub enum ErrorContext {
    /// The minimum number of characters a value must have.
    MinLength(usize),
}

/// Domain errors describe themselves by a stable slug (`error_code`) and
/// optional dynamic data (`context`) instead of an English message.
pub trait ErrorCode {
    /// The slug that identifies this error.
    spec fn code_of(&self) -> Seq<char>;

    /// The dynamic data that goes with this error, if any.
    spec fn context_of(&self) -> Option<ErrorContext>;

    /// Returns the unique slug representing this specific error.
    fn error_code(&self) -> (code: &'static str)
        ensures
            code@ == self.code_of(),
    ;

    /// Returns optional dynamic data required for frontend translations.
    fn context(&self) -> (ctx: Option<ErrorContext>)
        ensures
            ctx == self.context_of(),
    ;
}

/// Errors raised by application workflows and infrastructure adapters.
#[derive(Debug, Clone, PartialEq, Eq)]
pub enum AppError {
    /// The caller could not be authenticated.
    Authentication(String),
    /// A backing service (database, cache, cryptography) failed.
    Infrastructure(String),
    /// An unexpected internal failure.
    Internal,
}

} // verus!
