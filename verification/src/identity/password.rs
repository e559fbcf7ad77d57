//! Password value objects and the complexity policy.
//!
//! Unhashed input (`PlaintextPassword`) and secure storage (`PasswordHash`)
//! are distinct types, so cleartext cannot be stored by mistake.

use vstd::prelude::*;

use crate::error::{ErrorCode, ErrorContext};
use crate::numbers::{decimal, format_u64};
use crate::text::{
    char_is_ascii_punctuation, char_is_lowercase, char_is_numeric, char_is_uppercase, chars_vec,
    is_ascii_punctuation_char, unicode_is_lowercase, unicode_is_numeric, unicode_is_uppercase,
    push_str,
};

verus! {

/// Minimum required password length, in characters.
pub const MIN_PASSWORD_LENGTH: usize = 8;

/// Maximum allowed password length, in characters.
pub const MAX_PASSWORD_LENGTH: usize = 128;

/// The ways a password can violate the security policy.
#[derive(Debug, Clone, Copy, PartialEq, Eq, Structural)]
pub enum PasswordError {
    Empty,
    TooShort(usize),
    TooLong(usize),
    MissingLowercase,
    MissingUppercase,
    MissingNumber,
    MissingSymbol,
}

/// Whether some character of `s` is numeric.
pub open spec fn has_numeric(s: Seq<char>) -> bool {
    exists|i: int| 0 <= i < s.len() && #[trigger] unicode_is_numeric(s[i])
}

/// Whether some character of `s` is lowercase.
pub open spec fn has_lowercase(s: Seq<char>) -> bool {
    exists|i: int| 0 <= i < s.len() && #[trigger] unicode_is_lowercase(s[i])
}

/// Whether some character of `s` is uppercase.
pub open spec fn has_uppercase(s: Seq<char>) -> bool {
    exists|i: int| 0 <= i < s.len() && #[trigger] unicode_is_uppercase(s[i])
}

/// Whether some character of `s` is ASCII punctuation.
pub open spec fn has_ascii_punctuation(s: Seq<char>) -> bool {
    exists|i: int| 0 <= i < s.len() && #[trigger] is_ascii_punctuation_char(s[i])
}

/// The password policy: the first rule that `raw` breaks, in the order in
/// which they are checked, or `None` when it satisfies all of them.
///
/// Lengths are counted in characters, as the policy's messages state.
pub open spec fn password_violation(raw: Seq<char>) -> Option<PasswordError> {
    if raw.len() == 0 {
        Some(PasswordError::Empty)
    } else if raw.len() < MIN_PASSWORD_LENGTH {
        Some(PasswordError::TooShort(MIN_PASSWORD_LENGTH))
    } else if raw.len() > MAX_PASSWORD_LENGTH {
        Some(PasswordError::TooLong(MAX_PASSWORD_LENGTH))
    } else if !has_numeric(raw) {
        Some(PasswordError::MissingNumber)
    } else if !has_lowercase(raw) {
        Some(PasswordError::MissingLowercase)
    } else if !has_uppercase(raw) {
        Some(PasswordError::MissingUppercase)
    } else if !has_ascii_punctuation(raw) {
        Some(PasswordError::MissingSymbol)
    } else {
        None
    }
}

/// A printable ASCII character that is neither a letter nor a digit
/// (`!"#$%&'()*+,-./:;<=>?@[\]^_` and the backtick, and `{|}~`).
pub open spec fn is_ascii_symbol(c: char) -> bool {
    &&& '!' <= c && c <= '~'
    &&& !('0' <= c && c <= '9')
    &&& !('a' <= c && c <= 'z')
    &&& !('A' <= c && c <= 'Z')
}

/// The symbol rule of the policy counts exactly the ASCII symbols: every
/// printable ASCII character that is neither a letter nor a digit, and no
/// other character. A password of acceptable length with a digit and both
/// letter cases is accepted as soon as it holds one such symbol, and
/// rejected for a missing symbol when it holds none.
pub proof fn lemma_symbol_rule(raw: Seq<char>)
    ensures
        forall|c: char| #[trigger] is_ascii_punctuation_char(c) <==> is_ascii_symbol(c),
        has_ascii_punctuation(raw) <==> exists|i: int| 0 <= i < raw.len() && #[trigger] is_ascii_symbol(
            raw[i],
        ),
        (password_violation(raw) == Some(PasswordError::MissingSymbol)) <==> (raw.len() >= MIN_PASSWORD_LENGTH
            && raw.len() <= MAX_PASSWORD_LENGTH && has_numeric(raw) && has_lowercase(raw)
            && has_uppercase(raw) && !(exists|i: int| 0 <= i < raw.len() && #[trigger] is_ascii_symbol(
            raw[i],
        ))),
{
    assert forall|c: char| #[trigger] is_ascii_punctuation_char(c) <==> is_ascii_symbol(c) by {}
    if has_ascii_punctuation(raw) {
        let i = choose|i: int| 0 <= i < raw.len() && #[trigger] is_ascii_punctuation_char(raw[i]);
        assert(is_ascii_symbol(raw[i]));
    }
    if exists|i: int| 0 <= i < raw.len() && #[trigger] is_ascii_symbol(raw[i]) {
        let i = choose|i: int| 0 <= i < raw.len() && #[trigger] is_ascii_symbol(raw[i]);
        assert(is_ascii_punctuation_char(raw[i]));
    }
}

/// The slug of each password error.
pub open spec fn password_error_code(e: PasswordError) -> Seq<char> {
    match e {
        PasswordError::Empty => "IDENTITY_PASSWORD_EMPTY"@,
        PasswordError::TooShort(_) => "IDENTITY_PASSWORD_TOO_SHORT"@,
        PasswordError::TooLong(_) => "IDENTITY_PASSWORD_TOO_LONG"@,
        PasswordError::MissingLowercase => "IDENTITY_PASSWORD_MISSING_LOWERCASE"@,
        PasswordError::MissingUppercase => "IDENTITY_PASSWORD_MISSING_UPPERCASE"@,
        PasswordError::MissingNumber => "IDENTITY_PASSWORD_MISSING_NUMBER"@,
        PasswordError::MissingSymbol => "IDENTITY_PASSWORD_MISSING_SYMBOL"@,
    }
}

impl ErrorCode for PasswordError {
    open spec fn code_of(&self) -> Seq<char> {
        password_error_code(*self)
    }

    open spec fn context_of(&self) -> Option<ErrorContext> {
        match *self {
            PasswordError::TooShort(min) => Some(ErrorContext::MinLength(min)),
            _ => None,
        }
    }

    /// Maps validation failures to localized frontend slugs.
    fn error_code(&self) -> (code: &'static str) {
        match self {
            PasswordError::Empty => "IDENTITY_PASSWORD_EMPTY",
            PasswordError::TooShort(_) => "IDENTITY_PASSWORD_TOO_SHORT",
            PasswordError::TooLong(_) => "IDENTITY_PASSWORD_TOO_LONG",
            PasswordError::MissingLowercase => "IDENTITY_PASSWORD_MISSING_LOWERCASE",
            PasswordError::MissingUppercase => "IDENTITY_PASSWORD_MISSING_UPPERCASE",
            PasswordError::MissingNumber => "IDENTITY_PASSWORD_MISSING_NUMBER",
            PasswordError::MissingSymbol => "IDENTITY_PASSWORD_MISSING_SYMBOL",
        }
    }

    /// Provides the minimum length for the "too short" message.
    fn context(&self) -> (ctx: Option<ErrorContext>) {
        match self {
            PasswordError::TooShort(min) => Some(ErrorContext::MinLength(*min)),
            _ => None,
        }
    }
}

/// The human-readable message of each password error.
pub open spec fn password_error_message(e: PasswordError) -> Seq<char> {
    match e {
        PasswordError::Empty => "Password cannot be empty"@,
        PasswordError::TooShort(min) => "Password must be at least "@ + decimal(min as nat)
            + " characters"@,
        PasswordError::TooLong(_) => "Password exceeds the maximum allowed length of 128 characters"@,
        PasswordError::MissingLowercase => "Password must contain at least one lowercase letter"@,
        PasswordError::MissingUppercase => "Password must contain at least one uppercase letter"@,
        PasswordError::MissingNumber => "Password must contain at least one number"@,
        PasswordError::MissingSymbol => "Password must contain at least one symbol"@,
    }
}

impl PasswordError {
    /// The message shown for the error (its display text).
    pub fn message(&self) -> (s: String)
        ensures
            s@ == password_error_message(*self),
    {
        match self {
            PasswordError::Empty => "Password cannot be empty".to_owned(),
            PasswordError::TooShort(min) => {
                let mut s = "Password must be at least ".to_owned();
                let digits = format_u64(*min as u64);
                push_str(&mut s, digits.as_str());
                push_str(&mut s, " characters");
                s
            },
            PasswordError::TooLong(_) => "Password exceeds the maximum allowed length of 128 characters".to_owned(),
            PasswordError::MissingLowercase => "Password must contain at least one lowercase letter".to_owned(),
            PasswordError::MissingUppercase => "Password must contain at least one uppercase letter".to_owned(),
            PasswordError::MissingNumber => "Password must contain at least one number".to_owned(),
            PasswordError::MissingSymbol => "Password must contain at least one symbol".to_owned(),
        }
    }
}

/// A validated, unhashed password.
///
/// Only strings that satisfy the password policy can be wrapped; the value
/// must be hashed before it is stored.
#[derive(PartialEq, Eq)]
pub struct PlaintextPassword(String);

impl Clone for PlaintextPassword {
    fn clone(&self) -> (r: PlaintextPassword)
        ensures
            r@ == self@,
    {
        proof {
            use_type_invariant(self);
        }
        PlaintextPassword(self.0.clone())
    }
}

impl View for PlaintextPassword {
    type V = Seq<char>;

    closed spec fn view(&self) -> Seq<char> {
        self.0@
    }
}

/// Which character classes occur in a password.
struct CharClasses {
    number: bool,
    lower: bool,
    upper: bool,
    symbol: bool,
}

/// One pass over the characters, recording which classes occur.
fn scan_char_classes(chars: &Vec<char>) -> (r: CharClasses)
    ensures
        r.number == has_numeric(chars@),
        r.lower == has_lowercase(chars@),
        r.upper == has_uppercase(chars@),
        r.symbol == has_ascii_punctuation(chars@),
{
    let mut r = CharClasses { number: false, lower: false, upper: false, symbol: false };
    let mut i: usize = 0;
    while i < chars.len()
        invariant
            i <= chars.len(),
            r.number == has_numeric(chars@.take(i as int)),
            r.lower == has_lowercase(chars@.take(i as int)),
            r.upper == has_uppercase(chars@.take(i as int)),
            r.symbol == has_ascii_punctuation(chars@.take(i as int)),
        decreases chars.len() - i,
    {
        let c = chars[i];
        let ghost prefix = chars@.take(i as int);
        let ghost next = chars@.take(i + 1);
        assert(next =~= prefix.push(c));
        let n = char_is_numeric(c);
        let l = char_is_lowercase(c);
        let u = char_is_uppercase(c);
        let s = char_is_ascii_punctuation(c);
        proof {
            assert(next[i as int] == c);
            assert forall|j: int| 0 <= j < i implies next[j] == prefix[j] by {}
        }
        r.number = r.number || n;
        r.lower = r.lower || l;
        r.upper = r.upper || u;
        r.symbol = r.symbol || s;
        i = i + 1;
    }
    assert(chars@.take(chars.len() as int) =~= chars@);
    r
}

impl PlaintextPassword {
    /// Every plaintext password satisfies the policy.
    #[verifier::type_invariant]
    spec fn satisfies_policy(self) -> bool {
        password_violation(self.0@) is None
    }

    /// Validates raw input against the password policy (`TryFrom<String>`).
    ///
    /// Rules are checked in a fixed order and the first broken one is
    /// reported: empty, too short, too long, no number, no lowercase letter,
    /// no uppercase letter, no ASCII punctuation symbol.
    pub fn try_from(raw: String) -> (r: Result<PlaintextPassword, PasswordError>)
        ensures
            match password_violation(raw@) {
                Some(e) => r == Err::<PlaintextPassword, PasswordError>(e),
                None => r matches Ok(p) && p@ == raw@,
            },
    {
        if raw.as_str().is_empty() {
            return Err(PasswordError::Empty);
        }
        let chars = chars_vec(raw.as_str());
        let len = chars.len();
        if len < MIN_PASSWORD_LENGTH {
            return Err(PasswordError::TooShort(MIN_PASSWORD_LENGTH));
        }
        if len > MAX_PASSWORD_LENGTH {
            return Err(PasswordError::TooLong(MAX_PASSWORD_LENGTH));
        }
        let classes = scan_char_classes(&chars);
        if !classes.number {
            return Err(PasswordError::MissingNumber);
        }
        if !classes.lower {
            return Err(PasswordError::MissingLowercase);
        }
        if !classes.upper {
            return Err(PasswordError::MissingUppercase);
        }
        if !classes.symbol {
            return Err(PasswordError::MissingSymbol);
        }
        Ok(PlaintextPassword(raw))
    }

    /// Parses a password from a string slice (`FromStr`).
    pub fn from_str(s: &str) -> (r: Result<PlaintextPassword, PasswordError>)
        ensures
            match password_violation(s@) {
                Some(e) => r == Err::<PlaintextPassword, PasswordError>(e),
                None => r matches Ok(p) && p@ == s@,
            },
    {
        PlaintextPassword::try_from(s.to_owned())
    }

    /// The validated plaintext, which satisfies the policy.
    pub fn as_str(&self) -> (s: &str)
        ensures
            s@ == self@,
            password_violation(s@) is None,
    {
        proof {
            use_type_invariant(self);
        }
        self.0.as_str()
    }

    /// Consumes the wrapper and gives back the string, which satisfies the policy.
    pub fn into_inner(self) -> (s: String)
        ensures
            s@ == self@,
            password_violation(s@) is None,
    {
        proof {
            use_type_invariant(&self);
        }
        self.0
    }

    /// Masked rendering for logs: the password never appears.
    pub fn debug_text(&self) -> (s: &'static str)
        ensures
            s@ == "PlaintextPassword(***REDACTED***)"@,
    {
        "PlaintextPassword(***REDACTED***)"
    }
}

/// A securely hashed password ready for storage.
#[derive(Clone, PartialEq, Eq)]
pub struct PasswordHash(String);

impl View for PasswordHash {
    type V = Seq<char>;

    closed spec fn view(&self) -> Seq<char> {
        self.0@
    }
}

impl PasswordHash {
    /// Wraps an encoded hash produced by a password hasher.
    pub fn new(hash: String) -> (h: PasswordHash)
        ensures
            h@ == hash@,
    {
        PasswordHash(hash)
    }

    /// The encoded hash.
    pub fn as_str(&self) -> (s: &str)
        ensures
            s@ == self@,
    {
        self.0.as_str()
    }

    /// Masked rendering for logs: the hash never appears.
    pub fn debug_text(&self) -> (s: &'static str)
        ensures
            s@ == "PasswordHash(***REDACTED***)"@,
    {
        "PasswordHash(***REDACTED***)"
    }
}

impl std::str::FromStr for PlaintextPassword {
    type Err = PasswordError;

    fn from_str(s: &str) -> (r: Result<PlaintextPassword, PasswordError>)
        ensures
            match password_violation(s@) {
                Some(e) => r == Err::<PlaintextPassword, PasswordError>(e),
                None => r matches Ok(p) && p@ == s@,
            },
    {
        PlaintextPassword::from_str(s)
    }
}

} // verus!
