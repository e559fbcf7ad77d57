//! Email address value object.
//!
//! An `Email` can only hold a trimmed, lowercased address that the
//! `email_address` crate accepts and whose domain is not blocked.

use vstd::prelude::*;

use crate::error::{ErrorCode, ErrorContext};
use crate::text::{
    all_ascii, is_ascii_lowercase_text, is_trimmed, lemma_ascii_lowering, lemma_trim_ws_is_trimmed,
    byte_len, char_len_utf8, chars_vec, find_char, first_index_of, push_str, seq_ends_with,
    str_ends_with, str_to_lowercase, str_trim, string_from_range, trim_ws, unicode_lowercase,
    utf8_width,
};

verus! {

/// What `email_address::EmailAddress::is_valid` returns for `s`: whether
/// the crate's RFC 5322 parser (default options) accepts `s`.
pub uninterp spec fn email_address_valid(s: Seq<char>) -> bool;

/// `email_address::EmailAddress::is_valid`. The parser splits the address
/// at its last `@` and fails when there is none, so an accepted address
/// contains `@`.
#[verifier::external_body]
fn email_is_valid(s: &str) -> (r: bool)
    ensures
        r == email_address_valid(s@),
        r ==> s@.contains('@'),
{
    email_address::EmailAddress::is_valid(s)
}

/// The ways an email address can be rejected.
#[derive(Debug, Clone, Copy, PartialEq, Eq, Structural)]
pub enum EmailError {
    InvalidFormat,
    BlockedDomain,
}

impl ErrorCode for EmailError {
    open spec fn code_of(&self) -> Seq<char> {
        match *self {
            EmailError::InvalidFormat => "IDENTITY_EMAIL_INVALID_FORMAT"@,
            EmailError::BlockedDomain => "IDENTITY_EMAIL_BLOCKED_DOMAIN"@,
        }
    }

    open spec fn context_of(&self) -> Option<ErrorContext> {
        None
    }

    /// Maps validation failures to localized frontend slugs.
    fn error_code(&self) -> (code: &'static str) {
        match self {
            EmailError::InvalidFormat => "IDENTITY_EMAIL_INVALID_FORMAT",
            EmailError::BlockedDomain => "IDENTITY_EMAIL_BLOCKED_DOMAIN",
        }
    }

    fn context(&self) -> (ctx: Option<ErrorContext>) {
        None
    }
}

/// The human-readable message of each email error.
pub open spec fn email_error_message(e: EmailError) -> Seq<char> {
    match e {
        EmailError::InvalidFormat => "The email format is invalid."@,
        EmailError::BlockedDomain => "The email belongs to a blocked or disposable domain."@,
    }
}

impl EmailError {
    /// The message shown for the error (its display text).
    pub fn message(&self) -> (s: String)
        ensures
            s@ == email_error_message(*self),
    {
        match self {
            EmailError::InvalidFormat => "The email format is invalid.".to_owned(),
            EmailError::BlockedDomain => "The email belongs to a blocked or disposable domain.".to_owned(),
        }
    }
}

/// Addresses ending in this suffix belong to a blocked disposable domain.
pub open spec fn blocked_email_suffix() -> Seq<char> {
    "@tempmail.com"@
}

/// The normal form of raw input: trimmed, then lowercased.
pub open spec fn normalized_email(raw: Seq<char>) -> Seq<char> {
    unicode_lowercase(trim_ws(raw))
}

/// The outcome of validating raw input: the normalized address, or the
/// reason it is rejected. Format is checked before the domain block list.
pub open spec fn email_outcome(raw: Seq<char>) -> Result<Seq<char>, EmailError> {
    let s = normalized_email(raw);
    if !email_address_valid(s) {
        Err(EmailError::InvalidFormat)
    } else if seq_ends_with(s, blocked_email_suffix()) {
        Err(EmailError::BlockedDomain)
    } else {
        Ok(s)
    }
}

/// A validated email address.
#[derive(PartialEq, Eq, Hash)]
pub struct Email(String);

impl Clone for Email {
    fn clone(&self) -> (r: Email)
        ensures
            r@ == self@,
    {
        proof {
            use_type_invariant(self);
        }
        Email(self.0.clone())
    }
}

impl View for Email {
    type V = Seq<char>;

    closed spec fn view(&self) -> Seq<char> {
        self.0@
    }
}

/// The local part (before the first `@`) of an address that contains `@`.
pub open spec fn local_part(s: Seq<char>) -> Seq<char> {
    s.take(first_index_of(s, '@')->0)
}

/// The domain (after the first `@`) of an address that contains `@`.
pub open spec fn domain_part(s: Seq<char>) -> Seq<char> {
    s.skip(first_index_of(s, '@')->0 + 1)
}

/// The first two bytes of `local`, as characters, when they form whole characters.
pub open spec fn leading_two_bytes(local: Seq<char>) -> Seq<char> {
    if utf8_width(local[0]) == 2 {
        local.take(1)
    } else {
        local.take(2)
    }
}

/// Masking can cut the local part after two bytes only when those bytes
/// end on a character boundary (otherwise slicing would panic).
pub open spec fn debug_mask_defined(s: Seq<char>) -> bool {
    let local = local_part(s);
    byte_len(local) > 2 ==> (utf8_width(local[0]) == 2 || (utf8_width(local[0]) == 1
        && local.len() >= 2 && utf8_width(local[1]) == 1))
}

/// The masked rendering used in logs: at most the first two bytes of the
/// local part, then `***@` and the domain.
pub open spec fn masked_email(s: Seq<char>) -> Seq<char> {
    let local = local_part(s);
    let shown = if byte_len(local) > 2 {
        leading_two_bytes(local)
    } else {
        Seq::empty()
    };
    "EmailAddress("@ + shown + "***@"@ + domain_part(s) + ")"@
}

/// Whether `s` is the lowercase form (`str::to_lowercase`) of some text
/// without surrounding whitespace, as a normalized address is.
pub open spec fn lowercase_of_trimmed(s: Seq<char>) -> bool {
    exists|t: Seq<char>| is_trimmed(t) && s == #[trigger] unicode_lowercase(t)
}

impl Email {
    /// What every constructed `Email` satisfies: it is the lowercase form of
    /// a text without surrounding whitespace, the parser accepts it, it holds
    /// an `@`, and its domain is not blocked.
    pub open spec fn valid(s: Seq<char>) -> bool {
        &&& lowercase_of_trimmed(s)
        &&& email_address_valid(s)
        &&& s.contains('@')
        &&& !seq_ends_with(s, blocked_email_suffix())
    }

    /// Every email address is valid.
    #[verifier::type_invariant]
    spec fn is_valid(self) -> bool {
        Email::valid(self.0@)
    }

    /// Builds an `Email` from raw input (`TryFrom<String>`): trims
    /// whitespace, lowercases, and validates the format and the domain.
    pub fn try_from(raw: String) -> (r: Result<Email, EmailError>)
        ensures
            match email_outcome(raw@) {
                Ok(s) => r matches Ok(e) && e@ == s,
                Err(err) => r == Err::<Email, EmailError>(err),
            },
            r matches Ok(e) ==> Email::valid(e@),
            all_ascii(trim_ws(raw@)) ==> (r matches Ok(e) ==> is_trimmed(e@)
                && is_ascii_lowercase_text(e@)),
    {
        let trimmed = str_trim(raw.as_str());
        let sanitized = str_to_lowercase(trimmed);
        proof {
            lemma_trim_ws_is_trimmed(raw@);
            assert(is_trimmed(trimmed@) && sanitized@ == unicode_lowercase(trimmed@));
            if all_ascii(trimmed@) {
                lemma_ascii_lowering(trimmed@);
            }
        }
        if email_is_valid(sanitized.as_str()) {
            let blocked = str_ends_with(sanitized.as_str(), "@tempmail.com");
            if blocked {
                Err(EmailError::BlockedDomain)
            } else {
                Ok(Email(sanitized))
            }
        } else {
            Err(EmailError::InvalidFormat)
        }
    }

    /// Parses an `Email` from a string slice (`FromStr`).
    pub fn from_str(s: &str) -> (r: Result<Email, EmailError>)
        ensures
            match email_outcome(s@) {
                Ok(v) => r matches Ok(e) && e@ == v,
                Err(err) => r == Err::<Email, EmailError>(err),
            },
            r matches Ok(e) ==> Email::valid(e@),
            all_ascii(trim_ws(s@)) ==> (r matches Ok(e) ==> is_trimmed(e@)
                && is_ascii_lowercase_text(e@)),
    {
        Email::try_from(s.to_owned())
    }

    /// The validated address.
    pub fn as_str(&self) -> (s: &str)
        ensures
            s@ == self@,
            Email::valid(s@),
    {
        proof {
            use_type_invariant(self);
        }
        self.0.as_str()
    }

    /// Log-safe rendering that masks the personal part of the address
    /// (what the `Debug` formatting prints).
    pub fn debug_text(&self) -> (text: String)
        requires
            debug_mask_defined(self@),
        ensures
            text@ == masked_email(self@),
    {
        proof {
            use_type_invariant(self);
        }
        let chars = chars_vec(self.0.as_str());
        let at = find_char(&chars, '@');
        let k = match at {
            Some(k) => k,
            None => {
                proof {
                    let w = choose|j: int| 0 <= j < self@.len() && self@[j] == '@';
                    assert(self@[w] == '@');
                    assert(chars@[w] != '@');
                }
                0
            },
        };
        let ghost s = self@;
        let local = string_from_range(&chars, 0, k);
        let domain = string_from_range(&chars, k + 1, chars.len());
        proof {
            assert(local@ =~= local_part(s));
            assert(domain@ =~= domain_part(s));
        }
        let mut text = String::new();
        push_str(&mut text, "EmailAddress(");
        if local.as_str().len() > 2 {
            let w = char_len_utf8(chars[0]);
            let cut = if w == 2 { 1 } else { 2 };
            let shown = string_from_range(&chars, 0, cut);
            proof {
                assert(shown@ =~= leading_two_bytes(local_part(s)));
            }
            push_str(&mut text, shown.as_str());
        } else {
            proof {
                assert(text@ + Seq::<char>::empty() =~= text@);
            }
        }
        push_str(&mut text, "***@");
        push_str(&mut text, domain.as_str());
        push_str(&mut text, ")");
        text
    }
}

impl std::str::FromStr for Email {
    type Err = EmailError;

    fn from_str(s: &str) -> (r: Result<Email, EmailError>)
        ensures
            match email_outcome(s@) {
                Ok(v) => r matches Ok(e) && e@ == v,
                Err(err) => r == Err::<Email, EmailError>(err),
            },
    {
        Email::from_str(s)
    }
}

} // verus!
