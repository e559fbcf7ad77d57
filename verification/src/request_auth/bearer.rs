//! The bearer scheme of the `Authorization` header.
//!
//! A request without the header carries no bearer credentials. A present
//! header must be visible ASCII and consist of exactly two
//! whitespace-separated parts: the scheme `Bearer` (in any letter case)
//! and the token. The token is then verified as a JWT at the edge, and the
//! JWT subject must be the text of a UUID.

use vstd::prelude::*;

use crate::authn::AuthenticatedIdentity;
use crate::error::AppError;
use crate::identity::user_id::UserId;
use crate::text::{ascii_lower_char, chars_vec, push_char, push_str, seq_starts_with, split_words, words};
use crate::uuid_text::{uuid_error_message, uuid_parse, uuid_parse_str, uuid_text};

verus! {

/// A byte that `HeaderValue::to_str` accepts: visible ASCII or a tab.
pub open spec fn header_byte_ok(b: u8) -> bool {
    (32 <= b && b < 127) || b == 9
}

/// The text of header bytes that are all acceptable.
pub open spec fn header_text_of(bytes: Seq<u8>) -> Option<Seq<char>> {
    if forall|i: int| 0 <= i < bytes.len() ==> header_byte_ok(#[trigger] bytes[i]) {
        Some(bytes.map_values(|b: u8| b as char))
    } else {
        None
    }
}

/// The header value as text, when every byte is visible ASCII or a tab
/// (what `HeaderValue::to_str` accepts).
pub fn header_text(bytes: &[u8]) -> (r: Option<String>)
    ensures
        match header_text_of(bytes@) {
            Some(t) => r matches Some(s) && s@ == t,
            None => r is None,
        },
{
    let mut s = String::new();
    let mut i: usize = 0;
    while i < bytes.len()
        invariant
            i <= bytes.len(),
            forall|k: int| 0 <= k < i ==> header_byte_ok(#[trigger] bytes@[k]),
            s@ == bytes@.take(i as int).map_values(|b: u8| b as char),
        decreases bytes.len() - i,
    {
        let b = bytes[i];
        if !((32 <= b && b < 127) || b == 9) {
            return None;
        }
        push_char(&mut s, b as char);
        assert(bytes@.take(i + 1).map_values(|b: u8| b as char) =~= bytes@.take(i as int).map_values(
            |b: u8| b as char,
        ).push(b as char));
        i = i + 1;
    }
    assert(bytes@.take(bytes.len() as int) =~= bytes@);
    Some(s)
}

/// ASCII case-insensitive equality (`str::eq_ignore_ascii_case`).
pub open spec fn eq_ignore_ascii_case(a: Seq<char>, b: Seq<char>) -> bool {
    a.len() == b.len() && forall|i: int| 0 <= i < a.len() ==> ascii_lower_char(#[trigger] a[i])
        == ascii_lower_char(b[i])
}

/// ASCII lowercase of one character.
fn ascii_lower(c: char) -> (r: char)
    ensures
        r == ascii_lower_char(c),
{
    if 'A' <= c && c <= 'Z' {
        ((c as u8) + 32u8) as char
    } else {
        c
    }
}

/// Compares two texts ignoring ASCII letter case.
pub fn equal_ignoring_ascii_case(a: &str, b: &str) -> (r: bool)
    ensures
        r == eq_ignore_ascii_case(a@, b@),
{
    let x = chars_vec(a);
    let y = chars_vec(b);
    if x.len() != y.len() {
        return false;
    }
    let mut i: usize = 0;
    while i < x.len()
        invariant
            x@ == a@,
            y@ == b@,
            x.len() == y.len(),
            i <= x.len(),
            forall|k: int| 0 <= k < i ==> ascii_lower_char(#[trigger] x@[k]) == ascii_lower_char(y@[k]),
        decreases x.len() - i,
    {
        if ascii_lower(x[i]) != ascii_lower(y[i]) {
            return false;
        }
        i = i + 1;
    }
    true
}

/// What the `Authorization` header yields: no header gives `Ok(None)`; a
/// well-formed bearer header gives the token; anything else gives the
/// message of the authentication error.
pub open spec fn authorization_outcome(header: Option<Seq<u8>>) -> Result<Option<Seq<char>>, Seq<char>> {
    match header {
        None => Ok(None),
        Some(bytes) => match header_text_of(bytes) {
            None => Err("Authorization header is not valid ASCII"@),
            Some(text) => {
                let parts = words(text);
                if parts.len() == 0 {
                    Err("Authorization header is empty"@)
                } else if parts.len() == 1 {
                    Err("Bearer token is missing from Authorization header"@)
                } else if parts.len() > 2 {
                    Err("Authorization header must contain exactly two parts"@)
                } else if !eq_ignore_ascii_case(parts[0], "Bearer"@) {
                    Err("Unsupported authorization scheme: "@ + parts[0])
                } else {
                    Ok(Some(parts[1]))
                }
            },
        },
    }
}

/// Reads the bearer token from the `Authorization` header, if the request
/// has one. Errors are authentication errors.
pub fn parse_authorization_header(header: Option<&[u8]>) -> (r: Result<Option<String>, AppError>)
    ensures
        match authorization_outcome(
            match header {
                Some(h) => Some(h@),
                None => None,
            },
        ) {
            Ok(None) => r matches Ok(None),
            Ok(Some(t)) => r matches Ok(Some(s)) && s@ == t,
            Err(msg) => r matches Err(AppError::Authentication(m)) && m@ == msg,
        },
{
    let bytes = match header {
        None => {
            return Ok(None);
        },
        Some(b) => b,
    };
    let text = match header_text(bytes) {
        None => {
            return Err(AppError::Authentication("Authorization header is not valid ASCII".to_owned()));
        },
        Some(t) => t,
    };
    let parts = split_words(text.as_str());
    proof {
        assert(parts@.map_values(|p: String| p@).len() == parts@.len());
    }
    if parts.len() == 0 {
        return Err(AppError::Authentication("Authorization header is empty".to_owned()));
    }
    if parts.len() == 1 {
        return Err(
            AppError::Authentication("Bearer token is missing from Authorization header".to_owned()),
        );
    }
    if parts.len() > 2 {
        return Err(
            AppError::Authentication(
                "Authorization header must contain exactly two parts".to_owned(),
            ),
        );
    }
    proof {
        assert(parts@.map_values(|p: String| p@)[0] == parts@[0]@);
        assert(parts@.map_values(|p: String| p@)[1] == parts@[1]@);
    }
    if !equal_ignoring_ascii_case(parts[0].as_str(), "Bearer") {
        let mut msg = String::new();
        push_str(&mut msg, "Unsupported authorization scheme: ");
        push_str(&mut msg, parts[0].as_str());
        return Err(AppError::Authentication(msg));
    }
    Ok(Some(parts[1].clone()))
}

/// The identity named by a verified JWT's subject, which must be the text
/// of a UUID. A subject that is not is an authentication error whose
/// message starts with `JWT subject is not a valid UUID: `.
pub fn identity_from_subject(sub: &str) -> (r: Result<AuthenticatedIdentity, AppError>)
    ensures
        match uuid_parse(sub@) {
            Some(v) => r == Ok::<AuthenticatedIdentity, AppError>(
                AuthenticatedIdentity { user_id: UserId::from_uuid_spec(v) },
            ),
            None => r matches Err(AppError::Authentication(m)) && seq_starts_with(
                m@,
                "JWT subject is not a valid UUID: "@,
            ),
        },
        forall|u: UserId| sub@ == #[trigger] uuid_text(u@) ==> r == Ok::<AuthenticatedIdentity, AppError>(
            AuthenticatedIdentity { user_id: u },
        ),
{
    match uuid_parse_str(sub) {
        Ok(v) => {
            proof {
                assert forall|u: UserId| sub@ == #[trigger] uuid_text(u@) implies UserId::from_uuid_spec(v) == u by {
                    UserId::lemma_from_own_uuid(u);
                }
            }
            Ok(AuthenticatedIdentity::new(UserId::from_uuid(v)))
        },
        Err(e) => {
            let mut msg = String::new();
            push_str(&mut msg, "JWT subject is not a valid UUID: ");
            let detail = uuid_error_message(&e);
            let ghost prefix = msg@;
            push_str(&mut msg, detail.as_str());
            assert(msg@.subrange(0, prefix.len() as int) =~= prefix);
            Err(AppError::Authentication(msg))
        },
    }
}

} // verus!
