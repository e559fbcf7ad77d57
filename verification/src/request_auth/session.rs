//! Session cookies.

use vstd::prelude::*;

use crate::request_auth::bearer::{header_text, header_text_of};
use crate::text::{
    chars_equal, chars_vec, find_char, first_index_of, split_on, split_string, str_trim,
    string_from_range, trim_ws,
};

verus! {

/// The value of the first cookie called `name` among `;`-separated pairs
/// (each trimmed, split at its first `=`), if any.
pub open spec fn cookie_among(pairs: Seq<Seq<char>>, name: Seq<char>) -> Option<Seq<char>>
    decreases pairs.len(),
{
    if pairs.len() == 0 {
        None
    } else {
        let pair = trim_ws(pairs[0]);
        match first_index_of(pair, '=') {
            Some(k) => if pair.take(k) == name {
                Some(pair.skip(k + 1))
            } else {
                cookie_among(pairs.drop_first(), name)
            },
            None => cookie_among(pairs.drop_first(), name),
        }
    }
}

/// The value of the cookie `name` in a `Cookie` header.
pub open spec fn cookie_value(header: Seq<char>, name: Seq<char>) -> Option<Seq<char>> {
    cookie_among(split_on(header, ';'), name)
}

/// Extracts a named cookie's value from a raw `Cookie` header.
pub fn extract_cookie(header: &str, cookie_name: &str) -> (r: Option<String>)
    ensures
        match cookie_value(header@, cookie_name@) {
            Some(v) => r matches Some(s) && s@ == v,
            None => r is None,
        },
{
    let pairs = split_string(header, ';');
    let ghost views = pairs@.map_values(|p: String| p@);
    let name = chars_vec(cookie_name);
    let mut i: usize = 0;
    assert(views.skip(0) =~= views);
    while i < pairs.len()
        invariant
            i <= pairs.len(),
            views == pairs@.map_values(|p: String| p@),
            views == split_on(header@, ';'),
            name@ == cookie_name@,
            cookie_value(header@, cookie_name@) == cookie_among(views.skip(i as int), cookie_name@),
        decreases pairs.len() - i,
    {
        let trimmed = str_trim(pairs[i].as_str());
        let t = chars_vec(trimmed);
        assert(views.skip(i as int)[0] == pairs@[i as int]@);
        assert(views.skip(i as int).drop_first() =~= views.skip(i + 1));
        match find_char(&t, '=') {
            Some(k) => {
                let key = string_from_range(&t, 0, k);
                let key_chars = chars_vec(key.as_str());
                assert(key_chars@ =~= t@.take(k as int));
                if chars_equal(&key_chars, &name) {
                    let value = string_from_range(&t, k + 1, t.len());
                    assert(value@ =~= t@.skip(k + 1));
                    return Some(value);
                }
            },
            None => {},
        }
        i = i + 1;
    }
    None
}

/// The session id carried by the `Cookie` header, if the header is present,
/// is valid visible ASCII, and holds the cookie `cookie_name`.
pub fn session_id_from_cookie_header(header: Option<&[u8]>, cookie_name: &str) -> (r: Option<String>)
    ensures
        match header {
            None => r is None,
            Some(h) => match header_text_of(h@) {
                None => r is None,
                Some(text) => match cookie_value(text, cookie_name@) {
                    Some(v) => r matches Some(s) && s@ == v,
                    None => r is None,
                },
            },
        },
{
    match header {
        None => None,
        Some(bytes) => match header_text(bytes) {
            None => None,
            Some(text) => extract_cookie(text.as_str(), cookie_name),
        },
    }
}

} // verus!
