//! Text form of UUIDs (lowercase, hyphenated) and its parsing.

use vstd::arithmetic::power::pow;
use vstd::prelude::*;

verus! {

/// The lowercase hexadecimal digit for a value below 16.
pub open spec fn hex_digit_lower(d: int) -> char {
    if d < 10 {
        (('0' as int) + d) as char
    } else {
        (('a' as int) + (d - 10)) as char
    }
}

/// The `k`-th of the 32 hexadecimal digits of `v`, most significant first.
pub open spec fn hex_nibble(v: u128, k: int) -> int {
    (v as int / pow(16, (31 - k) as nat)) % 16
}

/// The 32 lowercase hexadecimal digits of `v`.
pub open spec fn hex32_lower(v: u128) -> Seq<char> {
    Seq::new(32, |k: int| hex_digit_lower(hex_nibble(v, k)))
}

/// The hyphenated lowercase text of a UUID with value `v`
/// (8-4-4-4-12 digits), as `Display` of `uuid::Uuid` writes it.
pub open spec fn uuid_text(v: u128) -> Seq<char> {
    let h = hex32_lower(v);
    h.subrange(0, 8) + "-"@ + h.subrange(8, 12) + "-"@ + h.subrange(12, 16) + "-"@ + h.subrange(
        16,
        20,
    ) + "-"@ + h.subrange(20, 32)
}

/// `uuid::Uuid::from_u128(v).to_string()`.
#[verifier::external_body]
pub(crate) fn uuid_to_string(v: u128) -> (s: String)
    ensures
        s@ == uuid_text(v),
{
    uuid::Uuid::from_u128(v).to_string()
}

#[verifier::external_type_specification]
#[verifier::external_body]
pub struct ExUuidError(uuid::Error);

/// The outcome of parsing a UUID: its 128-bit value or the crate's error.
pub type UuidParse = Result<u128, uuid::Error>;

/// What `uuid::Uuid::parse_str` returns for `s`, as a 128-bit value: the
/// crate accepts 32 hexadecimal digits, the hyphenated form, and its
/// braced and `urn:uuid:` variants, in either case.
pub uninterp spec fn uuid_parse(s: Seq<char>) -> Option<u128>;

/// `uuid::Uuid::parse_str`, giving the value of the parsed UUID. The
/// hyphenated lowercase text of a UUID parses back to the same UUID.
#[verifier::external_body]
pub(crate) fn uuid_parse_str(s: &str) -> (r: UuidParse)
    ensures
        r is Ok <==> uuid_parse(s@) is Some,
        r matches Ok(x) ==> uuid_parse(s@) == Some(x),
        r matches Ok(x) ==> forall|v: u128| s@ == #[trigger] uuid_text(v) ==> x == v,
        (exists|v: u128| s@ == #[trigger] uuid_text(v)) ==> r is Ok,
{
    match uuid::Uuid::parse_str(s) {
        Ok(u) => Ok(u.as_u128()),
        Err(e) => Err(e),
    }
}

/// The message of a UUID parse failure (`Display` of `uuid::Error`); its
/// wording belongs to the crate and is not promised.
#[verifier::external_body]
pub(crate) fn uuid_error_message(err: &uuid::Error) -> String {
    err.to_string()
}

} // verus!
