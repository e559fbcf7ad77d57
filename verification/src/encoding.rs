//! Byte encodings and digests used for opaque tokens.

use base64::Engine;
use rand_core::RngCore;
use sha2::Digest;
use vstd::prelude::*;

verus! {

/// The character for a 6-bit value in a Base64 alphabet: `A-Z`, `a-z`,
/// `0-9`, then `c62` and `c63`.
pub open spec fn b64_char(v: int, c62: char, c63: char) -> char {
    if v < 26 {
        (('A' as int) + v) as char
    } else if v < 52 {
        (('a' as int) + (v - 26)) as char
    } else if v < 62 {
        (('0' as int) + (v - 52)) as char
    } else if v == 62 {
        c62
    } else {
        c63
    }
}

/// Base64 without padding in the alphabet ending in `c62`, `c63`: each group
/// of three bytes becomes four characters; a final group of two bytes
/// becomes three characters and a final single byte two characters.
pub open spec fn b64_nopad(b: Seq<u8>, c62: char, c63: char) -> Seq<char>
    decreases b.len(),
{
    if b.len() == 0 {
        Seq::empty()
    } else if b.len() == 1 {
        seq![b64_char(b[0] as int / 4, c62, c63), b64_char((b[0] as int % 4) * 16, c62, c63)]
    } else if b.len() == 2 {
        seq![
            b64_char(b[0] as int / 4, c62, c63),
            b64_char((b[0] as int % 4) * 16 + b[1] as int / 16, c62, c63),
            b64_char((b[1] as int % 16) * 4, c62, c63),
        ]
    } else {
        seq![
            b64_char(b[0] as int / 4, c62, c63),
            b64_char((b[0] as int % 4) * 16 + b[1] as int / 16, c62, c63),
            b64_char((b[1] as int % 16) * 4 + b[2] as int / 64, c62, c63),
            b64_char(b[2] as int % 64, c62, c63),
        ] + b64_nopad(b.skip(3), c62, c63)
    }
}

/// URL-safe Base64 without padding (`-` and `_` as the last two characters).
pub open spec fn b64url_nopad(b: Seq<u8>) -> Seq<char> {
    b64_nopad(b, '-', '_')
}

/// Standard-alphabet Base64 without padding (`+` and `/` as the last two
/// characters), the "B64" encoding of the PHC string format.
pub open spec fn b64_std_nopad(b: Seq<u8>) -> Seq<char> {
    b64_nopad(b, '+', '/')
}

/// `base64::engine::general_purpose::URL_SAFE_NO_PAD.encode`.
#[verifier::external_body]
pub(crate) fn base64_url_encode(bytes: &[u8]) -> (text: String)
    ensures
        text@ == b64url_nopad(bytes@),
{
    base64::engine::general_purpose::URL_SAFE_NO_PAD.encode(bytes)
}

/// The SHA-256 digest of `data`, as `sha2::Sha256::digest` computes it.
pub uninterp spec fn sha256(data: Seq<u8>) -> Seq<u8>;

/// `sha2::Sha256::digest`: a 32-byte digest.
#[verifier::external_body]
pub(crate) fn sha256_digest(data: &[u8]) -> (digest: Vec<u8>)
    ensures
        digest@ == sha256(data@),
        digest@.len() == 32,
{
    sha2::Sha256::digest(data).to_vec()
}

/// The BLAKE3 digest of `data`, as `blake3::hash` computes it.
pub uninterp spec fn blake3(data: Seq<u8>) -> Seq<u8>;

/// `blake3::hash`: a 32-byte digest.
#[verifier::external_body]
pub(crate) fn blake3_digest(data: &[u8]) -> (digest: Vec<u8>)
    ensures
        digest@ == blake3(data@),
        digest@.len() == 32,
{
    blake3::hash(data).as_bytes().to_vec()
}

/// Fills `buf` with bytes from the operating system's random source
/// (`rand::rngs::OsRng::fill_bytes`). The bytes depend on chance; only the
/// length is promised. The crate panics if the operating system cannot
/// supply randomness.
#[verifier::external_body]
pub(crate) fn os_fill_bytes(buf: &mut Vec<u8>)
    ensures
        final(buf)@.len() == old(buf)@.len(),
{
    rand::rngs::OsRng.fill_bytes(buf.as_mut_slice());
}

#[verifier::external_type_specification]
#[verifier::external_body]
pub struct ExRandError(rand_core::Error);

/// Fills `buf` from the operating system's random source, reporting a
/// failure of the source (`rand_core::OsRng::try_fill_bytes`). The bytes
/// depend on chance; only the length is promised.
#[verifier::external_body]
pub(crate) fn os_try_fill_bytes(buf: &mut Vec<u8>) -> (r: Result<(), rand_core::Error>)
    ensures
        final(buf)@.len() == old(buf)@.len(),
{
    rand_core::OsRng.try_fill_bytes(buf.as_mut_slice())
}

/// The message of a random-source failure (`Display` of `rand_core::Error`);
/// its text comes from the operating system and is not promised.
#[verifier::external_body]
pub(crate) fn rand_error_message(err: &rand_core::Error) -> String {
    err.to_string()
}

/// A vector of `n` zero bytes.
pub fn zero_bytes(n: usize) -> (v: Vec<u8>)
    ensures
        v@ == Seq::new(n as nat, |i: int| 0u8),
{
    let mut v: Vec<u8> = Vec::new();
    let mut i: usize = 0;
    while i < n
        invariant
            i <= n,
            v@ == Seq::new(i as nat, |k: int| 0u8),
        decreases n - i,
    {
        v.push(0u8);
        i = i + 1;
        assert(v@ =~= Seq::new(i as nat, |k: int| 0u8));
    }
    v
}

} // verus!
