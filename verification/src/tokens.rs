//! Opaque tokens: issuing random tokens and hashing tokens for storage.
//!
//! A token is stored only as the URL-safe, unpadded Base64 text of a digest
//! of its UTF-8 bytes.

use vstd::prelude::*;

use crate::encoding::{
    b64url_nopad, base64_url_encode, blake3, blake3_digest, os_fill_bytes, os_try_fill_bytes,
    rand_error_message, sha256, sha256_digest, zero_bytes,
};
use crate::error::AppError;
use vstd::utf8::encode_utf8;

verus! {

/// The stored form of a token under SHA-256.
pub open spec fn sha256_token_hash(token: Seq<char>) -> Seq<char> {
    b64url_nopad(sha256(encode_utf8(token)))
}

/// The stored form of a token under BLAKE3.
pub open spec fn blake3_token_hash(token: Seq<char>) -> Seq<char> {
    b64url_nopad(blake3(encode_utf8(token)))
}

/// Whether `t` is the encoding of some `n` bytes (a freshly issued token).
pub open spec fn encodes_bytes_of_len(t: Seq<char>, n: nat) -> bool {
    exists|b: Seq<u8>| b.len() == n && t == b64url_nopad(b)
}

/// SHA-256 digest of the token's UTF-8 bytes, Base64-encoded.
fn sha256_hash_text(token: &str) -> (h: String)
    ensures
        h@ == sha256_token_hash(token@),
{
    let digest = sha256_digest(token.as_bytes());
    base64_url_encode(digest.as_slice())
}

/// `n` random bytes, Base64-encoded.
fn random_token_text(n: usize) -> (t: String)
    ensures
        encodes_bytes_of_len(t@, n as nat),
{
    let mut bytes = zero_bytes(n);
    os_fill_bytes(&mut bytes);
    let t = base64_url_encode(bytes.as_slice());
    assert(bytes@.len() == n && t@ == b64url_nopad(bytes@));
    t
}

/// Hashes opaque tokens with SHA-256.
#[derive(Clone, Default, Debug)]
pub struct Sha256OpaqueTokenHasher;

impl Sha256OpaqueTokenHasher {
    pub fn new() -> Self {
        Sha256OpaqueTokenHasher
    }

    /// The storable hash of `token`.
    pub fn hash_token(&self, token: &str) -> (r: Result<String, AppError>)
        ensures
            r matches Ok(h) && h@ == sha256_token_hash(token@),
    {
        Ok(sha256_hash_text(token))
    }
}

/// Hashes opaque tokens with BLAKE3.
#[derive(Clone, Default, Debug)]
pub struct Blake3OpaqueTokenHasher;

impl Blake3OpaqueTokenHasher {
    pub fn new() -> Self {
        Blake3OpaqueTokenHasher
    }

    /// The storable hash of `token`.
    pub fn hash_token(&self, token: &str) -> (r: Result<String, AppError>)
        ensures
            r matches Ok(h) && h@ == blake3_token_hash(token@),
    {
        let digest = blake3_digest(token.as_bytes());
        Ok(base64_url_encode(digest.as_slice()))
    }
}

/// Issues high-entropy opaque tokens from operating-system randomness.
#[derive(Clone, Debug)]
pub struct RandomOpaqueTokenIssuer {
    byte_length: usize,
}

impl RandomOpaqueTokenIssuer {
    /// Tokens are never empty.
    pub open spec fn wf(&self) -> bool {
        self.len_spec() > 0
    }

    /// The configured token length in bytes.
    pub closed spec fn len_spec(&self) -> usize {
        self.byte_length
    }

    /// An issuer of 32-byte tokens.
    pub fn new() -> (r: Self)
        ensures
            r.len_spec() == 32,
            r.wf(),
    {
        RandomOpaqueTokenIssuer { byte_length: 32 }
    }

    /// An issuer of tokens of `byte_length` bytes, which must not be zero.
    pub fn with_byte_length(byte_length: usize) -> (r: Self)
        requires
            byte_length > 0,
        ensures
            r.len_spec() == byte_length,
            r.wf(),
    {
        RandomOpaqueTokenIssuer { byte_length }
    }

    /// The configured token length in bytes.
    pub fn byte_length(&self) -> (n: usize)
        ensures
            n == self.len_spec(),
    {
        self.byte_length
    }

    /// A fresh token: `byte_length` random bytes, Base64-encoded.
    pub fn issue_token(&self) -> (r: Result<String, AppError>)
        ensures
            r matches Ok(t) && encodes_bytes_of_len(t@, self.len_spec() as nat),
    {
        Ok(random_token_text(self.byte_length))
    }
}

impl Default for RandomOpaqueTokenIssuer {
    fn default() -> (r: Self)
        ensures
            r.len_spec() == 32,
    {
        RandomOpaqueTokenIssuer::new()
    }
}

/// Generates opaque refresh tokens and hashes them for storage.
#[derive(Clone, Default)]
pub struct DefaultRefreshTokenService;

impl DefaultRefreshTokenService {
    pub fn new() -> Self {
        DefaultRefreshTokenService
    }

    /// A fresh token: 32 random bytes, Base64-encoded.
    pub fn generate_token(&self) -> (r: Result<String, AppError>)
        ensures
            r matches Ok(t) && encodes_bytes_of_len(t@, 32),
    {
        Ok(random_token_text(32))
    }

    /// The storable hash of `token` (SHA-256).
    pub fn hash_token(&self, token: &str) -> (r: Result<String, AppError>)
        ensures
            r matches Ok(h) && h@ == sha256_token_hash(token@),
    {
        Ok(sha256_hash_text(token))
    }
}

/// The refresh token made of `bytes` once the random source was asked to
/// fill them: their Base64 text when the fill succeeded, otherwise an
/// infrastructure error carrying the source's message.
pub fn refresh_token_from(fill: Result<(), rand_core::Error>, bytes: &Vec<u8>) -> (r: Result<
    String,
    AppError,
>)
    ensures
        fill is Ok ==> (r matches Ok(t) && t@ == b64url_nopad(bytes@)),
        fill is Err ==> (r matches Err(AppError::Infrastructure(_))),
{
    match fill {
        Ok(()) => Ok(base64_url_encode(bytes.as_slice())),
        Err(err) => Err(AppError::Infrastructure(rand_error_message(&err))),
    }
}

/// Asks the random source to fill `bytes` and makes the token of exactly
/// the bytes it left there: their Base64 text, or an infrastructure error
/// when the source failed.
fn fill_and_encode(bytes: &mut Vec<u8>) -> (r: Result<String, AppError>)
    ensures
        final(bytes)@.len() == old(bytes)@.len(),
        r matches Ok(t) ==> t@ == b64url_nopad(final(bytes)@),
        r matches Err(e) ==> e is Infrastructure,
{
    let fill = os_try_fill_bytes(bytes);
    refresh_token_from(fill, bytes)
}

/// Issues opaque refresh tokens and hashes them (SHA-256) for storage.
#[derive(Clone, Default)]
pub struct Sha256RefreshTokenCodec;

impl Sha256RefreshTokenCodec {
    pub fn new() -> Self {
        Sha256RefreshTokenCodec
    }

    /// A fresh token of 32 random bytes, or an infrastructure error when
    /// the operating system cannot supply randomness (see
    /// `refresh_token_from`).
    pub fn issue_refresh_token(&self) -> (r: Result<String, AppError>)
        ensures
            r matches Ok(t) ==> encodes_bytes_of_len(t@, 32),
            r matches Err(e) ==> e is Infrastructure,
    {
        let mut bytes = zero_bytes(32);
        fill_and_encode(&mut bytes)
    }

    /// The storable hash of `token` (SHA-256).
    pub fn hash_refresh_token(&self, token: &str) -> (r: Result<String, AppError>)
        ensures
            r matches Ok(h) && h@ == sha256_token_hash(token@),
    {
        Ok(sha256_hash_text(token))
    }
}

} // verus!
