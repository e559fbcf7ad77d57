//! Password hashers: bcrypt and Argon2id.
//!
//! The cryptographic work runs in the outside crates; this module decides
//! how their failures map to domain errors. Hashing is CPU-bound: callers
//! on an async runtime run these functions on a blocking thread.

use argon2::password_hash::PasswordHasher as _;
use argon2::password_hash::PasswordVerifier as _;
use vstd::prelude::*;
use vstd::utf8::encode_utf8;

use crate::identity::error::IdentityError;
use crate::encoding::b64_std_nopad;
use crate::identity::password::{PasswordHash, PlaintextPassword};
use crate::text::{lemma_utf8_len_bound, seq_starts_with};

verus! {

// =========================================================================
// BCRYPT
// =========================================================================

#[verifier::external_type_specification]
#[verifier::external_body]
pub struct ExBcryptError(bcrypt::BcryptError);

/// What `bcrypt::non_truncating_verify` concludes for `password` (its
/// bytes) against `hash`: `Some(matches)`, or `None` when it fails
/// (malformed hash, or a password of 72 bytes or more).
pub uninterp spec fn bcrypt_verdict(password: Seq<u8>, hash: Seq<char>) -> Option<bool>;

/// The crate's default work factor, `bcrypt::DEFAULT_COST` (12).
#[verifier::external_body]
fn bcrypt_default_cost() -> (c: u32)
    ensures
        c == 12,
{
    bcrypt::DEFAULT_COST
}

/// `bcrypt::non_truncating_hash`, with a random salt. The crate rejects
/// costs outside 4..=31 and passwords of 72 bytes or more; a hash it
/// produces verifies the same password (same salt and cost are read back
/// from the hash).
#[verifier::external_body]
fn bcrypt_hash(password: &str, cost: u32) -> (r: Result<String, bcrypt::BcryptError>)
    ensures
        r is Ok ==> 4 <= cost <= 31,
        r is Ok ==> encode_utf8(password@).len() < 72,
        r matches Ok(h) ==> bcrypt_verdict(encode_utf8(password@), h@) == Some(true),
{
    bcrypt::non_truncating_hash(password, cost)
}

/// `bcrypt::non_truncating_verify`.
#[verifier::external_body]
fn bcrypt_verify(password: &str, hash: &str) -> (r: Result<bool, bcrypt::BcryptError>)
    ensures
        r matches Ok(b) ==> bcrypt_verdict(encode_utf8(password@), hash@) == Some(b),
        r is Err ==> bcrypt_verdict(encode_utf8(password@), hash@) is None,
{
    bcrypt::non_truncating_verify(password, hash)
}

/// A bcrypt password hasher with a fixed work factor.
#[derive(Clone, Debug)]
pub struct BcryptPasswordHasher {
    cost: u32,
}

impl BcryptPasswordHasher {
    /// The configured work factor.
    pub closed spec fn cost_spec(&self) -> u32 {
        self.cost
    }

    /// A hasher with the crate's default cost (12).
    pub fn new() -> (h: Self)
        ensures
            h.cost_spec() == 12,
    {
        BcryptPasswordHasher { cost: bcrypt_default_cost() }
    }

    /// A hasher with an explicit cost.
    pub fn with_cost(cost: u32) -> (h: Self)
        ensures
            h.cost_spec() == cost,
    {
        BcryptPasswordHasher { cost }
    }

    /// Hashes a validated password. Any failure of the hashing crate is
    /// reported as invalid credentials. A hash produced here verifies the
    /// same password.
    pub fn hash(&self, password: &PlaintextPassword) -> (r: Result<PasswordHash, IdentityError>)
        ensures
            r matches Err(e) ==> e == IdentityError::InvalidCredentials,
            !(4 <= self.cost_spec() <= 31) ==> r is Err,
            encode_utf8(password@).len() >= 72 ==> r is Err,
            r matches Ok(h) ==> bcrypt_verdict(encode_utf8(password@), h@) == Some(true),
    {
        match bcrypt_hash(password.as_str(), self.cost) {
            Ok(h) => Ok(PasswordHash::new(h)),
            Err(_) => Err(IdentityError::InvalidCredentials),
        }
    }

    /// Checks a password against a stored hash: `Ok(false)` on mismatch, an
    /// invalid-credentials error when the crate cannot decide.
    pub fn verify(&self, password: &PlaintextPassword, hash: &PasswordHash) -> (r: Result<bool, IdentityError>)
        ensures
            match bcrypt_verdict(encode_utf8(password@), hash@) {
                Some(b) => r == Ok::<bool, IdentityError>(b),
                None => r == Err::<bool, IdentityError>(IdentityError::InvalidCredentials),
            },
    {
        match bcrypt_verify(password.as_str(), hash.as_str()) {
            Ok(b) => Ok(b),
            Err(_) => Err(IdentityError::InvalidCredentials),
        }
    }
}

impl Default for BcryptPasswordHasher {
    fn default() -> (h: Self)
        ensures
            h.cost_spec() == 12,
    {
        BcryptPasswordHasher::new()
    }
}

// =========================================================================
// ARGON2
// =========================================================================

#[verifier::external_type_specification]
#[verifier::external_body]
pub struct ExPhcError(argon2::password_hash::Error);

/// Whether Argon2 (default parameters) accepts `password` against the stored
/// PHC string `phc`: the string parses and the password matches it. The
/// check reads the algorithm, parameters and salt from the string itself,
/// so the answer depends on these two arguments alone.
pub uninterp spec fn argon2_accepts(password: Seq<u8>, phc: Seq<char>) -> bool;

/// Whether `password_hash::PasswordHash::new` parses `phc` as a PHC string.
pub uninterp spec fn phc_parses(phc: Seq<char>) -> bool;

/// The prefix of every PHC string that `Argon2::default()` renders: the
/// Argon2id algorithm, version 19 (0x13).
pub open spec fn argon2id_v19_prefix() -> Seq<char> {
    "$argon2id$v=19$"@
}

/// Whether `t` is the B64 text of 16 bytes, as a generated salt is.
pub open spec fn is_salt_text(t: Seq<char>) -> bool {
    exists|b: Seq<u8>| b.len() == 16 && t == #[trigger] b64_std_nopad(b)
}

/// A fresh salt, as its text: `SaltString::generate` with `OsRng` draws 16
/// bytes from the operating system's random source and encodes them in the
/// PHC "B64" encoding (standard alphabet, no padding). The bytes depend on
/// chance; the crate panics if the source fails.
#[verifier::external_body]
fn argon2_new_salt() -> (salt: String)
    ensures
        is_salt_text(salt@),
{
    argon2::password_hash::SaltString::generate(&mut argon2::password_hash::rand_core::OsRng).as_str().to_owned()
}

/// `Argon2::default().hash_password` with the salt given as its B64 text
/// (`Salt::from_b64`), rendered in PHC string format. The rendered string
/// starts with the Argon2id version-19 prefix and verifies the same
/// password (it carries the salt and parameters that verification reads
/// back). The crate fails only on a password longer than `0xFFFF_FFFF`
/// bytes or on a salt text it cannot decode or finds too short, so the B64
/// text of 16 bytes with such a password always hashes. Which hash comes
/// out depends on the salt and is not stated.
#[verifier::external_body]
fn argon2_hash_password(password: &[u8], salt: &str) -> (r: Result<String, argon2::password_hash::Error>)
    ensures
        r matches Ok(h) ==> argon2_accepts(password@, h@) && seq_starts_with(h@, argon2id_v19_prefix()),
        r is Err ==> password@.len() > 0xFFFF_FFFF || !is_salt_text(salt@),
{
    match argon2::password_hash::Salt::from_b64(salt) {
        Ok(s) => match argon2::Argon2::default().hash_password(password, s) {
            Ok(h) => Ok(h.to_string()),
            Err(e) => Err(e),
        },
        Err(e) => Err(e),
    }
}

/// `Argon2::default().verify_password` on the stored string parsed by
/// `password_hash::PasswordHash::new`. The parsed value borrows the string
/// and never leaves this function, so the parse and the check are made
/// here together; either failing gives `Err`, and a string that does not
/// parse is never accepted.
#[verifier::external_body]
fn argon2_verify_password(password: &[u8], phc: &str) -> (r: Result<(), argon2::password_hash::Error>)
    ensures
        r is Ok <==> argon2_accepts(password@, phc@),
        r is Ok ==> phc_parses(phc@),
{
    match argon2::password_hash::PasswordHash::new(phc) {
        Ok(h) => argon2::Argon2::default().verify_password(password, &h),
        Err(e) => Err(e),
    }
}

/// Argon2id password hashing with the crate's default parameters.
#[derive(Clone, Default)]
pub struct Argon2Provider;

impl Argon2Provider {
    pub fn new() -> Self {
        Argon2Provider
    }

    /// Hashes a validated password with a fresh random salt. Hashing always
    /// succeeds (a policy-conforming password is at most 128 characters):
    /// the result is an Argon2id version-19 PHC string that verifies the same
    /// password.
    pub fn hash(&self, password: &PlaintextPassword) -> (r: Result<PasswordHash, IdentityError>)
        ensures
            r matches Ok(h) && argon2_accepts(encode_utf8(password@), h@) && seq_starts_with(
                h@,
                argon2id_v19_prefix(),
            ),
    {
        let salt = argon2_new_salt();
        let text = password.as_str();
        proof {
            lemma_utf8_len_bound(text@);
        }
        match argon2_hash_password(text.as_bytes(), salt.as_str()) {
            Ok(h) => Ok(PasswordHash::new(h)),
            Err(_) => Err(IdentityError::InvalidCredentials),
        }
    }

    /// Checks a password against a stored hash. A mismatch is `Ok(false)`,
    /// not an error; so is a stored hash that is not a valid PHC string.
    pub fn verify(&self, password: &PlaintextPassword, hash: &PasswordHash) -> (r: Result<bool, IdentityError>)
        ensures
            r == Ok::<bool, IdentityError>(argon2_accepts(encode_utf8(password@), hash@)),
            !phc_parses(hash@) ==> r == Ok::<bool, IdentityError>(false),
    {
        let verdict = argon2_verify_password(password.as_str().as_bytes(), hash.as_str());
        Ok(verdict.is_ok())
    }
}

} // verus!
