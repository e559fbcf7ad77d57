//! The Redis connection settings and the session entry's lifetime.
//!
//! Connecting and sending commands happen at the edge; this module decides
//! how the configured URL is read and how long a stored session lives.

use vstd::prelude::*;

use crate::error::AppError;
use crate::text::{push_str, seq_starts_with};

verus! {

#[verifier::external_type_specification]
#[verifier::external_body]
pub struct ExFredConfig(fred::types::config::Config);

#[verifier::external_type_specification]
#[verifier::external_body]
pub struct ExFredError(fred::error::Error);

/// Whether `fred::types::config::Config::from_url` accepts `url`: a URL in
/// one of the crate's Redis or Valkey schemes (centralized, cluster,
/// sentinel or unix-socket form) with the parts that form requires. The
/// parse reads the URL alone.
pub uninterp spec fn fred_url_accepted(url: Seq<char>) -> bool;

/// `fred::types::config::Config::from_url`.
#[verifier::external_body]
fn fred_config_from_url(url: &str) -> (r: Result<fred::types::config::Config, fred::error::Error>)
    ensures
        r is Ok <==> fred_url_accepted(url@),
{
    fred::types::config::Config::from_url(url)
}

/// The display text of a Fred error (`kind: details`).
#[verifier::external_body]
fn fred_error_text(e: &fred::error::Error) -> String {
    format!("{}", e)
}

/// The client configuration for the Redis URL. A URL that Fred does not
/// accept is an infrastructure error whose message starts with
/// `Invalid Redis URL: `.
pub fn parse_redis_url(url: &str) -> (r: Result<fred::types::config::Config, AppError>)
    ensures
        r is Ok <==> fred_url_accepted(url@),
        r is Err ==> (r matches Err(AppError::Infrastructure(m)) && seq_starts_with(
            m@,
            "Invalid Redis URL: "@,
        )),
{
    match fred_config_from_url(url) {
        Ok(c) => Ok(c),
        Err(e) => {
            let mut msg = String::new();
            push_str(&mut msg, "Invalid Redis URL: ");
            let ghost prefix = msg@;
            let detail = fred_error_text(&e);
            push_str(&mut msg, detail.as_str());
            assert(msg@.subrange(0, prefix.len() as int) =~= prefix);
            Err(AppError::Infrastructure(msg))
        },
    }
}

/// The `EX` expiry, in seconds, given to Redis for a session that lives
/// `ttl_secs` seconds: the same bits read as a signed number (so a
/// lifetime beyond `i64::MAX` wraps, as the conversion does).
pub fn session_expiry_seconds(ttl_secs: u64) -> (r: i64)
    ensures
        r == ttl_secs as i64,
        ttl_secs <= i64::MAX ==> r == ttl_secs,
{
    ttl_secs as i64
}

} // verus!
