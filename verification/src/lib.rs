//! Verified core of an identity and authentication platform: value objects
//! with their validation rules, configuration parsing, token handling and
//! request authentication decisions.

pub mod authn;
pub mod config;
pub mod encoding;
pub mod error;
pub mod hashing;
pub mod identity;
pub mod numbers;
pub mod platform;
pub mod redis;
pub mod request_auth;
pub mod text;
pub mod tokens;
pub mod uuid_text;
pub mod time;

use vstd::prelude::*;

verus! {

} // verus!
