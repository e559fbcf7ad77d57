//! Access tokens: the claims a signed JWT carries.
//!
//! Signing and verifying (HS256) happen at the edge; this module decides
//! what the claims are and what a verified token's subject means.

use vstd::prelude::*;

use crate::authn::{AuthenticatedIdentity, AuthenticationOutcome};
use crate::config::JwtConfig;
use crate::error::AppError;
use crate::identity::user_id::{is_version4, uuid_new_v4, UserId};
use crate::request_auth::bearer::identity_from_subject;
use crate::text::seq_starts_with;
use crate::time::{chrono_max_secs, chrono_min_secs, utc_now, Timestamp};
use crate::uuid_text::{uuid_parse, uuid_text, uuid_to_string};

verus! {

/// The largest lifetime, in seconds, that `chrono::Duration::seconds` accepts.
pub open spec fn max_ttl_seconds() -> int {
    i64::MAX / 1000
}

/// The data embedded in an access token (RFC 7519 claims).
#[derive(Debug, Clone)]
pub struct Claims {
    /// Issuer.
    pub iss: String,
    /// Audience.
    pub aud: String,
    /// Subject: the user's UUID as text.
    pub sub: String,
    /// Issued at (Unix seconds).
    pub iat: i64,
    /// Expiration (Unix seconds).
    pub exp: i64,
    /// Token id.
    pub jti: String,
}

/// A signed access token and its lifetime in seconds.
#[derive(Debug, Clone)]
pub struct IssuedAccessToken {
    pub token: String,
    pub expires_in: i64,
}

/// Issues HS256 access tokens; the signing key lives with the signer.
#[derive(Debug, Clone)]
pub struct JwtAccessTokenIssuer {
    issuer: String,
    audience: String,
    access_ttl_seconds: i64,
}

impl JwtAccessTokenIssuer {
    pub closed spec fn issuer_view(&self) -> Seq<char> {
        self.issuer@
    }

    pub closed spec fn audience_view(&self) -> Seq<char> {
        self.audience@
    }

    pub closed spec fn ttl(&self) -> i64 {
        self.access_ttl_seconds
    }

    /// The issuer configured by `config`.
    pub fn new(config: &JwtConfig) -> (r: Self)
        ensures
            r.issuer_view() == config.issuer@,
            r.audience_view() == config.audience@,
            r.ttl() == config.access_ttl_seconds,
    {
        JwtAccessTokenIssuer {
            issuer: config.issuer.clone(),
            audience: config.audience.clone(),
            access_ttl_seconds: config.access_ttl_seconds,
        }
    }

    /// The claims of a new access token for `user_id` issued at the Unix
    /// time `now` (seconds): expiring after the configured lifetime, with a
    /// fresh random version-4 token id.
    pub fn claims_at(&self, user_id: &UserId, now: i64) -> (c: Claims)
        requires
            -max_ttl_seconds() <= self.ttl() <= max_ttl_seconds(),
            chrono_min_secs() <= now <= chrono_max_secs(),
        ensures
            c.iss@ == self.issuer_view(),
            c.aud@ == self.audience_view(),
            c.sub@ == uuid_text(user_id@),
            c.iat == now,
            c.exp == now + self.ttl(),
            exists|v: u128| is_version4(v) && c.jti@ == #[trigger] uuid_text(v),
    {
        Claims {
            iss: self.issuer.clone(),
            aud: self.audience.clone(),
            sub: uuid_to_string(user_id.as_uuid()),
            iat: now,
            exp: now + self.access_ttl_seconds,
            jti: uuid_to_string(uuid_new_v4()),
        }
    }

    /// The claims of a new access token for `user_id` issued now (the
    /// clock's reading, see `claims_at`).
    pub fn claims_for(&self, user_id: &UserId) -> (c: Claims)
        requires
            -max_ttl_seconds() <= self.ttl() <= max_ttl_seconds(),
        ensures
            c.iss@ == self.issuer_view(),
            c.aud@ == self.audience_view(),
            c.sub@ == uuid_text(user_id@),
            0 <= c.iat <= chrono_max_secs(),
            c.exp == c.iat + self.ttl(),
            exists|v: u128| is_version4(v) && c.jti@ == #[trigger] uuid_text(v),
    {
        self.claims_at_reading(user_id, utc_now())
    }

    /// The claims for a token issued at the clock reading `now`: its whole
    /// seconds are the issued-at time and the expiry is the lifetime later.
    fn claims_at_reading(&self, user_id: &UserId, now: Timestamp) -> (c: Claims)
        requires
            -max_ttl_seconds() <= self.ttl() <= max_ttl_seconds(),
            0 <= now.secs <= chrono_max_secs(),
        ensures
            c.iss@ == self.issuer_view(),
            c.aud@ == self.audience_view(),
            c.sub@ == uuid_text(user_id@),
            c.iat == now.secs,
            c.exp == now.secs + self.ttl(),
            exists|v: u128| is_version4(v) && c.jti@ == #[trigger] uuid_text(v),
    {
        self.claims_at(user_id, now.secs)
    }

    /// The issued token together with the configured lifetime.
    pub fn issued(&self, token: String) -> (t: IssuedAccessToken)
        ensures
            t.token == token,
            t.expires_in == self.ttl(),
    {
        IssuedAccessToken { token, expires_in: self.access_ttl_seconds }
    }
}

/// The outcome of bearer authentication once the presented token (if any)
/// was verified: no token means no bearer credentials; a verified token
/// authenticates the user its subject names.
pub fn bearer_outcome(claims: Option<&Claims>) -> (r: Result<AuthenticationOutcome, AppError>)
    ensures
        match claims {
            None => r == Ok::<AuthenticationOutcome, AppError>(AuthenticationOutcome::NotPresent),
            Some(c) => match uuid_parse(c.sub@) {
                Some(v) => r == Ok::<AuthenticationOutcome, AppError>(
                    AuthenticationOutcome::Authenticated(
                        AuthenticatedIdentity { user_id: UserId::from_uuid_spec(v) },
                    ),
                ),
                None => r matches Err(AppError::Authentication(m)) && seq_starts_with(
                    m@,
                    "JWT subject is not a valid UUID: "@,
                ),
            },
        },
        claims matches Some(c) ==> forall|u: UserId| c.sub@ == #[trigger] uuid_text(u@) ==> r
            == Ok::<AuthenticationOutcome, AppError>(
            AuthenticationOutcome::Authenticated(AuthenticatedIdentity { user_id: u }),
        ),
{
    match claims {
        None => Ok(AuthenticationOutcome::NotPresent),
        Some(c) => match identity_from_subject(c.sub.as_str()) {
            Ok(id) => Ok(AuthenticationOutcome::Authenticated(id)),
            Err(e) => Err(e),
        },
    }
}

} // verus!
