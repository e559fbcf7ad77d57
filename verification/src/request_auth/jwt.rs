//! Access tokens of the request-authentication layer: claims with the
//! user's role ids.

use vstd::prelude::*;

use crate::config::JwtConfig;
use crate::identity::role::Role;
use crate::identity::user::User;
use crate::identity::user_id::{is_version4, uuid_new_v4};
use crate::platform::jwt::max_ttl_seconds;
use crate::time::{chrono_max_secs, chrono_min_secs, utc_now, Timestamp};
use crate::uuid_text::{uuid_text, uuid_to_string};

verus! {

/// The data embedded in the token: RFC 7519 claims plus the user's role ids.
#[derive(Debug, Clone)]
pub struct Claims {
    pub iss: String,
    pub aud: String,
    pub sub: String,
    pub iat: usize,
    pub exp: usize,
    pub jti: String,
    /// Custom claim: the ids of the user's roles.
    pub roles: Vec<String>,
}

/// Builds HS256 access tokens for users; the signing key lives with the signer.
#[derive(Debug, Clone)]
pub struct JwtProvider {
    issuer: String,
    audience: String,
    access_ttl_seconds: i64,
}

/// The role ids of a list of roles, in order.
pub open spec fn role_ids(roles: Seq<Role>) -> Seq<Seq<char>> {
    roles.map_values(|r: Role| r.id@)
}

impl JwtProvider {
    pub closed spec fn issuer_view(&self) -> Seq<char> {
        self.issuer@
    }

    pub closed spec fn audience_view(&self) -> Seq<char> {
        self.audience@
    }

    pub closed spec fn ttl(&self) -> i64 {
        self.access_ttl_seconds
    }

    /// The provider configured by `config`.
    pub fn new(config: &JwtConfig) -> (r: Self)
        ensures
            r.issuer_view() == config.issuer@,
            r.audience_view() == config.audience@,
            r.ttl() == config.access_ttl_seconds,
    {
        JwtProvider {
            issuer: config.issuer.clone(),
            audience: config.audience.clone(),
            access_ttl_seconds: config.access_ttl_seconds,
        }
    }

    /// The claims of a new token for `user` issued at the Unix time `now`
    /// (seconds): expiring after the configured lifetime, carrying the ids
    /// of the user's roles and a fresh random version-4 token id. The times
    /// are stored as `usize` (a cast, as the token format requires).
    pub fn claims_at(&self, user: &User, now: i64) -> (c: Claims)
        requires
            -max_ttl_seconds() <= self.ttl() <= max_ttl_seconds(),
            chrono_min_secs() <= now <= chrono_max_secs(),
        ensures
            c.iss@ == self.issuer_view(),
            c.aud@ == self.audience_view(),
            c.sub@ == uuid_text(user.id@),
            c.iat == now as usize,
            c.exp == (now + self.ttl()) as usize,
            exists|v: u128| is_version4(v) && c.jti@ == #[trigger] uuid_text(v),
            c.roles@.map_values(|s: String| s@) == role_ids(user.roles@),
    {
        let exp = now + self.access_ttl_seconds;
        let mut roles: Vec<String> = Vec::new();
        let mut i: usize = 0;
        while i < user.roles.len()
            invariant
                i <= user.roles.len(),
                roles@.map_values(|s: String| s@) == role_ids(user.roles@.take(i as int)),
            decreases user.roles.len() - i,
        {
            let ghost before = roles@;
            roles.push(user.roles[i].id.clone());
            assert(role_ids(user.roles@.take(i + 1)) =~= role_ids(user.roles@.take(i as int)).push(
                user.roles@[i as int].id@,
            ));
            assert(roles@.map_values(|s: String| s@) =~= before.map_values(|s: String| s@).push(
                user.roles@[i as int].id@,
            ));
            i = i + 1;
        }
        assert(user.roles@.take(user.roles.len() as int) =~= user.roles@);
        Claims {
            iss: self.issuer.clone(),
            aud: self.audience.clone(),
            sub: uuid_to_string(user.id.as_uuid()),
            iat: #[verifier::truncate] (now as usize),
            exp: #[verifier::truncate] (exp as usize),
            jti: uuid_to_string(uuid_new_v4()),
            roles,
        }
    }

    /// The claims of a new token for `user` issued now (the clock's reading,
    /// which is never before the Unix epoch; see `claims_at`).
    pub fn claims_for(&self, user: &User) -> (c: Claims)
        requires
            -max_ttl_seconds() <= self.ttl() <= max_ttl_seconds(),
        ensures
            c.iss@ == self.issuer_view(),
            c.aud@ == self.audience_view(),
            c.sub@ == uuid_text(user.id@),
            exists|now: i64|
                0 <= now <= chrono_max_secs() && c.iat == #[trigger] (now as usize) && c.exp == ((
                now + self.ttl()) as usize),
            exists|v: u128| is_version4(v) && c.jti@ == #[trigger] uuid_text(v),
            c.roles@.map_values(|s: String| s@) == role_ids(user.roles@),
    {
        self.claims_at_reading(user, utc_now())
    }

    /// The claims for a token issued at the clock reading `now`: its whole
    /// seconds, stored as `usize`, are the issued-at time and the expiry is
    /// the lifetime later.
    fn claims_at_reading(&self, user: &User, now: Timestamp) -> (c: Claims)
        requires
            -max_ttl_seconds() <= self.ttl() <= max_ttl_seconds(),
            0 <= now.secs <= chrono_max_secs(),
        ensures
            c.iss@ == self.issuer_view(),
            c.aud@ == self.audience_view(),
            c.sub@ == uuid_text(user.id@),
            c.iat == now.secs as usize,
            c.exp == (now.secs + self.ttl()) as usize,
            exists|v: u128| is_version4(v) && c.jti@ == #[trigger] uuid_text(v),
            c.roles@.map_values(|s: String| s@) == role_ids(user.roles@),
    {
        self.claims_at(user, now.secs)
    }
}

} // verus!
