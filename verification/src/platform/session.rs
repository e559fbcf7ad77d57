//! Sessions stored in Redis, and authentication by session id.

use vstd::prelude::*;

use crate::authn::{AuthenticatedIdentity, AuthenticationOutcome};
use crate::error::AppError;
use crate::identity::user_id::{is_version4, uuid_new_v4, UserId};
use crate::text::{push_str, seq_starts_with};
use crate::uuid_text::{uuid_error_message, uuid_parse, uuid_parse_str, uuid_text, uuid_to_string};

verus! {

/// The Redis key under which the session with this id is stored.
pub open spec fn session_key_of(session_id: Seq<char>) -> Seq<char> {
    "auth:session:"@ + session_id
}

/// The Redis key for a session id (used to fetch and delete sessions).
pub fn session_key(session_id: &str) -> (key: String)
    ensures
        key@ == session_key_of(session_id@),
{
    let mut key = String::new();
    push_str(&mut key, "auth:session:");
    push_str(&mut key, session_id);
    key
}

/// The stored session payload.
#[derive(Debug, Clone)]
pub struct SessionRecord {
    pub session_id: String,
    pub user_id: String,
    pub created_at_unix: i64,
}

impl SessionRecord {
    /// A new session for `user_id` with a fresh random id (a version-4
    /// UUID); the user is stored as the hyphenated text of its UUID.
    pub fn new(user_id: &UserId, created_at_unix: i64) -> (r: SessionRecord)
        ensures
            r.user_id@ == uuid_text(user_id@),
            r.created_at_unix == created_at_unix,
            exists|v: u128| is_version4(v) && r.session_id@ == #[trigger] uuid_text(v),
    {
        let sid = uuid_new_v4();
        SessionRecord {
            session_id: uuid_to_string(sid),
            user_id: uuid_to_string(user_id.as_uuid()),
            created_at_unix,
        }
    }

    /// The Redis key of this session.
    pub fn redis_key(&self) -> (key: String)
        ensures
            key@ == session_key_of(self.session_id@),
    {
        session_key(self.session_id.as_str())
    }
}

/// The identity a fetched session establishes.
///
/// No session (unknown or expired id) is an authentication error; a stored
/// user id that is not the text of a UUID is an infrastructure error. A
/// session recorded for a user authenticates that user.
pub fn identity_from_session(session: Option<SessionRecord>) -> (r: Result<AuthenticatedIdentity, AppError>)
    ensures
        match session {
            None => r matches Err(AppError::Authentication(m)) && m@ == "Invalid or expired session"@,
            Some(s) => match uuid_parse(s.user_id@) {
                Some(v) => r == Ok::<AuthenticatedIdentity, AppError>(
                    AuthenticatedIdentity { user_id: UserId::from_uuid_spec(v) },
                ),
                None => r matches Err(AppError::Infrastructure(m)) && seq_starts_with(
                    m@,
                    "Stored session user_id is not a valid UUID: "@,
                ),
            },
        },
        session matches Some(s) ==> forall|u: UserId| s.user_id@ == #[trigger] uuid_text(u@) ==> r
            == Ok::<AuthenticatedIdentity, AppError>(AuthenticatedIdentity { user_id: u }),
{
    let s = match session {
        None => {
            return Err(AppError::Authentication("Invalid or expired session".to_owned()));
        },
        Some(s) => s,
    };
    match uuid_parse_str(s.user_id.as_str()) {
        Ok(v) => {
            proof {
                assert forall|u: UserId| s.user_id@ == #[trigger] uuid_text(u@) implies UserId::from_uuid_spec(v) == u by {
                    UserId::lemma_from_own_uuid(u);
                }
            }
            Ok(AuthenticatedIdentity::new(UserId::from_uuid(v)))
        },
        Err(e) => {
            let mut msg = String::new();
            push_str(&mut msg, "Stored session user_id is not a valid UUID: ");
            let ghost prefix = msg@;
            let detail = uuid_error_message(&e);
            push_str(&mut msg, detail.as_str());
            assert(msg@.subrange(0, prefix.len() as int) =~= prefix);
            Err(AppError::Infrastructure(msg))
        },
    }
}

/// The outcome of session authentication. A request without a session id
/// carries no session credentials; otherwise the session fetched for that id
/// decides, as in `identity_from_session`, and a session authenticates the
/// user it was recorded for.
pub fn session_outcome(session_id: Option<&str>, session: Option<SessionRecord>) -> (r: Result<
    AuthenticationOutcome,
    AppError,
>)
    ensures
        session_id is None ==> r == Ok::<AuthenticationOutcome, AppError>(
            AuthenticationOutcome::NotPresent,
        ),
        session_id is Some ==> match session {
            None => r matches Err(AppError::Authentication(m)) && m@ == "Invalid or expired session"@,
            Some(s) => match uuid_parse(s.user_id@) {
                Some(v) => r == Ok::<AuthenticationOutcome, AppError>(
                    AuthenticationOutcome::Authenticated(
                        AuthenticatedIdentity { user_id: UserId::from_uuid_spec(v) },
                    ),
                ),
                None => r matches Err(AppError::Infrastructure(m)) && seq_starts_with(
                    m@,
                    "Stored session user_id is not a valid UUID: "@,
                ),
            },
        },
{
    match session_id {
        None => Ok(AuthenticationOutcome::NotPresent),
        Some(_) => match identity_from_session(session) {
            Ok(id) => Ok(AuthenticationOutcome::Authenticated(id)),
            Err(e) => Err(e),
        },
    }
}

} // verus!
