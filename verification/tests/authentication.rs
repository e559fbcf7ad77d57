use authkit::authn::{
    chain_next, chain_start, to_attempt, to_optional, Attempt, AuthenticatedIdentity, AuthenticationContext,
    AuthenticationOutcome, ChainStep,
};
use authkit::error::AppError;
use authkit::identity::user_id::UserId;
use authkit::platform::composite::CompositeAuthenticator;
use authkit::platform::jwt::{bearer_outcome, Claims};
use authkit::platform::session::{identity_from_session, session_key, session_outcome, SessionRecord};
use authkit::request_auth::bearer::{equal_ignoring_ascii_case, header_text, identity_from_subject, parse_authorization_header};
use authkit::request_auth::composite::CompositeRequestAuthenticator;
use authkit::request_auth::session::{extract_cookie, session_id_from_cookie_header};

use authkit::config::JwtConfig;
use authkit::identity::email::Email;
use authkit::identity::password::PasswordHash;
use authkit::identity::role::Role;
use authkit::identity::user::User;
use authkit::identity::username::Username;
use authkit::platform::jwt::JwtAccessTokenIssuer;
use authkit::request_auth::jwt::JwtProvider;
use authkit::time::Timestamp;

const ALICE: u128 = 0x67e5_5044_10b1_426f_9247_bb68_0e5f_e0c8;
const ALICE_TEXT: &str = "67e55044-10b1-426f-9247-bb680e5fe0c8";

fn alice() -> AuthenticatedIdentity {
    AuthenticatedIdentity::new(UserId::from_uuid(ALICE))
}

/// Drives a composite the way the request pipeline does, with canned answers.
fn run(composite: &CompositeAuthenticator<Attempt>) -> Attempt {
    let mut step = composite.first_step();
    loop {
        match step {
            ChainStep::Finish(answer) => return answer,
            ChainStep::Ask(i) => {
                let answer = composite.authenticator(i).clone();
                step = composite.next_step(i, answer);
            }
        }
    }
}

#[test]
fn authorization_header_absent_means_no_bearer() {
    assert_eq!(parse_authorization_header(None), Ok(None));
}

#[test]
fn bearer_token_is_extracted_in_any_scheme_case() {
    assert_eq!(parse_authorization_header(Some(b"Bearer abc.def.ghi")), Ok(Some("abc.def.ghi".to_string())));
    assert_eq!(parse_authorization_header(Some(b"  bEaReR\ttok  ")), Ok(Some("tok".to_string())));
}

#[test]
fn malformed_authorization_headers_are_authentication_errors() {
    let err = |m: &str| Err(AppError::Authentication(m.to_string()));
    assert_eq!(parse_authorization_header(Some(b"")), err("Authorization header is empty"));
    assert_eq!(parse_authorization_header(Some(b"   ")), err("Authorization header is empty"));
    assert_eq!(
        parse_authorization_header(Some(b"Bearer")),
        err("Bearer token is missing from Authorization header")
    );
    assert_eq!(
        parse_authorization_header(Some(b"Bearer a b")),
        err("Authorization header must contain exactly two parts")
    );
    assert_eq!(parse_authorization_header(Some(b"Basic abc")), err("Unsupported authorization scheme: Basic"));
    assert_eq!(
        parse_authorization_header(Some(&[0x42, 0xff, 0x20, 0x61])),
        err("Authorization header is not valid ASCII")
    );
}

#[test]
fn header_text_accepts_visible_ascii_and_tab() {
    assert_eq!(header_text(b"a\tb ~"), Some("a\tb ~".to_string()));
    assert_eq!(header_text(b"a\nb"), None);
    assert_eq!(header_text(&[0x7f]), None);
    assert!(equal_ignoring_ascii_case("BeArEr", "bearer"));
    assert!(!equal_ignoring_ascii_case("Bearer", "Bearers"));
}

#[test]
fn jwt_subject_must_be_a_uuid() {
    assert_eq!(identity_from_subject(ALICE_TEXT), Ok(alice()));
    assert_eq!(identity_from_subject("67E55044-10B1-426F-9247-BB680E5FE0C8"), Ok(alice()));
    match identity_from_subject("alice") {
        Err(AppError::Authentication(m)) => assert!(m.starts_with("JWT subject is not a valid UUID: ")),
        other => panic!("unexpected {other:?}"),
    }
}

#[test]
fn verified_claims_authenticate_their_subject() {
    assert_eq!(bearer_outcome(None), Ok(AuthenticationOutcome::NotPresent));
    let claims = Claims {
        iss: "my-app".to_string(),
        aud: "my-app-api".to_string(),
        sub: ALICE_TEXT.to_string(),
        iat: 1,
        exp: 2,
        jti: "j".to_string(),
    };
    assert_eq!(bearer_outcome(Some(&claims)), Ok(AuthenticationOutcome::Authenticated(alice())));
}

#[test]
fn cookies_are_found_by_name() {
    assert_eq!(extract_cookie("a=1; sid=abc; b=2", "sid"), Some("abc".to_string()));
    assert_eq!(extract_cookie("sid=first;sid=second", "sid"), Some("first".to_string()));
    assert_eq!(extract_cookie("  sid = x", "sid"), None);
    assert_eq!(extract_cookie("sid=a=b", "sid"), Some("a=b".to_string()));
    assert_eq!(extract_cookie("sid", "sid"), None);
    assert_eq!(extract_cookie("", "sid"), None);
    assert_eq!(extract_cookie("xsid=1", "sid"), None);
    assert_eq!(extract_cookie("sid=", "sid"), Some(String::new()));
}

#[test]
fn session_id_comes_from_a_valid_cookie_header() {
    assert_eq!(session_id_from_cookie_header(None, "sid"), None);
    assert_eq!(session_id_from_cookie_header(Some(b"sid=42"), "sid"), Some("42".to_string()));
    assert_eq!(session_id_from_cookie_header(Some(&[0x73, 0x80]), "sid"), None);
}

#[test]
fn sessions_are_keyed_by_id() {
    assert_eq!(session_key("abc"), "auth:session:abc");
    let rec = SessionRecord::new(&UserId::from_uuid(ALICE), 1_700_000_000);
    assert_eq!(rec.user_id, ALICE_TEXT);
    assert_eq!(rec.created_at_unix, 1_700_000_000);
    assert_eq!(rec.session_id.len(), 36);
    assert_eq!(rec.redis_key(), format!("auth:session:{}", rec.session_id));
}

#[test]
fn a_stored_session_authenticates_its_user() {
    let rec = SessionRecord::new(&UserId::from_uuid(ALICE), 0);
    assert_eq!(identity_from_session(Some(rec.clone())), Ok(alice()));
    let sid = rec.session_id.clone();
    assert_eq!(session_outcome(Some(&sid), Some(rec.clone())), Ok(AuthenticationOutcome::Authenticated(alice())));
    assert_eq!(session_outcome(None, Some(rec)), Ok(AuthenticationOutcome::NotPresent));
    assert_eq!(
        session_outcome(Some("gone"), None),
        Err(AppError::Authentication("Invalid or expired session".to_string()))
    );
}

#[test]
fn missing_or_corrupt_sessions_fail() {
    assert_eq!(
        identity_from_session(None),
        Err(AppError::Authentication("Invalid or expired session".to_string()))
    );
    let bad = SessionRecord { session_id: "s".to_string(), user_id: "nope".to_string(), created_at_unix: 0 };
    match identity_from_session(Some(bad)) {
        Err(AppError::Infrastructure(m)) => assert!(m.starts_with("Stored session user_id is not a valid UUID: ")),
        other => panic!("unexpected {other:?}"),
    }
}

#[test]
fn chain_answers_with_the_first_decisive_result() {
    let some = Ok(AuthenticationOutcome::Authenticated(alice()));
    let none: Attempt = Ok(AuthenticationOutcome::NotPresent);
    let fail: Attempt = Err(AppError::Authentication("bad".to_string()));
    let c = CompositeAuthenticator::new(vec![none.clone(), some.clone(), fail.clone()]);
    assert_eq!(run(&c), some);
    let c = CompositeAuthenticator::new(vec![none.clone(), fail.clone(), some.clone()]);
    assert_eq!(run(&c), fail);
    let c = CompositeAuthenticator::new(vec![none.clone(), none.clone()]);
    assert_eq!(run(&c), none);
    let empty: CompositeAuthenticator<Attempt> = CompositeAuthenticator::default();
    assert!(empty.is_empty());
    assert_eq!(run(&empty), none);
}

#[test]
fn chain_steps() {
    assert!(matches!(chain_start(0), ChainStep::Finish(Ok(AuthenticationOutcome::NotPresent))));
    assert!(matches!(chain_start(2), ChainStep::Ask(0)));
    assert!(matches!(chain_next(2, 0, Ok(AuthenticationOutcome::NotPresent)), ChainStep::Ask(1)));
    assert!(matches!(
        chain_next(2, 1, Ok(AuthenticationOutcome::NotPresent)),
        ChainStep::Finish(Ok(AuthenticationOutcome::NotPresent))
    ));
    assert!(matches!(chain_next(3, 0, Err(AppError::Internal)), ChainStep::Finish(Err(AppError::Internal))));
}

#[test]
fn optional_style_composite_uses_the_same_policy() {
    let c: CompositeRequestAuthenticator<u8> = CompositeRequestAuthenticator::new().push(1).push(2);
    assert_eq!(c.len(), 2);
    assert!(!c.is_empty());
    assert_eq!(*c.authenticator(1), 2);
    assert!(matches!(c.first_step(), ChainStep::Ask(0)));
    assert!(matches!(c.next_step(0, Ok(None)), ChainStep::Ask(1)));
    assert!(matches!(c.next_step(1, Ok(None)), ChainStep::Finish(Ok(AuthenticationOutcome::NotPresent))));
    assert!(matches!(
        c.next_step(0, Ok(Some(alice()))),
        ChainStep::Finish(Ok(AuthenticationOutcome::Authenticated(_)))
    ));
    let d = CompositeRequestAuthenticator::with_authenticators(vec![7u8]);
    assert_eq!(d.len(), 1);
    assert_eq!(to_optional(to_attempt(Ok(Some(alice())))), Ok(Some(alice())));
    assert_eq!(to_attempt(Ok(None)), Ok(AuthenticationOutcome::NotPresent));
}

#[test]
fn context_carries_credentials() {
    let ctx = AuthenticationContext::new(Some("tok".to_string()), None);
    assert_eq!(ctx.bearer_token(), Some("tok"));
    assert_eq!(ctx.session_id(), None);
}

#[test]
fn access_token_claims_authenticate_the_user_they_were_issued_for() {
    let config = JwtConfig {
        secret: "s".to_string(),
        issuer: "my-app".to_string(),
        audience: "my-app-api".to_string(),
        access_ttl_seconds: 900,
        refresh_ttl_seconds: 2_592_000,
    };
    let issuer = JwtAccessTokenIssuer::new(&config);
    let claims = issuer.claims_for(&UserId::from_uuid(ALICE));
    assert_eq!(claims.iss, "my-app");
    assert_eq!(claims.aud, "my-app-api");
    assert_eq!(claims.sub, ALICE_TEXT);
    assert_eq!(claims.exp - claims.iat, 900);
    assert_eq!(claims.jti.len(), 36);
    assert_eq!(bearer_outcome(Some(&claims)), Ok(AuthenticationOutcome::Authenticated(alice())));
    let issued = issuer.issued("signed".to_string());
    assert_eq!(issued.token, "signed");
    assert_eq!(issued.expires_in, 900);
}

#[test]
fn role_claims_carry_the_role_ids_in_order() {
    let config = JwtConfig {
        secret: "s".to_string(),
        issuer: "iss".to_string(),
        audience: "aud".to_string(),
        access_ttl_seconds: 60,
        refresh_ttl_seconds: 120,
    };
    let ts = Timestamp { secs: 0, nanos: 0 };
    let user = User::restore(
        UserId::from_uuid(ALICE),
        Username::from_str("alice").unwrap(),
        Email::from_str("alice@example.com").unwrap(),
        PasswordHash::new("h".to_string()),
        vec![Role::new("admin", "Administrator"), Role::new("editor", "Editor")],
        Vec::new(),
        ts,
        ts,
    );
    let claims = JwtProvider::new(&config).claims_for(&user);
    assert_eq!(claims.sub, ALICE_TEXT);
    assert_eq!(claims.roles, vec!["admin".to_string(), "editor".to_string()]);
    assert_eq!(claims.exp - claims.iat, 60);
    assert_eq!((claims.iss.as_str(), claims.aud.as_str()), ("iss", "aud"));
}

#[test]
fn token_and_session_ids_are_version_4_uuids() {
    let config = JwtConfig {
        secret: "s".to_string(),
        issuer: "i".to_string(),
        audience: "a".to_string(),
        access_ttl_seconds: 1,
        refresh_ttl_seconds: 1,
    };
    let claims = JwtAccessTokenIssuer::new(&config).claims_for(&UserId::from_uuid(ALICE));
    assert_eq!(claims.jti.as_bytes()[14], b'4');
    assert!(matches!(claims.jti.as_bytes()[19], b'8' | b'9' | b'a' | b'b'));
    let rec = SessionRecord::new(&UserId::from_uuid(ALICE), 0);
    assert_eq!(rec.session_id.as_bytes()[14], b'4');
    assert!(matches!(rec.session_id.as_bytes()[19], b'8' | b'9' | b'a' | b'b'));
}

#[test]
fn claims_are_stamped_with_the_given_time() {
    let config = JwtConfig {
        secret: "s".to_string(),
        issuer: "i".to_string(),
        audience: "a".to_string(),
        access_ttl_seconds: 900,
        refresh_ttl_seconds: 1,
    };
    let c = JwtAccessTokenIssuer::new(&config).claims_at(&UserId::from_uuid(ALICE), 1_700_000_000);
    assert_eq!((c.iat, c.exp), (1_700_000_000, 1_700_000_900));
    let ts = Timestamp { secs: 0, nanos: 0 };
    let user = User::restore(
        UserId::from_uuid(ALICE),
        Username::from_str("alice").unwrap(),
        Email::from_str("alice@example.com").unwrap(),
        PasswordHash::new("h".to_string()),
        Vec::new(),
        Vec::new(),
        ts,
        ts,
    );
    let r = JwtProvider::new(&config).claims_at(&user, 1_700_000_000);
    assert_eq!((r.iat, r.exp), (1_700_000_000, 1_700_000_900));
}

#[test]
fn the_request_composite_starts_empty() {
    let c = authkit::platform::composite::CompositeRequestAuthenticator::new(vec![1u8, 2]);
    assert!(c.is_empty());
    assert_eq!(c.len(), 0);
    assert!(matches!(c.first_step(), ChainStep::Finish(Ok(AuthenticationOutcome::NotPresent))));
}
