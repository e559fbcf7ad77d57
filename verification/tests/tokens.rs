use authkit::hashing::{Argon2Provider, BcryptPasswordHasher};
use authkit::identity::error::IdentityError;
use authkit::identity::password::{PasswordHash, PlaintextPassword};
use authkit::platform::refresh::{assemble_refresh_token, check_rotation, RefreshTokenRow};
use authkit::redis::{parse_redis_url, session_expiry_seconds};
use authkit::error::AppError;
use authkit::time::Timestamp;
use authkit::tokens::{
    refresh_token_from,
    Blake3OpaqueTokenHasher, DefaultRefreshTokenService, RandomOpaqueTokenIssuer, Sha256OpaqueTokenHasher,
    Sha256RefreshTokenCodec,
};

fn is_b64url(s: &str) -> bool {
    s.chars().all(|c| c.is_ascii_alphanumeric() || c == '-' || c == '_')
}

#[test]
fn sha256_token_hash_known_vectors() {
    let h = Sha256OpaqueTokenHasher::new();
    assert_eq!(h.hash_token("abc").unwrap(), "ungWv48Bz-pBQUDeXa4iI7ADYaOWF3qctBD_YfIAFa0");
    assert_eq!(h.hash_token("").unwrap(), "47DEQpj8HBSa-_TImW-5JCeuQeRkm5NMpJWZG3hSuFU");
    assert_eq!(DefaultRefreshTokenService::new().hash_token("abc").unwrap(), "ungWv48Bz-pBQUDeXa4iI7ADYaOWF3qctBD_YfIAFa0");
    assert_eq!(
        Sha256RefreshTokenCodec::new().hash_refresh_token("abc").unwrap(),
        "ungWv48Bz-pBQUDeXa4iI7ADYaOWF3qctBD_YfIAFa0"
    );
}

#[test]
fn blake3_token_hash_known_vectors() {
    let h = Blake3OpaqueTokenHasher::new();
    assert_eq!(h.hash_token("abc").unwrap(), "ZDezrDhGUTP_tjt1JzqNtUjFWEZdedsD_TWcbNW9nYU");
    assert_eq!(h.hash_token("").unwrap(), "rxNJufX5oaagQE3qNtzJSZvLJcmtwRK3zJqTyuQfMmI");
}

#[test]
fn issued_tokens_have_the_configured_entropy() {
    let issuer = RandomOpaqueTokenIssuer::new();
    assert_eq!(issuer.byte_length(), 32);
    let t = issuer.issue_token().unwrap();
    assert_eq!(t.len(), 43);
    assert!(is_b64url(&t));
    let small = RandomOpaqueTokenIssuer::with_byte_length(3);
    assert_eq!(small.issue_token().unwrap().len(), 4);
    assert_eq!(RandomOpaqueTokenIssuer::default().byte_length(), 32);
    let a = DefaultRefreshTokenService::new().generate_token().unwrap();
    let b = Sha256RefreshTokenCodec::new().issue_refresh_token().unwrap();
    assert_eq!(a.len(), 43);
    assert_eq!(b.len(), 43);
    assert_ne!(a, b);
}

#[test]
fn rotation_must_touch_exactly_one_row() {
    assert_eq!(check_rotation(1), Ok(()));
    let msg = "Refresh token rotation affected an unexpected number of rows".to_string();
    assert_eq!(check_rotation(0), Err(AppError::Infrastructure(msg.clone())));
    assert_eq!(check_rotation(2), Err(AppError::Infrastructure(msg)));
}

#[test]
fn rows_become_records() {
    let t = Timestamp { secs: 10, nanos: 5 };
    let row = RefreshTokenRow {
        id: 1,
        family_id: 2,
        user_id: 3,
        token_hash: "h".to_string(),
        created_at: t,
        expires_at: t,
        used_at: None,
        revoked_at: Some(t),
        replaced_by_id: Some(4),
    };
    let r = assemble_refresh_token(row);
    assert_eq!((r.id, r.family_id, r.user_id.as_uuid()), (1, 2, 3));
    assert_eq!(r.token_hash, "h");
    assert_eq!(r.revoked_at, Some(t));
    assert_eq!(r.replaced_by_id, Some(4));
}

#[test]
fn session_expiry_is_the_ttl_in_seconds() {
    assert_eq!(session_expiry_seconds(604_800), 604_800);
    assert_eq!(session_expiry_seconds(u64::MAX), -1);
}

#[test]
fn redis_urls_are_checked() {
    assert!(parse_redis_url("redis://localhost:6379").is_ok());
    match parse_redis_url("not a url") {
        Err(AppError::Infrastructure(m)) => assert!(m.starts_with("Invalid Redis URL: ")),
        _ => panic!("expected an infrastructure error"),
    }
}

#[test]
fn bcrypt_hash_verifies_the_same_password_only() {
    let hasher = BcryptPasswordHasher::with_cost(4);
    let pw = PlaintextPassword::from_str("Password123!").unwrap();
    let other = PlaintextPassword::from_str("Password124!").unwrap();
    let hash = hasher.hash(&pw).unwrap();
    assert!(hash.as_str().starts_with("$2b$04$"));
    assert_eq!(hasher.verify(&pw, &hash), Ok(true));
    assert_eq!(hasher.verify(&other, &hash), Ok(false));
    assert_eq!(
        hasher.verify(&pw, &PasswordHash::new("garbage".to_string())),
        Err(IdentityError::InvalidCredentials)
    );
}

#[test]
fn bcrypt_rejects_bad_costs() {
    let pw = PlaintextPassword::from_str("Password123!").unwrap();
    assert_eq!(BcryptPasswordHasher::with_cost(3).hash(&pw).err(), Some(IdentityError::InvalidCredentials));
    assert_eq!(BcryptPasswordHasher::with_cost(32).hash(&pw).err(), Some(IdentityError::InvalidCredentials));
}

#[test]
fn bcrypt_rejects_passwords_of_72_bytes() {
    let long = PlaintextPassword::try_from(format!("Aa1!{}", "x".repeat(68))).unwrap();
    assert_eq!(BcryptPasswordHasher::with_cost(4).hash(&long).err(), Some(IdentityError::InvalidCredentials));
}

#[test]
fn argon2_hash_verifies_the_same_password_only() {
    let provider = Argon2Provider::new();
    let pw = PlaintextPassword::from_str("Password123!").unwrap();
    let other = PlaintextPassword::from_str("Password124!").unwrap();
    let hash = provider.hash(&pw).unwrap();
    assert!(hash.as_str().starts_with("$argon2id$v=19$"));
    assert_ne!(provider.hash(&pw).unwrap().as_str(), hash.as_str());
    assert_eq!(provider.verify(&pw, &hash), Ok(true));
    assert_eq!(provider.verify(&other, &hash), Ok(false));
    assert_eq!(provider.verify(&pw, &PasswordHash::new("not-a-phc-string".to_string())), Ok(false));
}

#[test]
fn issued_tokens_are_random() {
    let issuer = RandomOpaqueTokenIssuer::new();
    let a = issuer.issue_token().unwrap();
    let b = issuer.issue_token().unwrap();
    assert_ne!(a, b);
    assert_ne!(a, "A".repeat(43));
}

#[test]
fn refresh_tokens_encode_the_filled_bytes() {
    let bytes = vec![0xfbu8, 0xff, 0x00];
    assert_eq!(refresh_token_from(Ok(()), &bytes), Ok("-_8A".to_string()));
    let failure = rand_core::Error::from(core::num::NonZeroU32::new(rand_core::Error::CUSTOM_START).unwrap());
    assert!(matches!(refresh_token_from(Err(failure), &bytes), Err(AppError::Infrastructure(_))));
}
