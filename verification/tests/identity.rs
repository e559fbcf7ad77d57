use authkit::error::ErrorCode;
use authkit::identity::email::{Email, EmailError};
use authkit::identity::error::IdentityError;
use authkit::identity::password::PasswordHash;
use authkit::identity::permission::Permission;
use authkit::identity::role::Role;
use authkit::identity::user::{dedup_permissions, User};
use authkit::identity::user_id::UserId;
use authkit::identity::username::{Username, UsernameError};
use authkit::time::Timestamp;

fn sample_user() -> User {
    User::create(
        Username::from_str("alice").unwrap(),
        Email::from_str("alice@example.com").unwrap(),
        PasswordHash::new("hash".to_string()),
    )
}

#[test]
fn email_is_trimmed_and_lowercased() {
    let e = Email::try_from("  Alice.Smith@Example.COM \n".to_string()).unwrap();
    assert_eq!(e.as_str(), "alice.smith@example.com");
}

#[test]
fn email_without_at_is_invalid() {
    assert_eq!(Email::from_str("not-an-email").err(), Some(EmailError::InvalidFormat));
    assert_eq!(Email::from_str("").err(), Some(EmailError::InvalidFormat));
}

#[test]
fn tempmail_domain_is_blocked() {
    assert_eq!(Email::from_str("someone@TempMail.com").err(), Some(EmailError::BlockedDomain));
    assert!(Email::from_str("someone@tempmail.co").is_ok());
}

#[test]
fn email_parse_trait_matches_constructor() {
    let e: Email = "Bob@Example.org".parse().unwrap();
    assert_eq!(e.as_str(), "bob@example.org");
}

#[test]
fn email_debug_text_masks_local_part() {
    let e = Email::from_str("alice@example.com").unwrap();
    assert_eq!(e.debug_text(), "EmailAddress(al***@example.com)");
    let short = Email::from_str("al@example.com").unwrap();
    assert_eq!(short.debug_text(), "EmailAddress(***@example.com)");
}

#[test]
fn email_error_codes_and_messages() {
    assert_eq!(EmailError::InvalidFormat.error_code(), "IDENTITY_EMAIL_INVALID_FORMAT");
    assert_eq!(EmailError::BlockedDomain.error_code(), "IDENTITY_EMAIL_BLOCKED_DOMAIN");
    assert_eq!(EmailError::InvalidFormat.message(), "The email format is invalid.");
    assert_eq!(
        IdentityError::from(EmailError::BlockedDomain).message(),
        "The email belongs to a blocked or disposable domain."
    );
    assert_eq!(IdentityError::from(EmailError::BlockedDomain).error_code(), "IDENTITY_EMAIL_BLOCKED_DOMAIN");
}

#[test]
fn username_is_trimmed_keeping_case() {
    let u = Username::try_from("  Alice  ".to_string()).unwrap();
    assert_eq!(u.as_str(), "Alice");
    let parsed: Username = "Bob".parse().unwrap();
    assert_eq!(parsed.as_str(), "Bob");
}

#[test]
fn blank_username_is_rejected() {
    assert_eq!(Username::from_str("   ").err(), Some(UsernameError::ValidationFailed));
    assert_eq!(Username::from_str("").err(), Some(UsernameError::ValidationFailed));
    assert_eq!(UsernameError::ValidationFailed.error_code(), "IDENTITY_USERNAME_VALIDATION_FAILED");
    assert_eq!(
        IdentityError::from(UsernameError::ValidationFailed).message(),
        "The username contains did not pass validation."
    );
}

#[test]
fn permission_constants_and_rendering() {
    assert_eq!(Permission::identity_user_read().as_str(), "identity.user.read");
    assert_eq!(Permission::identity_user_update().as_str(), "identity.user.update");
    let p = Permission::new("billing.view");
    assert_eq!(p.debug_text(), "Permission(billing.view)");
    assert!(p.same_as(&Permission::new("billing.view")));
    assert!(!p.same_as(&Permission::identity_user_read()));
}

#[test]
fn role_rendering() {
    let r = Role::new("admin", "Administrator");
    assert_eq!(r.id, "admin");
    assert_eq!(r.name, "Administrator");
    assert_eq!(r.debug_text(), "Role(admin: Administrator)");
}

#[test]
fn user_id_roundtrips_through_its_value() {
    let id = UserId::from_uuid(0x0123_4567_89ab_cdef_0123_4567_89ab_cdef);
    assert_eq!(id.as_uuid(), 0x0123_4567_89ab_cdef_0123_4567_89ab_cdef);
    let fresh = UserId::new();
    assert_eq!((fresh.as_uuid() >> 76) & 0xF, 4);
    assert_eq!((fresh.as_uuid() >> 62) & 0x3, 2);
}

#[test]
fn new_user_has_no_roles_or_permissions() {
    let u = sample_user();
    assert!(u.roles.is_empty());
    assert!(u.permissions.is_empty());
    assert_eq!(u.created_at, u.updated_at);
    assert!(!u.has_permission("identity.user.read"));
    assert!(!u.has_role("admin"));
}

#[test]
fn restore_collapses_duplicate_permissions() {
    let ts = Timestamp { secs: 1_700_000_000, nanos: 0 };
    let u = User::restore(
        UserId::from_uuid(7),
        Username::from_str("alice").unwrap(),
        Email::from_str("alice@example.com").unwrap(),
        PasswordHash::new("hash".to_string()),
        vec![Role::new("admin", "Administrator")],
        vec![
            Permission::identity_user_read(),
            Permission::identity_user_update(),
            Permission::identity_user_read(),
        ],
        ts,
        ts,
    );
    assert_eq!(u.permissions.len(), 2);
    assert!(u.has_permission("identity.user.read"));
    assert!(u.has_permission("identity.user.update"));
    assert!(!u.has_permission("identity.user.delete"));
    assert!(u.has_role("admin"));
    assert!(!u.has_role("Administrator"));
    assert_eq!(u.id.as_uuid(), 7);
}

#[test]
fn dedup_keeps_first_occurrence_order() {
    let r = dedup_permissions(vec![
        Permission::new("b"),
        Permission::new("a"),
        Permission::new("b"),
        Permission::new("c"),
        Permission::new("a"),
    ]);
    let slugs: Vec<&str> = r.iter().map(|p| p.as_str()).collect();
    assert_eq!(slugs, vec!["b", "a", "c"]);
}

#[test]
fn changing_email_and_password_keeps_identity() {
    let mut u = sample_user();
    let id = u.id;
    let created = u.created_at;
    u.change_email(Email::from_str("new@example.com").unwrap());
    assert_eq!(u.email.as_str(), "new@example.com");
    u.change_password(PasswordHash::new("other".to_string()));
    assert_eq!(u.password_hash.as_str(), "other");
    assert_eq!(u.id, id);
    assert_eq!(u.created_at, created);
    assert!(u.updated_at.secs >= created.secs);
}

#[test]
fn a_username_validates_to_itself() {
    let u = Username::from_str("\t Ada Lovelace \n").unwrap();
    assert_eq!(u.as_str(), "Ada Lovelace");
    assert_eq!(Username::from_str(u.as_str()).unwrap().as_str(), "Ada Lovelace");
    assert_eq!(u.clone().as_str(), "Ada Lovelace");
}

#[test]
fn masking_keeps_whole_characters() {
    let e = Email::from_str("ñandu@example.com").unwrap();
    assert_eq!(e.debug_text(), "EmailAddress(ñ***@example.com)");
}

#[test]
fn new_users_are_stamped_with_the_current_time() {
    let u = sample_user();
    assert!(u.created_at.secs > 1_600_000_000);
    assert!(u.created_at.nanos < 1_000_000_000);
}

#[test]
fn a_normalized_ascii_email_parses_to_itself() {
    let e = Email::from_str("  Mixed.Case@Example.ORG\t").unwrap();
    assert_eq!(e.as_str(), "mixed.case@example.org");
    assert_eq!(Email::from_str(e.as_str()).unwrap().as_str(), e.as_str());
    assert!(new_users_have_version_4_ids());
}

fn new_users_have_version_4_ids() -> bool {
    let id = sample_user().id.as_uuid();
    (id >> 76) & 0xF == 4 && (id >> 62) & 0x3 == 2
}

#[test]
fn accounts_are_stamped_with_the_given_time() {
    let t0 = Timestamp { secs: 1_000, nanos: 5 };
    let t1 = Timestamp { secs: 2_000, nanos: 0 };
    let mut u = User::create_at(
        Username::from_str("bob").unwrap(),
        Email::from_str("bob@example.com").unwrap(),
        PasswordHash::new("h".to_string()),
        t0,
    );
    assert_eq!((u.created_at, u.updated_at), (t0, t0));
    u.change_email_at(Email::from_str("bob2@example.com").unwrap(), t1);
    assert_eq!((u.created_at, u.updated_at), (t0, t1));
    assert_eq!(u.email.as_str(), "bob2@example.com");
    let t2 = Timestamp { secs: 3_000, nanos: 1 };
    u.change_password_at(PasswordHash::new("h2".to_string()), t2);
    assert_eq!((u.created_at, u.updated_at), (t0, t2));
}
