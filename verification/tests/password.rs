use authkit::error::{ErrorCode, ErrorContext};
use authkit::identity::error::IdentityError;
use authkit::identity::password::{PasswordError, PasswordHash, PlaintextPassword};

#[test]
fn test_empty_password_fails() {
    let result = PlaintextPassword::try_from("".to_string());
    assert!(matches!(result, Err(PasswordError::Empty)));
}

#[test]
fn test_short_password_fails() {
    let result = PlaintextPassword::try_from("Ab1$".to_string());
    assert!(matches!(result, Err(PasswordError::TooShort(_))));
}

#[test]
fn test_no_lowercase_letter_in_password_fails() {
    let result = PlaintextPassword::try_from("UPPERCASE_1$".to_string());
    assert!(matches!(result, Err(PasswordError::MissingLowercase)));
}

#[test]
fn test_no_uppercase_letter_in_password_fails() {
    let result = PlaintextPassword::try_from("lowercase_1$".to_string());
    assert!(matches!(result, Err(PasswordError::MissingUppercase)));
}

#[test]
fn test_no_number_in_password_fails() {
    let result = PlaintextPassword::try_from("NoNumber_$".to_string());
    assert!(matches!(result, Err(PasswordError::MissingNumber)));
}

#[test]
fn test_no_symbol_in_password_fails() {
    let result = PlaintextPassword::try_from("NoSymbol88".to_string());
    assert!(matches!(result, Err(PasswordError::MissingSymbol)));
}

#[test]
fn test_valid_password_works() {
    let result = "Password123!".parse::<PlaintextPassword>();
    assert!(result.is_ok());
}

#[test]
fn short_password_reports_the_minimum_of_eight() {
    assert_eq!(PlaintextPassword::try_from("Ab1$xyz".to_string()).err(), Some(PasswordError::TooShort(8)));
}

#[test]
fn eight_bytes_is_long_enough() {
    let p = PlaintextPassword::try_from("Abcdef1!".to_string()).unwrap();
    assert_eq!(p.as_str(), "Abcdef1!");
    assert_eq!(p.into_inner(), "Abcdef1!".to_string());
}

#[test]
fn length_is_counted_in_characters() {
    // Seven characters (eight or nine bytes): too short.
    assert_eq!(PlaintextPassword::try_from("Aé1!aaa".to_string()).err(), Some(PasswordError::TooShort(8)));
    assert_eq!(PlaintextPassword::from_str("Ää1!abc").err(), Some(PasswordError::TooShort(8)));
    // 128 characters, 252 bytes: accepted; one more character is too long.
    let wide = format!("Aa1!{}", "ä".repeat(124));
    assert!(PlaintextPassword::from_str(&wide).is_ok());
    let wider = format!("Aa1!{}", "ä".repeat(125));
    assert_eq!(PlaintextPassword::from_str(&wider).err(), Some(PasswordError::TooLong(128)));
}

#[test]
fn password_of_128_bytes_is_accepted_and_129_rejected() {
    let ok = format!("Aa1!{}", "x".repeat(124));
    assert_eq!(ok.len(), 128);
    assert!(PlaintextPassword::try_from(ok).is_ok());
    let long = format!("Aa1!{}", "x".repeat(125));
    assert_eq!(PlaintextPassword::try_from(long).err(), Some(PasswordError::TooLong(128)));
}

#[test]
fn missing_number_is_checked_before_letter_case() {
    assert_eq!(PlaintextPassword::try_from("nonumbers!".to_string()).err(), Some(PasswordError::MissingNumber));
}

#[test]
fn unicode_letters_count_for_case_rules() {
    assert!(PlaintextPassword::try_from("ÄÖÜäöü12!".to_string()).is_ok());
}

#[test]
fn password_error_codes_and_context() {
    assert_eq!(PasswordError::Empty.error_code(), "IDENTITY_PASSWORD_EMPTY");
    assert_eq!(PasswordError::TooShort(8).error_code(), "IDENTITY_PASSWORD_TOO_SHORT");
    assert_eq!(PasswordError::TooLong(128).error_code(), "IDENTITY_PASSWORD_TOO_LONG");
    assert_eq!(PasswordError::MissingSymbol.error_code(), "IDENTITY_PASSWORD_MISSING_SYMBOL");
    assert_eq!(PasswordError::TooShort(8).context(), Some(ErrorContext::MinLength(8)));
    assert_eq!(PasswordError::MissingNumber.context(), None);
}

#[test]
fn password_error_messages() {
    assert_eq!(PasswordError::Empty.message(), "Password cannot be empty");
    assert_eq!(PasswordError::TooShort(8).message(), "Password must be at least 8 characters");
    assert_eq!(PasswordError::TooShort(12).message(), "Password must be at least 12 characters");
    assert_eq!(
        PasswordError::TooLong(128).message(),
        "Password exceeds the maximum allowed length of 128 characters"
    );
    assert_eq!(PasswordError::MissingNumber.message(), "Password must contain at least one number");
}

#[test]
fn identity_error_wraps_password_error() {
    let e = IdentityError::from(PasswordError::Empty);
    assert_eq!(e, IdentityError::PasswordValidation(PasswordError::Empty));
    assert_eq!(e.message(), "Password invalid: Password cannot be empty");
    assert_eq!(e.error_code(), "IDENTITY_PASSWORD_EMPTY");
    assert_eq!(IdentityError::from(PasswordError::TooShort(8)).context(), Some(ErrorContext::MinLength(8)));
    assert_eq!(IdentityError::InvalidCredentials.error_code(), "AUTH_INVALID_CREDENTIALS");
    assert_eq!(IdentityError::InvalidCredentials.message(), "Invalid credentials provided.");
    assert_eq!(IdentityError::AccountNotFound.context(), None);
}

#[test]
fn secrets_are_redacted_in_debug_text() {
    let p = PlaintextPassword::from_str("Password123!").unwrap();
    assert_eq!(p.debug_text(), "PlaintextPassword(***REDACTED***)");
    let h = PasswordHash::new("$argon2id$v=19$secret".to_string());
    assert_eq!(h.as_str(), "$argon2id$v=19$secret");
    assert_eq!(h.debug_text(), "PasswordHash(***REDACTED***)");
}
