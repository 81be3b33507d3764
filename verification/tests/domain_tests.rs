use paastel::domain::{
    Credential, Password, PasswordHash, RetrievePassword, SecretLabel, UserSecret, UserSecrets,
    Username, ValidationError, MAX_PASSWORD_LENGTH, MAX_USERNAME_LENGTH,
};

#[test]
fn test_username_success() {
    let username = Username::parse("validUser").unwrap();
    assert_eq!(username.as_str(), "validUser");
}

#[test]
fn test_username_empty() {
    let result = Username::parse("");
    assert!(result.is_err());
}

#[test]
fn test_username_too_short() {
    let result = Username::parse("ab");
    assert!(result.is_err());
}

#[test]
fn test_username_too_long() {
    let result = Username::parse("a".repeat(MAX_USERNAME_LENGTH + 1).as_str());
    assert!(result.is_err());
}

#[test]
fn test_password_success() {
    let password = Password::parse("validPass123").unwrap();
    assert_eq!(password.as_str(), "validPass123");
}

#[test]
fn test_password_empty() {
    let result = Password::parse("");
    assert!(result.is_err());
}

#[test]
fn test_password_too_short() {
    let result = Password::parse("12345");
    assert!(result.is_err());
}

#[test]
fn test_password_too_long() {
    let result = Password::parse("a".repeat(MAX_PASSWORD_LENGTH + 1).as_str());
    assert!(result.is_err());
}

#[test]
fn test_credential_success() {
    let credential = Credential::new("validUser", "validPass123").unwrap();
    assert_eq!(credential.username().as_str(), "validUser");
    assert_eq!(credential.password().as_str(), "validPass123");
}

#[test]
fn test_credential_invalid_username() {
    let result = Credential::new("ab", "validPass123");
    assert!(result.is_err());
}

#[test]
fn test_credential_invalid_password() {
    let result = Credential::new("validUser", "12345");
    assert!(result.is_err());
}

#[test]
fn username_round_trips_trimmed_text() {
    let username = Username::parse("  Alice  ").unwrap();
    assert_eq!(username.as_str(), "Alice");
}

#[test]
fn username_trims_unicode_whitespace() {
    let username = Username::parse("\u{3000}carol\t\n").unwrap();
    assert_eq!(username.as_str(), "carol");
}

#[test]
fn username_bounds_are_inclusive() {
    assert_eq!(Username::parse("abc").unwrap().as_str(), "abc");
    let longest = "a".repeat(MAX_USERNAME_LENGTH);
    assert_eq!(Username::parse(longest.as_str()).unwrap().as_str(), longest);
}

#[test]
fn username_whitespace_only_is_empty_value() {
    assert_eq!(
        Username::parse("   \t ").unwrap_err(),
        ValidationError::EmptyValue
    );
}

#[test]
fn username_length_error_carries_witness() {
    assert_eq!(
        Username::parse(" ab ").unwrap_err(),
        ValidationError::LengthOutOfRange {
            min: 3,
            max: 30,
            actual: 2
        }
    );
}

#[test]
fn password_length_error_carries_witness() {
    assert_eq!(
        Password::parse("12345").unwrap_err(),
        ValidationError::LengthOutOfRange {
            min: 6,
            max: 20,
            actual: 5
        }
    );
}

#[test]
fn password_whitespace_only_is_empty_value() {
    assert_eq!(
        Password::parse(" \n ").unwrap_err(),
        ValidationError::EmptyValue
    );
}

#[test]
fn password_masked_is_fixed() {
    let password = Password::parse("validPass123").unwrap();
    assert_eq!(password.masked(), "**********");
}

#[test]
fn password_hash_empty_is_rejected() {
    assert_eq!(
        PasswordHash::parse("").unwrap_err(),
        ValidationError::EmptyValue
    );
    assert_eq!(
        PasswordHash::parse("  \t").unwrap_err(),
        ValidationError::EmptyValue
    );
}

#[test]
fn password_hash_keeps_raw_text() {
    let hash = PasswordHash::parse(" $x$ ").unwrap();
    assert_eq!(hash.as_str(), " $x$ ");
}

#[test]
fn secret_label_rejects_blank_parts() {
    assert_eq!(
        SecretLabel::new("", "true").unwrap_err(),
        ValidationError::EmptyValue
    );
    assert_eq!(
        SecretLabel::new("app", "  ").unwrap_err(),
        ValidationError::EmptyValue
    );
}

#[test]
fn secret_label_accessors() {
    let label = SecretLabel::new("app", "demo").unwrap();
    assert_eq!(label.key().as_str(), "app");
    assert_eq!(label.value().as_str(), "demo");
}

#[test]
fn secret_label_default_selector() {
    let label = SecretLabel::default();
    assert_eq!(label.key().as_str(), "paastel.io/api-user-credentials");
    assert_eq!(label.value().as_str(), "true");
}

#[test]
fn user_secret_accessors() {
    let username = Username::parse("admin").unwrap();
    let hash = PasswordHash::parse("stored-hash").unwrap();
    let secret = UserSecret::new(username, hash);
    assert_eq!(secret.username().as_str(), "admin");
    assert_eq!(secret.password().as_str(), "stored-hash");
}

#[test]
fn user_secrets_collection() {
    let a = UserSecret::new(
        Username::parse("alice").unwrap(),
        PasswordHash::parse("ha").unwrap(),
    );
    let b = UserSecret::new(
        Username::parse("bobby").unwrap(),
        PasswordHash::parse("hb").unwrap(),
    );
    let mut secrets = UserSecrets::new(vec![a, b]);
    assert_eq!(secrets.len(), 2);
    assert!(!secrets.is_empty());
    assert_eq!(secrets.get(0).username().as_str(), "alice");
    assert_eq!(secrets.get(1).username().as_str(), "bobby");
    let taken = secrets.remove(0);
    assert_eq!(taken.username().as_str(), "alice");
    assert_eq!(secrets.len(), 1);
    assert_eq!(secrets.get(0).username().as_str(), "bobby");
}
