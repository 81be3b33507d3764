use base64::Engine;
use paastel::basic_auth::{decode, is_valid, letter_and_numbers, BasicAuthError, PasswordEncoded};

#[test]
fn decode_splits_user_and_password() {
    let input = base64::engine::general_purpose::STANDARD.encode("user:pass");
    let (user, password) = decode(&input).unwrap();
    assert_eq!(user, "user");
    assert_eq!(password.as_deref(), Some("pass"));
}

#[test]
fn decode_without_colon_has_no_password() {
    let input = base64::engine::general_purpose::STANDARD.encode("nocolon");
    let (user, password) = decode(&input).unwrap();
    assert_eq!(user, "nocolon");
    assert!(password.is_none());
}

#[test]
fn decode_splits_at_first_colon_only() {
    let input = base64::engine::general_purpose::STANDARD.encode("user:pa:ss");
    let (user, password) = decode(&input).unwrap();
    assert_eq!(user, "user");
    assert_eq!(password.as_deref(), Some("pa:ss"));
}

#[test]
fn decode_rejects_bad_base64() {
    assert_eq!(decode("!!!").unwrap_err(), BasicAuthError::InvalidBase64);
}

#[test]
fn decode_rejects_invalid_utf8() {
    let input = base64::engine::general_purpose::STANDARD.encode([0xff, 0xfe, 0xfd]);
    assert_eq!(decode(&input).unwrap_err(), BasicAuthError::InvalidUtf8);
}

#[test]
fn password_encoded_decodes_to_cleartext() {
    let input = base64::engine::general_purpose::STANDARD.encode("sup3rs3cret");
    let encoded = PasswordEncoded::new(input.clone());
    assert_eq!(encoded.as_str(), input);
    let decoded = encoded.decode().unwrap();
    assert_eq!(decoded.show_sensitive(), "sup3rs3cret");
    assert_eq!(decoded.masked(), "*******");
}

#[test]
fn password_encoded_rejects_bad_input() {
    let encoded = PasswordEncoded::new("***".to_string());
    assert_eq!(encoded.decode().unwrap_err(), BasicAuthError::InvalidBase64);
}

#[test]
fn show_sensitive() {
    let decoded = paastel::basic_auth::PasswordDecoded::new("cleartext1".to_string());
    assert_eq!(decoded.show_sensitive(), "cleartext1");
}

#[test]
fn is_valid_needs_letter_and_digit() {
    assert!(is_valid("abc123"));
    assert!(!is_valid("abcdef"));
    assert!(!is_valid("123456"));
    assert!(!is_valid(""));
}

#[test]
fn letter_and_numbers_message() {
    assert!(letter_and_numbers("abc123").is_ok());
    assert_eq!(
        letter_and_numbers("letters").unwrap_err(),
        "Password needs to have at least 1 letter and 1 number."
    );
}
