use paastel::domain::{Credential, RetrievePassword, SecretLabel};
use paastel::hash::{Argon2Adapter, FixedVerifier};
use paastel::mapper::KubeSecret;
use paastel::port::OutgoingKubernetesPort;
use paastel::service::{AuthError, AuthService};
use paastel::store::InMemorySecretStore;

fn default_label_pair() -> (String, String) {
    (
        "paastel.io/api-user-credentials".to_string(),
        "true".to_string(),
    )
}

fn identity_record(name: &str, username: &str, hash: &str) -> KubeSecret {
    KubeSecret::new(
        Some(name.to_string()),
        vec![default_label_pair()],
        Some(vec![
            ("username".to_string(), username.to_string()),
            ("password".to_string(), hash.to_string()),
        ]),
    )
}

#[test]
fn scenario_success() {
    let hasher = Argon2Adapter::new();
    let hash = hasher.hash_password("password123").unwrap();
    let store = InMemorySecretStore::new(vec![identity_record("s1", "admin", &hash)], true);
    let service = AuthService::new(store, Argon2Adapter::new(), SecretLabel::default());
    let credential = Credential::new("admin", "password123").unwrap();
    let secret = service.validate_credential(&credential).unwrap();
    assert_eq!(secret.username().as_str(), "admin");
    assert_eq!(secret.password().as_str(), hash.as_str());
}

#[test]
fn scenario_wrong_password() {
    let hasher = Argon2Adapter::new();
    let hash = hasher.hash_password("password123").unwrap();
    let store = InMemorySecretStore::new(vec![identity_record("s1", "admin", &hash)], true);
    let service = AuthService::new(store, Argon2Adapter::new(), SecretLabel::default());
    let credential = Credential::new("admin", "wrongpass").unwrap();
    assert_eq!(
        service.validate_credential(&credential).unwrap_err(),
        AuthError::InvalidCredential
    );
}

#[test]
fn scenario_unknown_user() {
    let hasher = Argon2Adapter::new();
    let hash = hasher.hash_password("password123").unwrap();
    let store = InMemorySecretStore::new(vec![identity_record("s1", "admin", &hash)], true);
    let service = AuthService::new(store, Argon2Adapter::new(), SecretLabel::default());
    let credential = Credential::new("nobody", "password123").unwrap();
    assert_eq!(
        service.validate_credential(&credential).unwrap_err(),
        AuthError::UserNotFound
    );
}

#[test]
fn scenario_backend_down() {
    let store = InMemorySecretStore::new(vec![identity_record("s1", "admin", "hash")], false);
    // A verifier that would accept anything: were it consulted at all, the
    // outcome below could not be BackendUnavailable.
    let service = AuthService::new(store, FixedVerifier::new(true), SecretLabel::default());
    let credential = Credential::new("admin", "password123").unwrap();
    assert_eq!(
        service.validate_credential(&credential).unwrap_err(),
        AuthError::BackendUnavailable
    );
}

#[test]
fn scenario_malformed_record_skipped() {
    let hasher = Argon2Adapter::new();
    let hash = hasher.hash_password("password123").unwrap();
    let missing_password = KubeSecret::new(
        Some("broken".to_string()),
        vec![default_label_pair()],
        Some(vec![("username".to_string(), "ghosty".to_string())]),
    );
    let store = InMemorySecretStore::new(
        vec![missing_password, identity_record("s1", "admin", &hash)],
        true,
    );
    let label = SecretLabel::default();
    let found = store.find_secrets_by_label(&label).unwrap();
    assert_eq!(found.len(), 1);
    assert_eq!(found.get(0).username().as_str(), "admin");
    let service = AuthService::new(store, Argon2Adapter::new(), SecretLabel::default());
    let credential = Credential::new("admin", "password123").unwrap();
    let secret = service.validate_credential(&credential).unwrap();
    assert_eq!(secret.username().as_str(), "admin");
}

#[test]
fn idempotence_same_inputs_same_outcome() {
    let hasher = Argon2Adapter::new();
    let hash = hasher.hash_password("password123").unwrap();
    let store = InMemorySecretStore::new(vec![identity_record("s1", "admin", &hash)], true);
    let service = AuthService::new(store, Argon2Adapter::new(), SecretLabel::default());
    let credential = Credential::new("admin", "password123").unwrap();
    let first = service.validate_credential(&credential);
    let second = service.validate_credential(&credential);
    match (first, second) {
        (Ok(a), Ok(b)) => {
            assert_eq!(a.username().as_str(), b.username().as_str());
            assert_eq!(a.password().as_str(), b.password().as_str());
        }
        (a, b) => panic!("outcomes differ or failed: {a:?} {b:?}"),
    }
    let wrong = Credential::new("admin", "wrongpass").unwrap();
    assert_eq!(
        service.validate_credential(&wrong).unwrap_err(),
        service.validate_credential(&wrong).unwrap_err()
    );
}

#[test]
fn first_match_wins_on_duplicate_usernames() {
    let hasher = Argon2Adapter::new();
    let hash_first = hasher.hash_password("password123").unwrap();
    let hash_second = hasher.hash_password("otherpass").unwrap();
    let store = InMemorySecretStore::new(
        vec![
            identity_record("s1", "admin", &hash_first),
            identity_record("s2", "admin", &hash_second),
        ],
        true,
    );
    let service = AuthService::new(store, Argon2Adapter::new(), SecretLabel::default());
    let credential = Credential::new("admin", "password123").unwrap();
    let secret = service.validate_credential(&credential).unwrap();
    assert_eq!(secret.password().as_str(), hash_first.as_str());
    // The first record decides: the second record's password is a mismatch.
    let second = Credential::new("admin", "otherpass").unwrap();
    assert_eq!(
        service.validate_credential(&second).unwrap_err(),
        AuthError::InvalidCredential
    );
}

#[test]
fn auth_service_ok() {
    let store = InMemorySecretStore::new(
        vec![identity_record("secret_name", "username", "password_hashed")],
        true,
    );
    let service = AuthService::new(store, FixedVerifier::new(true), SecretLabel::default());
    let credential = Credential::new("username", "password_text").unwrap();
    let result = service.validate_credential(&credential);
    assert!(result.is_ok());
}

#[test]
fn auth_service() {
    let store = InMemorySecretStore::new(
        vec![identity_record("secret_name", "admin", "password")],
        true,
    );
    let service = AuthService::new(store, FixedVerifier::new(true), SecretLabel::default());
    let credential = Credential::new("admin", "password").unwrap();
    let _ = service.validate_credential(&credential);
}
