use paastel::domain::{RetrievePassword, SecretLabel};
use paastel::hash::Argon2Adapter;
use paastel::mapper::{KubeSecret, KubernetesMapper};
use paastel::port::{OutgoingArgon2HashPort, OutgoingKubernetesPort, PortError};
use paastel::store::InMemorySecretStore;

fn record(
    name: Option<&str>,
    labels: Vec<(&str, &str)>,
    data: Option<Vec<(&str, &str)>>,
) -> KubeSecret {
    KubeSecret::new(
        name.map(|n| n.to_string()),
        labels
            .into_iter()
            .map(|(k, v)| (k.to_string(), v.to_string()))
            .collect(),
        data.map(|d| {
            d.into_iter()
                .map(|(k, v)| (k.to_string(), v.to_string()))
                .collect()
        }),
    )
}

#[test]
fn mapper_keeps_valid_records_in_order() {
    let mapper = KubernetesMapper::new();
    let records = vec![
        record(
            Some("a"),
            vec![],
            Some(vec![("username", "alice"), ("password", "ha")]),
        ),
        record(
            Some("b"),
            vec![],
            Some(vec![("username", "bobby"), ("password", "hb")]),
        ),
    ];
    let secrets = mapper.list_secrets_to_domain(&records);
    assert_eq!(secrets.len(), 2);
    assert_eq!(secrets.get(0).username().as_str(), "alice");
    assert_eq!(secrets.get(1).username().as_str(), "bobby");
}

#[test]
fn mapper_drops_malformed_records() {
    let mapper = KubernetesMapper::new();
    let records = vec![
        // no payload at all
        record(Some("a"), vec![], None),
        // no object name
        record(None, vec![], Some(vec![("username", "alice"), ("password", "h")])),
        // username field missing
        record(Some("c"), vec![], Some(vec![("password", "h")])),
        // password field missing
        record(Some("d"), vec![], Some(vec![("username", "alice")])),
        // username too short for the domain
        record(Some("e"), vec![], Some(vec![("username", "ab"), ("password", "h")])),
        // stored hash blank
        record(Some("f"), vec![], Some(vec![("username", "alice"), ("password", "  ")])),
        // the one well-formed record
        record(Some("g"), vec![], Some(vec![("username", "carol"), ("password", "hc")])),
    ];
    let secrets = mapper.list_secrets_to_domain(&records);
    assert_eq!(secrets.len(), 1);
    assert_eq!(secrets.get(0).username().as_str(), "carol");
}

#[test]
fn mapper_takes_first_occurrence_of_a_field() {
    let mapper = KubernetesMapper::new();
    let records = vec![record(
        Some("a"),
        vec![],
        Some(vec![
            ("username", "alice"),
            ("password", "first"),
            ("password", "second"),
        ]),
    )];
    let secrets = mapper.list_secrets_to_domain(&records);
    assert_eq!(secrets.len(), 1);
    assert_eq!(secrets.get(0).password().as_str(), "first");
}

#[test]
fn store_filters_by_label() {
    let matching = record(
        Some("a"),
        vec![("paastel.io/api-user-credentials", "true")],
        Some(vec![("username", "alice"), ("password", "ha")]),
    );
    let other_value = record(
        Some("b"),
        vec![("paastel.io/api-user-credentials", "false")],
        Some(vec![("username", "bobby"), ("password", "hb")]),
    );
    let unlabeled = record(
        Some("c"),
        vec![],
        Some(vec![("username", "carol"), ("password", "hc")]),
    );
    let store = InMemorySecretStore::new(vec![matching, other_value, unlabeled], true);
    let found = store
        .find_secrets_by_label(&SecretLabel::default())
        .unwrap();
    assert_eq!(found.len(), 1);
    assert_eq!(found.get(0).username().as_str(), "alice");
}

#[test]
fn store_unavailable_reports_port_error() {
    let store = InMemorySecretStore::new(vec![], false);
    assert_eq!(
        store
            .find_secrets_by_label(&SecretLabel::default())
            .unwrap_err(),
        PortError::Unavailable
    );
}

#[test]
fn argon2_hash_then_verify() {
    let adapter = Argon2Adapter::new();
    let hash = adapter.hash_password("password123").unwrap();
    // A real PHC string, not the password handed back.
    assert!(hash.starts_with("$argon2"));
    let password = paastel::domain::Password::parse("password123").unwrap();
    let wrong = paastel::domain::Password::parse("wrongpass").unwrap();
    let stored = paastel::domain::PasswordHash::parse(&hash).unwrap();
    assert!(adapter.check(&password, &stored).is_ok());
    assert_eq!(
        adapter.check(&wrong, &stored).unwrap_err(),
        PortError::Mismatch
    );
}

#[test]
fn argon2_malformed_hash_is_mismatch() {
    let adapter = Argon2Adapter::new();
    let password = paastel::domain::Password::parse("password123").unwrap();
    let malformed = paastel::domain::PasswordHash::parse("not-a-phc-string").unwrap();
    assert_eq!(
        adapter.check(&password, &malformed).unwrap_err(),
        PortError::Mismatch
    );
}
