use paastel::namespace::Namespace;

#[test]
fn namespace_default() {
    let namespace = Namespace::default();
    assert_eq!(namespace.as_str(), "workspace");
}

#[test]
fn namespace_display() {
    let namespace = Namespace::new("example".to_string());
    let display_format = namespace.display_text();
    assert_eq!(display_format.trim(), "example");
}

#[test]
fn namespace_from_string() {
    let input = "custom_namespace".to_string();
    let namespace: Namespace = input.clone().into();
    assert_eq!(namespace.as_str(), "custom_namespace");
}

#[test]
fn namespace_as_ref() {
    let namespace = Namespace::new("direct_reference".to_string());
    assert_eq!(namespace.as_str(), "direct_reference");
}

#[test]
fn namespace_equality_and_clone() {
    let a = Namespace::new("scope".to_string());
    let b = a.clone();
    assert_eq!(a, b);
    assert!(a != Namespace::new("other".to_string()));
}
