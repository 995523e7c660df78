use form_fields::error::FieldErrors;

#[test]
fn test_default() {
    let mut errors = FieldErrors::default();
    errors.set("un", "my_error");
    errors.set_default("deux");

    assert_eq!(errors.get("un"), Some("my_error".to_owned()));
    assert_eq!(errors.get("deux"), None);
    assert!(errors.has("deux"));
    assert_eq!(errors.default_value(), "valeur incorrecte");
}

#[test]
fn test_new() {
    let mut errors = FieldErrors::new("bad");
    errors.set("un", "my_error");
    errors.set_default("deux");

    assert_eq!(errors.get("un"), Some("my_error".to_owned()));
    assert_eq!(errors.get("deux"), None);
    assert!(errors.has("deux"));
    assert_eq!(errors.default_value(), "bad");
}

#[test]
fn registry_starts_empty() {
    let errors = FieldErrors::new("bad");

    assert!(errors.is_ok());
    assert!(!errors.has("un"));
    assert_eq!(errors.get("un"), None);
    assert_eq!(errors.state_of("un"), None);
}

#[test]
fn registry_mark_without_message() {
    let mut errors = FieldErrors::new("");
    errors.set_default("name");

    assert!(errors.has("name"));
    assert_eq!(errors.get("name"), None);
    assert_eq!(errors.state_of("name"), Some(String::new()));
    assert!(!errors.is_ok());
}

#[test]
fn registry_mark_without_message_whatever_the_default() {
    let mut errors = FieldErrors::default();
    errors.set_default("name");

    assert!(errors.has("name"));
    assert_eq!(errors.get("name"), None);
    assert_eq!(errors.state_of("name"), Some(String::new()));
    assert!(!errors.has("other"));
    assert!(!errors.is_ok());
}

#[test]
fn registry_mark_without_message_replaces_a_message() {
    let mut errors = FieldErrors::new("bad");
    errors.set("name", "too short");
    errors.set("other", "kept");
    errors.set_default("name");

    assert!(errors.has("name"));
    assert_eq!(errors.get("name"), None);
    assert_eq!(errors.state_of("name"), Some(String::new()));
    assert_eq!(errors.get("other"), Some("kept".to_owned()));
}

#[test]
fn registry_mark_with_message() {
    let mut errors = FieldErrors::new("");
    errors.set("name", "too short");

    assert!(errors.has("name"));
    assert_eq!(errors.get("name"), Some("too short".to_owned()));
    assert!(!errors.has("other"));
    assert_eq!(errors.get("other"), None);
    assert!(!errors.is_ok());
}

#[test]
fn registry_empty_message_is_no_message() {
    let mut errors = FieldErrors::default();
    errors.set("name", "");

    assert!(errors.has("name"));
    assert_eq!(errors.get("name"), None);
}

#[test]
fn registry_remark_overwrites() {
    let mut errors = FieldErrors::new("bad");
    errors.set("name", "first");
    errors.set("other", "kept");
    errors.set("name", "second");

    assert_eq!(errors.get("name"), Some("second".to_owned()));
    assert_eq!(errors.get("other"), Some("kept".to_owned()));

    errors.set_default("name");
    assert_eq!(errors.get("name"), None);
    assert!(errors.has("name"));
    assert_eq!(errors.get("other"), Some("kept".to_owned()));

    errors.set("name", "third");
    assert_eq!(errors.get("name"), Some("third".to_owned()));
}

#[test]
fn registry_keys_are_exact() {
    let mut errors = FieldErrors::new("bad");
    errors.set_default("Name");

    assert!(errors.has("Name"));
    assert!(!errors.has("name"));
    assert!(!errors.has("Name "));
    assert!(!errors.has(""));
}

#[test]
fn registry_clone_is_a_snapshot() {
    let mut errors = FieldErrors::new("bad");
    errors.set("un", "my_error");
    let snapshot = errors.clone();
    errors.set("deux", "later");

    assert!(snapshot.has("un"));
    assert!(!snapshot.has("deux"));
    assert_eq!(snapshot.default_value(), "bad");
    assert_eq!(snapshot.get("un"), Some("my_error".to_owned()));
    assert!(errors.has("deux"));
}
