use form_fields::field_props::Props;
use form_fields::tag_options::TagOptions;

#[test]
fn new_str() {
    let p = Props::new_value(Some("v"));
    let default = Props {
        value: Some("v".to_owned()),
        ..Default::default()
    };
    assert_eq!(default.value, p.value);
}

#[test]
fn new_string() {
    let p = Props::new_value(Some("v".to_owned()));
    let default = Props {
        value: Some("v".to_owned()),
        ..Default::default()
    };
    assert_eq!(default.value, p.value);
}

fn same(a: &Props, b: &Props) -> bool {
    a.value == b.value
        && a.id == b.id
        && a.hint == b.hint
        && a.required == b.required
        && a.placeholder == b.placeholder
        && a.error == b.error
}

#[test]
fn props_new_value_none() {
    let p = Props::new_value(None::<&str>);

    assert!(same(&p, &Props::default()));
    assert_eq!(p.value, None);
}

#[test]
fn props_default_is_empty() {
    let p = Props::default();

    assert_eq!(p.value, None);
    assert_eq!(p.id, None);
    assert_eq!(p.hint, None);
    assert!(!p.required);
    assert_eq!(p.placeholder, None);
    assert_eq!(p.error, None);
}

#[test]
fn props_each_setter_changes_one_field() {
    let base = Props {
        value: Some("v".to_owned()),
        id: Some("i".to_owned()),
        hint: Some("h".to_owned()),
        required: false,
        placeholder: Some("p".to_owned()),
        error: Some("e".to_owned()),
    };

    let expected = Props { value: Some("v2".to_owned()), ..base.clone() };
    assert!(same(&base.clone().value("v2"), &expected));

    let expected = Props { id: Some("i2".to_owned()), ..base.clone() };
    assert!(same(&base.clone().id("i2"), &expected));

    let expected = Props { hint: Some("h2".to_owned()), ..base.clone() };
    assert!(same(&base.clone().hint("h2"), &expected));

    let expected = Props { placeholder: Some("p2".to_owned()), ..base.clone() };
    assert!(same(&base.clone().placeholder("p2"), &expected));

    let expected = Props { required: true, ..base.clone() };
    assert!(same(&base.clone().required(), &expected));
}

#[test]
fn props_chain() {
    let p = Props::default().value("1").id("my_id").hint("indice").placeholder("ph").required();
    let expected = Props {
        value: Some("1".to_owned()),
        id: Some("my_id".to_owned()),
        hint: Some("indice".to_owned()),
        required: true,
        placeholder: Some("ph".to_owned()),
        error: None,
    };

    assert!(same(&p, &expected));
}

#[test]
fn props_blank_value_is_kept() {
    let p = Props::default().value("").required();

    assert_eq!(p.value, Some(String::new()));
    assert!(p.required);
}

#[test]
fn tag_options_setters() {
    let t = TagOptions::new();
    assert_eq!(t.id, None);
    assert_eq!(t.placeholder, None);
    assert_eq!(t.hint, None);
    assert!(!t.required);

    let t = t.id("my_id");
    assert_eq!(t.id, Some("my_id".to_owned()));
    assert_eq!(t.placeholder, None);
    assert_eq!(t.hint, None);
    assert!(!t.required);

    let t = t.placeholder("ph").hint("indice").required();
    assert_eq!(t.id, Some("my_id".to_owned()));
    assert_eq!(t.placeholder, Some("ph".to_owned()));
    assert_eq!(t.hint, Some("indice".to_owned()));
    assert!(t.required);
}

#[test]
fn tag_options_default_is_new() {
    let t = TagOptions::default();

    assert_eq!(t.id, None);
    assert_eq!(t.placeholder, None);
    assert_eq!(t.hint, None);
    assert!(!t.required);
}
