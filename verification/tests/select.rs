use form_fields::error::FieldErrors;
use form_fields::field_props::Props;
use form_fields::key_value::{KeyValue, KeyValueInterface};
use form_fields::markup::Render;
use form_fields::select::{option_matches, Select};

struct Toto {
    id: i32,
    code: String,
}

impl Toto {
    fn new(id: i32, code: &str) -> Self {
        Self {
            id,
            code: code.to_owned(),
        }
    }
}

impl KeyValueInterface for Toto {
    fn to_kv(&self) -> KeyValue {
        KeyValue {
            key: self.id.to_string(),
            value: self.code.clone(),
        }
    }
}

#[test]
fn select_option() {
    let select = Select::simple("", "", &vec![Toto::new(1, "")]);
    let matching_selection = select.checked_option(Some("toto"), "toto");
    let none_matching_selection = select.checked_option(Some("toto".to_string()), "titi");

    assert!(matching_selection);
    assert!(!none_matching_selection);
}

#[test]
fn select_tag_with_no_selected() {
    let items = vec![Toto::new(1, "A"), Toto::new(2, "B")];

    let with_selected_option = Select::simple("mon_select", "choisir", &items)
        .class("mb-4")
        .render();

    assert_eq!(
        with_selected_option.into_string(),
        r#"<div class="form-floating mb-4"><select name="mon_select" class="form-select"><option value="1">A</option><option value="2">B</option></select><label>choisir</label></div>"#
    );
}

#[test]
fn select_tag_with_selected() {
    let items = vec![Toto::new(1, "A"), Toto::new(2, "B")];

    let with_selected_option = Select::simple("mon_select", "choisir", &items)
        .props(Props::default().value("2"))
        .render();

    assert_eq!(
        with_selected_option.into_string(),
        r#"<div class="form-floating"><select name="mon_select" class="form-select"><option value="1">A</option><option value="2" selected>B</option></select><label>choisir</label></div>"#
    );
}

#[test]
fn select_tag_with_string() {
    let items = vec![KeyValue::new("1", "A"), KeyValue::new("2", "B")];

    let with_selected_option = Select::new_kv("mon_select", "choisir", &items)
        .props(Props::default().value("2").id("my_id"))
        .class("c")
        .render();

    assert_eq!(
        with_selected_option.into_string(),
        r#"<div class="form-floating c"><select name="mon_select" class="form-select" id="my_id"><option value="1">A</option><option value="2" selected>B</option></select><label>choisir</label></div>"#
    );
}

#[test]
fn select_error() {
    let mut validation = validator::ValidationErrors::new();
    validation.add("id", validator::ValidationError::new("range"));

    let select = Select::simple("id", "", &vec![Toto::new(1, "")]).errors(&validation);

    assert_eq!(
        select.render().into_string(),
        r#"<div class="form-floating"><select name="id" class="form-select is-invalid"><option value="1"></option></select><label></label></div>"#
    )
}

#[test]
fn select_report_without_the_field_leaves_it_valid() {
    let mut validation = validator::ValidationErrors::new();
    validation.add("code", validator::ValidationError::new("length"));

    let select = Select::simple("id", "", &vec![Toto::new(1, "")]).errors(&validation);

    assert_eq!(
        select.render().into_string(),
        r#"<div class="form-floating"><select name="id" class="form-select"><option value="1"></option></select><label></label></div>"#
    )
}

#[test]
fn option_matching_rule() {
    assert!(!option_matches(None, "toto"));
    assert!(!option_matches(None, ""));
    assert!(option_matches(Some("toto"), "toto"));
    assert!(option_matches(Some(""), ""));
    assert!(!option_matches(Some("toto"), "titi"));
    assert!(!option_matches(Some("toto"), "Toto"));
    assert!(!option_matches(Some("toto"), " toto"));
    assert!(!option_matches(Some("toto"), "tot"));
}

#[test]
fn checked_option_without_reference() {
    let select = Select::new_kv("", "", &[]);

    assert!(!select.checked_option(None::<&str>, "toto"));
    assert!(!select.checked_option(None::<String>, ""));
}

#[test]
fn select_value_matching_no_option() {
    let items = vec![KeyValue::new("1", "A"), KeyValue::new("2", "B")];

    let select = Select::new_kv("s", "l", &items).props(Props::default().value("3"));

    assert_eq!(
        select.render().into_string(),
        r#"<div class="form-floating"><select name="s" class="form-select"><option value="1">A</option><option value="2">B</option></select><label>l</label></div>"#
    );
}

#[test]
fn select_equal_keys_are_selected_together() {
    let items = vec![
        KeyValue::new("2", "B"),
        KeyValue::new("1", "A"),
        KeyValue::new("2", "B again"),
    ];

    let select = Select::new_kv("s", "l", &items).props(Props::default().value("2"));

    assert_eq!(
        select.render().into_string(),
        r#"<div class="form-floating"><select name="s" class="form-select"><option value="2" selected>B</option><option value="1">A</option><option value="2" selected>B again</option></select><label>l</label></div>"#
    );
}

#[test]
fn select_without_options() {
    let select = Select::new_kv("s", "l", &[]);

    assert_eq!(
        select.render().into_string(),
        r#"<div class="form-floating"><select name="s" class="form-select"></select><label>l</label></div>"#
    );
}

#[test]
fn select_options_are_escaped() {
    let items = vec![KeyValue::new("a\"b", "x < y & z")];

    let select = Select::new_kv("s", "l", &items).props(Props::default().value("a\"b"));

    assert_eq!(
        select.render().into_string(),
        r#"<div class="form-floating"><select name="s" class="form-select"><option value="a&quot;b" selected>x &lt; y &amp; z</option></select><label>l</label></div>"#
    );
}

#[test]
fn select_hint_and_message() {
    let items = vec![KeyValue::new("1", "A")];
    let mut registry = FieldErrors::new("");
    registry.set("s", "pick one");

    let select = Select::new_kv("s", "l", &items)
        .props(Props::default().hint("indice"))
        .with_errors(&registry);

    assert_eq!(
        select.render().into_string(),
        r#"<div class="form-floating"><select name="s" class="form-select is-invalid"><option value="1">A</option></select><label>l</label><div class="form-text">indice</div><div class="invalid-feedback">pick one</div></div>"#
    );
}

#[test]
fn select_class_twice_stands_twice() {
    let select = Select::new_kv("s", "l", &[]).class("c").class("c");

    assert_eq!(
        select.render().into_string(),
        r#"<div class="form-floating c c"><select name="s" class="form-select"></select><label>l</label></div>"#
    );
}
