use form_fields::id_value::{IdValue, KVBuilderInterface};
use form_fields::key_value::{KeyValue, KeyValueInterface};

#[test]
fn constructor_str() {
    let kv = KeyValue::new("1", "un");

    assert_eq!(kv.key, "1");
}

#[test]
fn constructor_string() {
    let kv = KeyValue::new(String::from("1"), "un");

    assert_eq!(kv.key, "1");
}

#[test]
fn constructor_int() {
    let kv = KeyValue::new(1, "un");

    assert_eq!(kv.key, "1");
}

#[test]
fn constructor_keeps_the_display_text() {
    let kv = KeyValue::new("1", "un");

    assert_eq!(kv.value, "un");
}

#[test]
fn constructor_key_only() {
    let kv = KeyValue::new_key(12);

    assert_eq!(kv.key, "12");
    assert_eq!(kv.value, "");
}

#[test]
fn key_value_gives_itself() {
    let kv = KeyValue::new("1", "un").to_kv();

    assert_eq!(kv.key, "1");
    assert_eq!(kv.value, "un");
}

struct Country {
    code: u32,
}

impl KVBuilderInterface for Country {
    fn get_kv(&self) -> form_fields::id_value::KeyValue {
        form_fields::id_value::KeyValue { key: self.code.to_string(), value: "c".to_owned() }
    }
}

#[test]
fn id_value_of_an_option() {
    let kv = form_fields::id_value::KeyValue { key: "k".to_owned(), value: "v".to_owned() };

    assert_eq!(kv.id(), "k");
    assert_eq!(kv.value(), "v");
}

#[test]
fn boxed_option_is_the_option() {
    let boxed = Country { code: 33 }.get_kv_box();

    assert_eq!(boxed.key, "33");
    assert_eq!(boxed.value, "c");
}
