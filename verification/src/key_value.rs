//! Key and display text of one selectable option.

use vstd::prelude::*;
use vstd::string::*;

verus! {

/// A source of options: any value that can give its key and its display text.
pub trait KeyValueInterface {
    /// The option that the value stands for.
    fn to_kv(&self) -> KeyValue;
}

/// One selectable option: the key that is submitted and the text that is
/// shown.
#[derive(Debug)]
pub struct KeyValue {
    pub key: String,
    pub value: String,
}

impl View for KeyValue {
    type V = (Seq<char>, Seq<char>);

    open spec fn view(&self) -> (Seq<char>, Seq<char>) {
        (self.key@, self.value@)
    }
}

impl Clone for KeyValue {
    fn clone(&self) -> (out: KeyValue)
        ensures
            out == *self,
    {
        KeyValue { key: self.key.clone(), value: self.value.clone() }
    }
}

impl KeyValue {
    /// The option whose key and display text are `key` and `value` as they
    /// are displayed.
    pub fn new<K, V>(key: K, value: V) -> (out: KeyValue) where K: std::fmt::Display, V: std::fmt::Display
        ensures
            to_string_from_display_ensures::<K>(&key, out.key),
            to_string_from_display_ensures::<V>(&value, out.value),
    {
        KeyValue { key: key.to_string(), value: value.to_string() }
    }

    /// The option with the key `key`, as it is displayed, and no display text.
    pub fn new_key<K>(key: K) -> (out: KeyValue) where K: std::fmt::Display
        ensures
            to_string_from_display_ensures::<K>(&key, out.key),
            out.value@ == Seq::<char>::empty(),
    {
        KeyValue { key: key.to_string(), value: String::new() }
    }
}

impl KeyValueInterface for KeyValue {
    fn to_kv(&self) -> (out: KeyValue)
        ensures
            out == *self,
    {
        self.clone()
    }
}

} // verus!
