//! Options seen as an id and a value.

use vstd::prelude::*;

verus! {

/// A value that has an id and a display value.
pub trait IdValue {
    /// The id.
    fn id(&self) -> String;

    /// The display value.
    fn value(&self) -> String;
}

/// A value that can build the option it stands for.
pub trait KVBuilderInterface {
    /// The option that the value stands for.
    fn get_kv(&self) -> KeyValue;

    /// The same option, boxed.
    fn get_kv_box(&self) -> (out: Box<KeyValue>)
        ensures
            call_ensures(Self::get_kv, (self,), *out),
    {
        Box::new(self.get_kv())
    }
}

/// One option: its key and its display text.
#[derive(Debug)]
pub struct KeyValue {
    pub key: String,
    pub value: String,
}

impl Clone for KeyValue {
    fn clone(&self) -> (out: KeyValue)
        ensures
            out == *self,
    {
        KeyValue { key: self.key.clone(), value: self.value.clone() }
    }
}

impl IdValue for KeyValue {
    fn id(&self) -> (out: String)
        ensures
            out@ == self.key@,
    {
        self.key.clone()
    }

    fn value(&self) -> (out: String)
        ensures
            out@ == self.value@,
    {
        self.value.clone()
    }
}

} // verus!
