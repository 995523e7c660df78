//! The registry of invalid fields and of the messages to show for them.

use vstd::prelude::*;
use crate::markup::text_of;

verus! {

/// What a registry holds: the message of each invalid field, empty for a
/// field that was marked without one, and the text that the registry was made
/// with for such fields. A field is invalid exactly when it is a key of
/// `messages`. The default text is never stored for a field.
pub ghost struct RegistryView {
    pub default_message: Seq<char>,
    pub messages: Map<Seq<char>, Seq<char>>,
}

impl RegistryView {
    /// True when `key` is marked invalid.
    pub open spec fn has(self, key: Seq<char>) -> bool {
        self.messages.dom().contains(key)
    }

    /// The message to show for `key`: that of an invalid field whose message
    /// is not empty.
    pub open spec fn get(self, key: Seq<char>) -> Option<Seq<char>> {
        if self.has(key) && self.messages[key].len() > 0 {
            Some(self.messages[key])
        } else {
            None
        }
    }

    /// True when no field is marked.
    pub open spec fn is_ok(self) -> bool {
        forall|key: Seq<char>| !self.has(key)
    }

    /// The registry after `key` was marked with `message`.
    pub open spec fn set(self, key: Seq<char>, message: Seq<char>) -> RegistryView {
        RegistryView { messages: self.messages.insert(key, message), ..self }
    }

    /// The registry after `key` was marked without a message: the field is
    /// invalid and its message is empty, whatever the registry's default text.
    pub open spec fn set_default(self, key: Seq<char>) -> RegistryView {
        self.set(key, Seq::empty())
    }

    /// What a widget keeps of the registry for the field `name`: nothing for a
    /// valid field, the message of an invalid one, empty where it has none.
    pub open spec fn state_of(self, name: Seq<char>) -> Option<Seq<char>> {
        if self.has(name) {
            Some(self.messages[name])
        } else {
            None
        }
    }
}

/// A registry is ok exactly when it holds no message.
pub proof fn lemma_ok_iff_unmarked(r: RegistryView)
    ensures
        r.is_ok() <==> r.messages =~= Map::<Seq<char>, Seq<char>>::empty(),
{
    if r.is_ok() {
        assert forall|key: Seq<char>| !r.messages.dom().contains(key) by {
            assert(!r.has(key));
        }
        assert(r.messages =~= Map::<Seq<char>, Seq<char>>::empty());
    }
}

/// A registry in which a field was marked, in either way, is not ok.
pub proof fn lemma_marked_is_not_ok(r: RegistryView, key: Seq<char>, message: Seq<char>)
    ensures
        !r.set(key, message).is_ok(),
        !r.set_default(key).is_ok(),
{
    assert(r.set(key, message).has(key));
    assert(r.set_default(key).has(key));
}

/// After a field is marked with a message, the registry has the field, and
/// gives the message back when it is not empty and nothing when it is.
pub proof fn lemma_set_then_get(r: RegistryView, key: Seq<char>, message: Seq<char>)
    ensures
        r.set(key, message).has(key),
        message.len() > 0 ==> r.set(key, message).get(key) == Some(message),
        message.len() == 0 ==> r.set(key, message).get(key) is None,
        r.set(key, message).state_of(key) == Some(message),
{
}

/// After a field is marked without a message, the registry has the field and
/// gives no message for it, whatever default text the registry was made with
/// and whatever the field held before. A widget keeps the empty message for
/// it.
pub proof fn lemma_set_default_then_get(r: RegistryView, key: Seq<char>)
    ensures
        r.set_default(key).has(key),
        r.set_default(key).get(key) is None,
        r.set_default(key).state_of(key) == Some(Seq::<char>::empty()),
        r.set_default(key).default_message == r.default_message,
{
}

/// Marking a field changes nothing for any other field.
pub proof fn lemma_set_leaves_others(
    r: RegistryView,
    key: Seq<char>,
    message: Seq<char>,
    other: Seq<char>,
)
    requires
        other != key,
    ensures
        r.set(key, message).has(other) == r.has(other),
        r.set(key, message).get(other) == r.get(other),
        r.set(key, message).state_of(other) == r.state_of(other),
        r.set_default(key).has(other) == r.has(other),
        r.set_default(key).get(other) == r.get(other),
        r.set_default(key).state_of(other) == r.state_of(other),
{
}

/// Marking a field again replaces its earlier mark.
pub proof fn lemma_set_overwrites(
    r: RegistryView,
    key: Seq<char>,
    first: Seq<char>,
    second: Seq<char>,
)
    ensures
        r.set(key, first).set(key, second) == r.set(key, second),
        r.set(key, first).set_default(key) == r.set_default(key),
        r.set_default(key).set(key, second) == r.set(key, second),
        r.set_default(key).set_default(key) == r.set_default(key),
{
    let none = Seq::<char>::empty();
    assert(r.messages.insert(key, first).insert(key, second) =~= r.messages.insert(key, second));
    assert(r.messages.insert(key, first).insert(key, none) =~= r.messages.insert(key, none));
    assert(r.messages.insert(key, none).insert(key, second) =~= r.messages.insert(key, second));
    assert(r.messages.insert(key, none).insert(key, none) =~= r.messages.insert(key, none));
}

/// The message of the first entry of `entries` whose key is `key`.
pub open spec fn lookup(entries: Seq<(String, String)>, key: Seq<char>) -> Option<Seq<char>>
    decreases entries.len(),
{
    if entries.len() == 0 {
        None
    } else if entries[0].0@ == key {
        Some(entries[0].1@)
    } else {
        lookup(entries.drop_first(), key)
    }
}

/// The map that a list of entries stands for.
pub open spec fn entries_map(entries: Seq<(String, String)>) -> Map<Seq<char>, Seq<char>> {
    Map::new(
        |key: Seq<char>| lookup(entries, key) is Some,
        |key: Seq<char>| lookup(entries, key)->0,
    )
}

proof fn lemma_lookup_absent(entries: Seq<(String, String)>, key: Seq<char>)
    requires
        forall|j: int| 0 <= j < entries.len() ==> (#[trigger] entries[j]).0@ != key,
    ensures
        lookup(entries, key) is None,
    decreases entries.len(),
{
    if entries.len() > 0 {
        let rest = entries.drop_first();
        assert forall|j: int| 0 <= j < rest.len() implies (#[trigger] rest[j]).0@ != key by {
            assert(rest[j] == entries[j + 1]);
        }
        lemma_lookup_absent(rest, key);
    }
}

proof fn lemma_lookup_first(entries: Seq<(String, String)>, key: Seq<char>, i: int)
    requires
        0 <= i < entries.len(),
        entries[i].0@ == key,
        forall|j: int| 0 <= j < i ==> (#[trigger] entries[j]).0@ != key,
    ensures
        lookup(entries, key) == Some(entries[i].1@),
    decreases i,
{
    if i > 0 {
        let rest = entries.drop_first();
        assert forall|j: int| 0 <= j < i - 1 implies (#[trigger] rest[j]).0@ != key by {
            assert(rest[j] == entries[j + 1]);
        }
        assert(rest[i - 1] == entries[i]);
        lemma_lookup_first(rest, key, i - 1);
    }
}

proof fn lemma_lookup_update(
    entries: Seq<(String, String)>,
    i: int,
    entry: (String, String),
    key: Seq<char>,
)
    requires
        0 <= i < entries.len(),
        entries[i].0@ == entry.0@,
        forall|j: int| 0 <= j < i ==> (#[trigger] entries[j]).0@ != entry.0@,
    ensures
        lookup(entries.update(i, entry), key) == if key == entry.0@ {
            Some(entry.1@)
        } else {
            lookup(entries, key)
        },
    decreases i,
{
    let updated = entries.update(i, entry);
    if i == 0 {
        assert(updated.drop_first() =~= entries.drop_first());
    } else {
        let rest = entries.drop_first();
        assert forall|j: int| 0 <= j < i - 1 implies (#[trigger] rest[j]).0@ != entry.0@ by {
            assert(rest[j] == entries[j + 1]);
        }
        assert(rest[i - 1] == entries[i]);
        assert(updated.drop_first() =~= rest.update(i - 1, entry));
        assert(updated[0] == entries[0]);
        assert(entries[0].0@ != entry.0@);
        lemma_lookup_update(rest, i - 1, entry, key);
    }
}

proof fn lemma_lookup_push(entries: Seq<(String, String)>, entry: (String, String), key: Seq<char>)
    requires
        forall|j: int| 0 <= j < entries.len() ==> (#[trigger] entries[j]).0@ != entry.0@,
    ensures
        lookup(entries.push(entry), key) == if key == entry.0@ {
            Some(entry.1@)
        } else {
            lookup(entries, key)
        },
    decreases entries.len(),
{
    let pushed = entries.push(entry);
    if entries.len() == 0 {
        assert(pushed.drop_first() =~= Seq::<(String, String)>::empty());
    } else {
        let rest = entries.drop_first();
        assert forall|j: int| 0 <= j < rest.len() implies (#[trigger] rest[j]).0@ != entry.0@ by {
            assert(rest[j] == entries[j + 1]);
        }
        assert(pushed.drop_first() =~= rest.push(entry));
        assert(pushed[0] == entries[0]);
        assert(entries[0].0@ != entry.0@);
        lemma_lookup_push(rest, entry, key);
    }
}

/// The fields that failed validation, each with the message to show for it,
/// if it has one.
#[derive(Debug)]
pub struct FieldErrors {
    default_value: String,
    entries: Vec<(String, String)>,
}

impl View for FieldErrors {
    type V = RegistryView;

    closed spec fn view(&self) -> RegistryView {
        RegistryView {
            default_message: self.default_value@,
            messages: entries_map(self.entries@),
        }
    }
}

impl FieldErrors {
    /// An empty registry that keeps `default_value` as the text for fields
    /// without a message of their own.
    pub fn new(default_value: &str) -> (out: FieldErrors)
        ensures
            out@.default_message == default_value@,
            out@.messages == Map::<Seq<char>, Seq<char>>::empty(),
    {
        let out = FieldErrors { default_value: default_value.to_owned(), entries: Vec::new() };
        assert(out@.messages =~= Map::<Seq<char>, Seq<char>>::empty());
        out
    }

    /// The place of the first entry for `key`, if there is one.
    fn position(&self, key: &str) -> (out: Option<usize>)
        ensures
            match out {
                Some(i) => i < self.entries@.len() && self.entries@[i as int].0@ == key@
                    && lookup(self.entries@, key@) == Some(self.entries@[i as int].1@)
                    && forall|j: int| 0 <= j < i ==> (#[trigger] self.entries@[j]).0@ != key@,
                None => lookup(self.entries@, key@) is None
                    && forall|j: int|
                    0 <= j < self.entries@.len() ==> (#[trigger] self.entries@[j]).0@ != key@,
            },
    {
        let wanted = key.to_owned();
        let mut i: usize = 0;
        while i < self.entries.len()
            invariant
                i <= self.entries@.len(),
                wanted@ == key@,
                forall|j: int| 0 <= j < i ==> (#[trigger] self.entries@[j]).0@ != key@,
            decreases self.entries@.len() - i,
        {
            if self.entries[i].0 == wanted {
                proof {
                    lemma_lookup_first(self.entries@, key@, i as int);
                }
                return Some(i);
            }
            i += 1;
        }
        proof {
            lemma_lookup_absent(self.entries@, key@);
        }
        None
    }

    /// The text that the registry was made with for fields without a message
    /// of their own. No mark stores it and no widget shows it: a caller that
    /// wants a text for such a field asks for it here.
    pub fn default_value(&self) -> (out: &str)
        ensures
            out@ == self@.default_message,
    {
        self.default_value.as_str()
    }

    /// Marks `key` as invalid, without a message. An earlier mark of `key`,
    /// with or without a message, is replaced, and no other field changes.
    pub fn set_default(&mut self, key: &str)
        ensures
            final(self)@ == old(self)@.set_default(key@),
            final(self)@.has(key@),
            final(self)@.get(key@) is None,
            final(self)@.state_of(key@) == Some(Seq::<char>::empty()),
    {
        self.put(key, String::new());
    }

    /// Marks `key` as invalid, with `value` as its message. An earlier mark
    /// of `key` is replaced.
    pub fn set(&mut self, key: &str, value: &str)
        ensures
            final(self)@ == old(self)@.set(key@, value@),
    {
        self.put(key, value.to_owned());
    }

    fn put(&mut self, key: &str, message: String)
        ensures
            final(self)@ == old(self)@.set(key@, message@),
    {
        let found = self.position(key);
        let entry = (key.to_owned(), message);
        let ghost before = self.entries@;
        match found {
            Some(i) => {
                self.entries.set(i, entry);
                proof {
                    assert forall|k: Seq<char>|
                        lookup(before.update(i as int, entry), k) == if k == key@ {
                            Some(message@)
                        } else {
                            lookup(before, k)
                        } by {
                        lemma_lookup_update(before, i as int, entry, k);
                    }
                }
            },
            None => {
                self.entries.push(entry);
                proof {
                    assert forall|k: Seq<char>|
                        lookup(before.push(entry), k) == if k == key@ {
                            Some(message@)
                        } else {
                            lookup(before, k)
                        } by {
                        lemma_lookup_push(before, entry, k);
                    }
                }
            },
        }
        assert(self@.messages =~= old(self)@.messages.insert(key@, message@));
    }

    /// The message to show for `key`: none for a valid field, and none for a
    /// field that is marked with an empty message.
    pub fn get(&self, key: &str) -> (out: Option<String>)
        ensures
            text_of(out) == self@.get(key@),
    {
        match self.position(key) {
            Some(i) => {
                if self.entries[i].1.as_str().is_empty() {
                    None
                } else {
                    Some(self.entries[i].1.clone())
                }
            },
            None => None,
        }
    }

    /// True when `key` is marked invalid, with or without a message.
    pub fn has(&self, key: &str) -> (out: bool)
        ensures
            out == self@.has(key@),
    {
        self.position(key).is_some()
    }

    /// True when no field is marked.
    pub fn is_ok(&self) -> (out: bool)
        ensures
            out == self@.is_ok(),
    {
        let empty = self.entries.len() == 0;
        proof {
            if !empty {
                let first = self.entries@[0].0@;
                assert(lookup(self.entries@, first) is Some);
                assert(self@.has(first));
            }
        }
        empty
    }

    /// What a widget keeps for the field `name`.
    pub fn state_of(&self, name: &str) -> (out: Option<String>)
        ensures
            text_of(out) == self@.state_of(name@),
    {
        match self.position(name) {
            Some(i) => Some(self.entries[i].1.clone()),
            None => None,
        }
    }
}

impl Clone for FieldErrors {
    fn clone(&self) -> (out: FieldErrors)
        ensures
            out@ == self@,
    {
        let mut entries: Vec<(String, String)> = Vec::new();
        let mut i: usize = 0;
        while i < self.entries.len()
            invariant
                i <= self.entries@.len(),
                entries@ == self.entries@.take(i as int),
            decreases self.entries@.len() - i,
        {
            entries.push((self.entries[i].0.clone(), self.entries[i].1.clone()));
            assert(entries@ =~= self.entries@.take(i + 1));
            i += 1;
        }
        assert(entries@ =~= self.entries@);
        FieldErrors { default_value: self.default_value.clone(), entries }
    }
}

impl Default for FieldErrors {
    fn default() -> (out: FieldErrors)
        ensures
            out@.default_message == "valeur incorrecte"@,
            out@.messages == Map::<Seq<char>, Seq<char>>::empty(),
    {
        FieldErrors::new("valeur incorrecte")
    }
}

} // verus!
