//! Markup fragments and the escaping of text placed inside them.

use vstd::prelude::*;
use vstd::string::*;

verus! {

/// The text that stands for one character inside markup: the four characters
/// with a meaning in HTML become entities, every other character is itself.
pub open spec fn escape_char(c: char) -> Seq<char> {
    if c == '&' {
        seq!['&', 'a', 'm', 'p', ';']
    } else if c == '<' {
        seq!['&', 'l', 't', ';']
    } else if c == '>' {
        seq!['&', 'g', 't', ';']
    } else if c == '"' {
        seq!['&', 'q', 'u', 'o', 't', ';']
    } else {
        seq![c]
    }
}

/// The escaped form of a text: its characters' escaped forms, in order.
pub open spec fn escaped(text: Seq<char>) -> Seq<char>
    decreases text.len(),
{
    if text.len() == 0 {
        Seq::empty()
    } else {
        escaped(text.drop_last()) + escape_char(text.last())
    }
}

/// True of a text that holds none of the four characters that escaping
/// replaces.
pub open spec fn is_plain(text: Seq<char>) -> bool {
    forall|i: int|
        0 <= i < text.len() ==> text[i] != '&' && text[i] != '<' && text[i] != '>' && text[i]
            != '"'
}

/// Escaping leaves a plain text as it is.
pub proof fn lemma_escaped_plain(text: Seq<char>)
    requires
        is_plain(text),
    ensures
        escaped(text) == text,
    decreases text.len(),
{
    if text.len() > 0 {
        lemma_escaped_plain(text.drop_last());
        assert(escaped(text) =~= text);
    }
}

/// Appends the escaped form of `text` to `buffer`.
///
/// Trusted: the body calls maud's `Render::render_to` for `str`, which walks
/// the bytes of `text`, writes `&amp;`, `&lt;`, `&gt;` and `&quot;` for the
/// ASCII bytes `&`, `<`, `>` and `"`, and copies every other byte. The
/// contract says the same character by character.
#[verifier::external_body]
pub(crate) fn push_escaped(buffer: &mut String, text: &str)
    ensures
        final(buffer)@ == old(buffer)@ + escaped(text@),
{
    maud::Render::render_to(text, buffer);
}

/// The text held by an optional string, if any.
pub open spec fn text_of(s: Option<String>) -> Option<Seq<char>> {
    match s {
        Some(t) => Some(t@),
        None => None,
    }
}

/// A copy of an optional string.
pub fn clone_text(s: &Option<String>) -> (out: Option<String>)
    ensures
        out == *s,
{
    match s {
        Some(t) => Some(t.clone()),
        None => None,
    }
}

/// A class string with one more class: the classes so far, a space, and the
/// new class. Nothing is compared or removed.
pub open spec fn joined_class(class: Seq<char>, extra: Seq<char>) -> Seq<char> {
    class + " "@ + extra
}

/// Adds `extra` to the classes in `class`.
pub(crate) fn join_class(class: String, extra: &str) -> (out: String)
    ensures
        out@ == joined_class(class@, extra@),
{
    let mut joined = class;
    joined.append(" ");
    joined.append(extra);
    joined
}

/// Adding a class is additive, not idempotent: the same class added twice
/// stands twice at the end of the class string, which is then longer than
/// after one addition.
pub proof fn lemma_class_twice_stands_twice(class: Seq<char>, extra: Seq<char>)
    ensures
        joined_class(joined_class(class, extra), extra) == class + " "@ + extra + " "@ + extra,
        joined_class(joined_class(class, extra), extra).len() == joined_class(class, extra).len()
            + 1 + extra.len(),
        joined_class(joined_class(class, extra), extra) != joined_class(class, extra),
{
    reveal_strlit(" ");
}

/// An attribute that is written only when it has a value: a space, the
/// attribute's name, and the escaped value between double quotes.
pub open spec fn optional_attribute(name: Seq<char>, value: Option<Seq<char>>) -> Seq<char> {
    match value {
        Some(v) => " "@ + name + "=\""@ + escaped(v) + "\""@,
        None => Seq::empty(),
    }
}

/// A boolean attribute: a space and its name when it holds, nothing when it
/// does not. It never carries a value.
pub open spec fn boolean_attribute(name: Seq<char>, on: bool) -> Seq<char> {
    if on {
        " "@ + name
    } else {
        Seq::empty()
    }
}

/// What a control's class attribute gains when its field is invalid.
pub open spec fn invalid_class(error: Option<Seq<char>>) -> Seq<char> {
    if error is Some {
        " is-invalid"@
    } else {
        Seq::empty()
    }
}

/// The element that shows a hint below a control, when there is a hint.
pub open spec fn hint_markup(hint: Option<Seq<char>>) -> Seq<char> {
    match hint {
        Some(h) => "<div class=\"form-text\">"@ + escaped(h) + "</div>"@,
        None => Seq::empty(),
    }
}

/// The element that shows an error message below a control. An invalid field
/// without a message, or with an empty one, shows none.
pub open spec fn error_markup(error: Option<Seq<char>>) -> Seq<char> {
    match error {
        Some(m) => if m.len() > 0 {
            "<div class=\"invalid-feedback\">"@ + escaped(m) + "</div>"@
        } else {
            Seq::empty()
        },
        None => Seq::empty(),
    }
}

/// Appends `name`'s attribute to `buffer` when `value` is set.
pub(crate) fn push_optional_attribute(buffer: &mut String, name: &str, value: &Option<String>)
    ensures
        final(buffer)@ == old(buffer)@ + optional_attribute(name@, text_of(*value)),
{
    match value {
        Some(v) => {
            buffer.append(" ");
            buffer.append(name);
            buffer.append("=\"");
            push_escaped(buffer, v.as_str());
            buffer.append("\"");
            assert(buffer@ =~= old(buffer)@ + (" "@ + name@ + "=\""@ + escaped(v@) + "\""@));
        },
        None => {
            assert(buffer@ =~= old(buffer)@ + Seq::<char>::empty());
        },
    }
}

/// Appends the boolean attribute `name` to `buffer` when `on` holds.
pub(crate) fn push_boolean_attribute(buffer: &mut String, name: &str, on: bool)
    ensures
        final(buffer)@ == old(buffer)@ + boolean_attribute(name@, on),
{
    if on {
        buffer.append(" ");
        buffer.append(name);
        assert(buffer@ =~= old(buffer)@ + (" "@ + name@));
    } else {
        assert(buffer@ =~= old(buffer)@ + Seq::<char>::empty());
    }
}

/// Appends the invalid marker of a control's class to `buffer`.
pub(crate) fn push_invalid_class(buffer: &mut String, error: &Option<String>)
    ensures
        final(buffer)@ == old(buffer)@ + invalid_class(text_of(*error)),
{
    if error.is_some() {
        buffer.append(" is-invalid");
    } else {
        assert(buffer@ =~= old(buffer)@ + Seq::<char>::empty());
    }
}

/// Appends the hint element to `buffer` when there is a hint.
pub(crate) fn push_hint(buffer: &mut String, hint: &Option<String>)
    ensures
        final(buffer)@ == old(buffer)@ + hint_markup(text_of(*hint)),
{
    match hint {
        Some(h) => {
            buffer.append("<div class=\"form-text\">");
            push_escaped(buffer, h.as_str());
            buffer.append("</div>");
            assert(buffer@ =~= old(buffer)@ + ("<div class=\"form-text\">"@ + escaped(h@)
                + "</div>"@));
        },
        None => {
            assert(buffer@ =~= old(buffer)@ + Seq::<char>::empty());
        },
    }
}

/// Appends the error element to `buffer` when there is a message to show.
pub(crate) fn push_error(buffer: &mut String, error: &Option<String>)
    ensures
        final(buffer)@ == old(buffer)@ + error_markup(text_of(*error)),
{
    match error {
        Some(m) => {
            if m.as_str().is_empty() {
                assert(buffer@ =~= old(buffer)@ + Seq::<char>::empty());
            } else {
                buffer.append("<div class=\"invalid-feedback\">");
                push_escaped(buffer, m.as_str());
                buffer.append("</div>");
                assert(buffer@ =~= old(buffer)@ + ("<div class=\"invalid-feedback\">"@
                    + escaped(m@) + "</div>"@));
            }
        },
        None => {
            assert(buffer@ =~= old(buffer)@ + Seq::<char>::empty());
        },
    }
}

/// A fragment of markup: text that is already escaped where it has to be.
pub struct Markup {
    content: String,
}

impl View for Markup {
    type V = Seq<char>;

    closed spec fn view(&self) -> Seq<char> {
        self.content@
    }
}

impl Markup {
    /// Takes `content` as markup, unchanged.
    pub fn pre_escaped(content: String) -> (out: Markup)
        ensures
            out@ == content@,
    {
        Markup { content }
    }

    /// The fragment's text.
    pub fn as_str(&self) -> (out: &str)
        ensures
            out@ == self@,
    {
        self.content.as_str()
    }

    /// Gives up the fragment's text.
    pub fn into_string(self) -> (out: String)
        ensures
            out@ == self@,
    {
        self.content
    }
}

impl Clone for Markup {
    fn clone(&self) -> (out: Markup)
        ensures
            out@ == self@,
    {
        Markup { content: self.content.clone() }
    }
}

/// A value that can be written out as markup.
pub trait Render {
    /// The markup that the value stands for.
    spec fn markup(&self) -> Seq<char>;

    /// Writes the value out.
    fn render(&self) -> (out: Markup)
        ensures
            out@ == self.markup(),
    ;
}

/// A text is written out escaped.
impl Render for String {
    open spec fn markup(&self) -> Seq<char> {
        escaped(self@)
    }

    fn render(&self) -> (out: Markup) {
        let mut buffer = String::new();
        push_escaped(&mut buffer, self.as_str());
        assert(buffer@ =~= escaped(self@));
        Markup::pre_escaped(buffer)
    }
}

/// A borrowed text is written out escaped.
impl<'a> Render for &'a str {
    open spec fn markup(&self) -> Seq<char> {
        escaped(self@)
    }

    fn render(&self) -> (out: Markup) {
        let mut buffer = String::new();
        push_escaped(&mut buffer, *self);
        assert(buffer@ =~= escaped(self@));
        Markup::pre_escaped(buffer)
    }
}

/// Markup is written out as it is: it is not escaped again.
impl Render for Markup {
    open spec fn markup(&self) -> Seq<char> {
        self@
    }

    fn render(&self) -> (out: Markup) {
        self.clone()
    }
}

} // verus!
