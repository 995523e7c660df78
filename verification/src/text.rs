//! Text-like input fields.

use vstd::prelude::*;
use vstd::string::*;
use crate::error::FieldErrors;
use crate::field_props::{Props, PropsView};
use crate::markup::{
    clone_text, error_markup, escaped, hint_markup, invalid_class, join_class, joined_class,
    optional_attribute, push_error, push_escaped, push_hint, push_invalid_class,
    push_optional_attribute, text_of, Markup, Render,
};
use crate::validation::{reported_state, reports_field, state_from_report};

verus! {

/// The kind of a text-like input.
#[derive(Clone, Copy, Debug, PartialEq, Eq, Structural)]
pub enum TextFieldType {
    Text,
    Email,
    Number,
}

impl TextFieldType {
    /// The value of the input's `type` attribute.
    pub open spec fn keyword(self) -> Seq<char> {
        match self {
            TextFieldType::Text => "text"@,
            TextFieldType::Email => "email"@,
            TextFieldType::Number => "number"@,
        }
    }

    /// The value of the input's `type` attribute.
    pub fn as_str(self) -> (out: &'static str)
        ensures
            out@ == self.keyword(),
    {
        match self {
            TextFieldType::Text => "text",
            TextFieldType::Email => "email",
            TextFieldType::Number => "number",
        }
    }
}

impl Default for TextFieldType {
    fn default() -> (out: TextFieldType)
        ensures
            out == TextFieldType::Text,
    {
        TextFieldType::Text
    }
}

/// A text-like input with its label, wrapped in a `div`.
#[derive(Debug)]
pub struct TextField {
    name: String,
    label: String,
    my_type: TextFieldType,
    class: String,
    props: Props,
    error: Option<String>,
}

/// What a `TextField` holds. `error` is `None` for a valid field and holds
/// the message, possibly empty, of an invalid one.
pub ghost struct TextFieldView {
    pub name: Seq<char>,
    pub label: Seq<char>,
    pub kind: TextFieldType,
    pub class: Seq<char>,
    pub props: PropsView,
    pub error: Option<Seq<char>>,
}

impl TextFieldView {
    /// A new field of the given kind: the wrapper's class is `form-floating`,
    /// nothing else is set and the field is valid.
    pub open spec fn initial(kind: TextFieldType, name: Seq<char>, label: Seq<char>) -> TextFieldView {
        TextFieldView {
            name,
            label,
            kind,
            class: "form-floating"@,
            props: PropsView::empty(),
            error: None,
        }
    }

    /// The input element: type, class, name, then id, value and placeholder,
    /// each only when set.
    pub open spec fn input_markup(self) -> Seq<char> {
        "<input type=\""@ + self.kind.keyword() + "\" class=\"form-control"@ + invalid_class(
            self.error,
        ) + "\" name=\""@ + escaped(self.name) + "\""@ + optional_attribute("id"@, self.props.id)
            + optional_attribute("value"@, self.props.value) + optional_attribute(
            "placeholder"@,
            self.props.placeholder,
        ) + ">"@
    }

    /// The whole fragment: the wrapper with its classes, the input, the
    /// label, then the hint and the error message where there are any.
    pub open spec fn markup(self) -> Seq<char> {
        "<div class=\""@ + escaped(self.class) + "\">"@ + self.input_markup() + "<label>"@
            + escaped(self.label) + "</label>"@ + hint_markup(self.props.hint) + error_markup(
            self.error,
        ) + "</div>"@
    }
}

impl View for TextField {
    type V = TextFieldView;

    closed spec fn view(&self) -> TextFieldView {
        TextFieldView {
            name: self.name@,
            label: self.label@,
            kind: self.my_type,
            class: self.class@,
            props: self.props@,
            error: text_of(self.error),
        }
    }
}

impl TextField {
    /// A plain text input.
    pub fn text(name: &str, label: &str) -> (out: TextField)
        ensures
            out@ == TextFieldView::initial(TextFieldType::Text, name@, label@),
    {
        Self::new(TextFieldType::Text, name, label)
    }

    /// An e-mail input.
    pub fn email(name: &str, label: &str) -> (out: TextField)
        ensures
            out@ == TextFieldView::initial(TextFieldType::Email, name@, label@),
    {
        Self::new(TextFieldType::Email, name, label)
    }

    /// A number input.
    pub fn number(name: &str, label: &str) -> (out: TextField)
        ensures
            out@ == TextFieldView::initial(TextFieldType::Number, name@, label@),
    {
        Self::new(TextFieldType::Number, name, label)
    }

    fn new(my_type: TextFieldType, name: &str, label: &str) -> (out: TextField)
        ensures
            out@ == TextFieldView::initial(my_type, name@, label@),
    {
        TextField {
            name: name.to_owned(),
            label: label.to_owned(),
            my_type,
            class: "form-floating".to_owned(),
            props: Props::default(),
            error: None,
        }
    }

    /// The field with its settings replaced by `props`.
    pub fn props(self, props: Props) -> (out: TextField)
        ensures
            out@ == (TextFieldView { props: props@, ..self@ }),
    {
        TextField { props, ..self }
    }

    /// The field with `class` added to the wrapper's classes, after a space.
    /// Nothing is removed: a class given twice stands twice.
    pub fn class(self, class: &str) -> (out: TextField)
        ensures
            out@ == (TextFieldView { class: joined_class(self@.class, class@), ..self@ }),
    {
        let joined = join_class(self.class, class);
        TextField { class: joined, ..self }
    }

    /// The field marked invalid, without a message, when `validation` holds
    /// an entry for its name, and valid when it holds none.
    pub fn errors(self, validation: &validator::ValidationErrors) -> (out: TextField)
        ensures
            out@ == (TextFieldView { error: reported_state(*validation, self@.name), ..self@ }),
    {
        let reported = reports_field(validation, self.name.as_str());
        TextField { error: state_from_report(reported), ..self }
    }

    /// The field with the state that `registry` holds for its name at the
    /// time of the call: invalid, with the registry's message, when the name
    /// is marked there, and valid when it is not.
    pub fn with_errors(self, registry: &FieldErrors) -> (out: TextField)
        ensures
            out@ == (TextFieldView { error: registry@.state_of(self@.name), ..self@ }),
    {
        let error = registry.state_of(self.name.as_str());
        TextField { error, ..self }
    }
}

impl Default for TextField {
    /// A text input with every text empty, not even a wrapper class.
    fn default() -> (out: TextField)
        ensures
            out@ == (TextFieldView {
                name: Seq::empty(),
                label: Seq::empty(),
                kind: TextFieldType::Text,
                class: Seq::empty(),
                props: PropsView::empty(),
                error: None,
            }),
    {
        TextField {
            name: String::new(),
            label: String::new(),
            my_type: TextFieldType::Text,
            class: String::new(),
            props: Props::default(),
            error: None,
        }
    }
}

impl Clone for TextField {
    fn clone(&self) -> (out: TextField)
        ensures
            out@ == self@,
    {
        TextField {
            name: self.name.clone(),
            label: self.label.clone(),
            my_type: self.my_type,
            class: self.class.clone(),
            props: self.props.clone(),
            error: clone_text(&self.error),
        }
    }
}

impl Render for TextField {
    open spec fn markup(&self) -> Seq<char> {
        self@.markup()
    }

    fn render(&self) -> (out: Markup) {
        let mut input = "<input type=\"".to_owned();
        input.append(self.my_type.as_str());
        input.append("\" class=\"form-control");
        push_invalid_class(&mut input, &self.error);
        input.append("\" name=\"");
        push_escaped(&mut input, self.name.as_str());
        input.append("\"");
        push_optional_attribute(&mut input, "id", &self.props.id);
        push_optional_attribute(&mut input, "value", &self.props.value);
        push_optional_attribute(&mut input, "placeholder", &self.props.placeholder);
        input.append(">");
        assert(input@ == self@.input_markup());

        let mut buffer = "<div class=\"".to_owned();
        push_escaped(&mut buffer, self.class.as_str());
        buffer.append("\">");
        buffer.append(input.as_str());
        buffer.append("<label>");
        push_escaped(&mut buffer, self.label.as_str());
        buffer.append("</label>");
        push_hint(&mut buffer, &self.props.hint);
        push_error(&mut buffer, &self.error);
        buffer.append("</div>");
        Markup::pre_escaped(buffer)
    }
}

} // verus!
