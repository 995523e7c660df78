//! Select lists and the rule that marks an option as selected.

use vstd::prelude::*;
use vstd::std_specs::convert::IntoSpec;
use vstd::string::*;
use crate::error::FieldErrors;
use crate::field_props::{Props, PropsView};
use crate::key_value::{KeyValue, KeyValueInterface};
use crate::markup::{
    boolean_attribute, clone_text, error_markup, escaped, hint_markup, invalid_class, join_class,
    joined_class, optional_attribute, push_boolean_attribute, push_error, push_escaped, push_hint,
    push_invalid_class, push_optional_attribute, text_of, Markup, Render,
};
use crate::validation::{reported_state, reports_field, state_from_report};

verus! {

/// An option is selected when a value is set and is exactly the option's key.
pub open spec fn selects(selected: Option<Seq<char>>, key: Seq<char>) -> bool {
    selected == Some(key)
}

/// Without a value no option is selected; with a value, an option is selected
/// exactly when its key is that value.
pub proof fn lemma_selects(value: Seq<char>, key: Seq<char>)
    ensures
        !selects(None, key),
        selects(Some(value), key) == (value == key),
{
}

/// Decides whether the option with the key `key` is selected by `selected`.
/// The comparison is exact: nothing is trimmed and case counts.
pub fn option_matches(selected: Option<&str>, key: &str) -> (out: bool)
    ensures
        out == selects(
            match selected {
                Some(s) => Some(s@),
                None => None,
            },
            key@,
        ),
{
    match selected {
        Some(s) => s.to_owned() == key.to_owned(),
        None => false,
    }
}

/// One `option` element.
pub open spec fn option_markup(selected: Option<Seq<char>>, option: (Seq<char>, Seq<char>)) -> Seq<
    char,
> {
    "<option value=\""@ + escaped(option.0) + "\""@ + boolean_attribute(
        "selected"@,
        selects(selected, option.0),
    ) + ">"@ + escaped(option.1) + "</option>"@
}

/// The `option` elements of a list, in the list's order. Each option is
/// matched on its own, so equal keys are selected together.
pub open spec fn options_markup(
    selected: Option<Seq<char>>,
    options: Seq<(Seq<char>, Seq<char>)>,
) -> Seq<char>
    decreases options.len(),
{
    if options.len() == 0 {
        Seq::empty()
    } else {
        options_markup(selected, options.drop_last()) + option_markup(selected, options.last())
    }
}

/// The options are written in the list's order: a list with one more option
/// at its end gives the same elements followed by that option's element.
pub proof fn lemma_options_markup_push(
    selected: Option<Seq<char>>,
    options: Seq<(Seq<char>, Seq<char>)>,
    option: (Seq<char>, Seq<char>),
)
    ensures
        options_markup(selected, Seq::empty()) == Seq::<char>::empty(),
        options_markup(selected, options.push(option)) == options_markup(selected, options)
            + option_markup(selected, option),
{
    assert(options.push(option).drop_last() =~= options);
}

/// The keys and display texts of a list of options.
pub open spec fn options_of(items: Seq<KeyValue>) -> Seq<(Seq<char>, Seq<char>)> {
    items.map_values(|item: KeyValue| item@)
}

/// True when `option` holds the key and display text of an option that
/// `source` can give.
pub open spec fn given_by<A: KeyValueInterface>(source: &A, option: (Seq<char>, Seq<char>)) -> bool {
    exists|item: KeyValue| call_ensures(A::to_kv, (source,), item) && item@ == option
}

/// A select list with its label, wrapped in a `div`.
#[derive(Debug)]
pub struct Select {
    name: String,
    label: String,
    class: String,
    items: Vec<KeyValue>,
    props: Props,
    error: Option<String>,
}

/// What a `Select` holds. `error` is `None` for a valid field and holds the
/// message, possibly empty, of an invalid one.
pub ghost struct SelectView {
    pub name: Seq<char>,
    pub label: Seq<char>,
    pub class: Seq<char>,
    pub options: Seq<(Seq<char>, Seq<char>)>,
    pub props: PropsView,
    pub error: Option<Seq<char>>,
}

impl SelectView {
    /// A new select list: the wrapper's class is `form-floating`, nothing
    /// else is set and the field is valid.
    pub open spec fn initial(
        name: Seq<char>,
        label: Seq<char>,
        options: Seq<(Seq<char>, Seq<char>)>,
    ) -> SelectView {
        SelectView {
            name,
            label,
            class: "form-floating"@,
            options,
            props: PropsView::empty(),
            error: None,
        }
    }

    /// The `select` element: name, class, the id when set, and the options.
    /// The settings' value is the selected key.
    pub open spec fn select_markup(self) -> Seq<char> {
        "<select name=\""@ + escaped(self.name) + "\" class=\"form-select"@ + invalid_class(
            self.error,
        ) + "\""@ + optional_attribute("id"@, self.props.id) + ">"@ + options_markup(
            self.props.value,
            self.options,
        ) + "</select>"@
    }

    /// The whole fragment: the wrapper with its classes, the select list,
    /// the label, then the hint and the error message where there are any.
    pub open spec fn markup(self) -> Seq<char> {
        "<div class=\""@ + escaped(self.class) + "\">"@ + self.select_markup() + "<label>"@
            + escaped(self.label) + "</label>"@ + hint_markup(self.props.hint) + error_markup(
            self.error,
        ) + "</div>"@
    }
}

impl View for Select {
    type V = SelectView;

    closed spec fn view(&self) -> SelectView {
        SelectView {
            name: self.name@,
            label: self.label@,
            class: self.class@,
            options: options_of(self.items@),
            props: self.props@,
            error: text_of(self.error),
        }
    }
}

/// Appends one `option` element to `buffer`.
fn push_option(buffer: &mut String, selected: &Option<String>, item: &KeyValue)
    ensures
        final(buffer)@ == old(buffer)@ + option_markup(
            text_of(*selected),
            item@,
        ),
{
    let chosen: Option<&str> = match selected {
        Some(s) => Some(s.as_str()),
        None => None,
    };
    let on = option_matches(chosen, item.key.as_str());
    let mut element = "<option value=\"".to_owned();
    push_escaped(&mut element, item.key.as_str());
    element.append("\"");
    push_boolean_attribute(&mut element, "selected", on);
    element.append(">");
    push_escaped(&mut element, item.value.as_str());
    element.append("</option>");
    buffer.append(element.as_str());
}

impl Select {
    /// A select list whose options are what `items` give, in their order.
    pub fn simple<A>(name: &str, label: &str, items: &[A]) -> (out: Select) where
        A: KeyValueInterface,

        ensures
            out@ == SelectView::initial(name@, label@, out@.options),
            out@.options.len() == items@.len(),
            forall|i: int|
                0 <= i < items@.len() ==> #[trigger] given_by(&items@[i], out@.options[i]),
    {
        let mut kvs: Vec<KeyValue> = Vec::new();
        let mut i: usize = 0;
        while i < items.len()
            invariant
                i <= items@.len(),
                kvs@.len() == i,
                forall|j: int| 0 <= j < i ==> call_ensures(A::to_kv, (&items@[j],), #[trigger] kvs@[j]),
            decreases items@.len() - i,
        {
            kvs.push(items[i].to_kv());
            i += 1;
        }
        let out = Self::new_kv(name, label, kvs.as_slice());
        proof {
            assert forall|i: int| 0 <= i < items@.len() implies #[trigger] given_by(
                &items@[i],
                out@.options[i],
            ) by {
                assert(call_ensures(A::to_kv, (&items@[i],), kvs@[i]));
                assert(out@.options[i] == kvs@[i]@);
            }
        }
        out
    }

    /// A select list with the options `items`, in their order.
    pub fn new_kv(name: &str, label: &str, items: &[KeyValue]) -> (out: Select)
        ensures
            out@ == SelectView::initial(name@, label@, options_of(items@)),
    {
        let mut kvs: Vec<KeyValue> = Vec::new();
        let mut i: usize = 0;
        while i < items.len()
            invariant
                i <= items@.len(),
                kvs@ == items@.take(i as int),
            decreases items@.len() - i,
        {
            kvs.push(items[i].clone());
            assert(kvs@ =~= items@.take(i + 1));
            i += 1;
        }
        assert(kvs@ =~= items@);
        Select {
            name: name.to_owned(),
            label: label.to_owned(),
            class: "form-floating".to_owned(),
            items: kvs,
            props: Props::default(),
            error: None,
        }
    }

    /// The list with its settings replaced by `props`.
    pub fn props(self, props: Props) -> (out: Select)
        ensures
            out@ == (SelectView { props: props@, ..self@ }),
    {
        Select { props, ..self }
    }

    /// Decides whether the option with the key `value` is selected by
    /// `reference`, once `reference` is converted to text.
    pub fn checked_option<S: Into<String>>(&self, reference: Option<S>, value: &str) -> (out: bool)
        ensures
            reference is None ==> !out,
            reference is Some && <S as IntoSpec<String>>::obeys_into_spec() ==> out == selects(
                Some(<S as IntoSpec<String>>::into_spec(reference->0)@),
                value@,
            ),
    {
        match reference {
            Some(r) => {
                let text: String = r.into();
                option_matches(Some(text.as_str()), value)
            },
            None => false,
        }
    }

    /// The list with `class` added to the wrapper's classes, after a space.
    /// Nothing is removed: a class given twice stands twice.
    pub fn class(self, class: &str) -> (out: Select)
        ensures
            out@ == (SelectView { class: joined_class(self@.class, class@), ..self@ }),
    {
        let joined = join_class(self.class, class);
        Select { class: joined, ..self }
    }

    /// The list marked invalid, without a message, when `validation` holds an
    /// entry for its name, and valid when it holds none.
    pub fn errors(self, validation: &validator::ValidationErrors) -> (out: Select)
        ensures
            out@ == (SelectView { error: reported_state(*validation, self@.name), ..self@ }),
    {
        let reported = reports_field(validation, self.name.as_str());
        Select { error: state_from_report(reported), ..self }
    }

    /// The list with the state that `registry` holds for its name at the
    /// time of the call: invalid, with the registry's message, when the name
    /// is marked there, and valid when it is not.
    pub fn with_errors(self, registry: &FieldErrors) -> (out: Select)
        ensures
            out@ == (SelectView { error: registry@.state_of(self@.name), ..self@ }),
    {
        let error = registry.state_of(self.name.as_str());
        Select { error, ..self }
    }
}

impl Default for Select {
    /// A select list with every text empty and no option.
    fn default() -> (out: Select)
        ensures
            out@ == (SelectView {
                name: Seq::empty(),
                label: Seq::empty(),
                class: Seq::empty(),
                options: Seq::empty(),
                props: PropsView::empty(),
                error: None,
            }),
    {
        let out = Select {
            name: String::new(),
            label: String::new(),
            class: String::new(),
            items: Vec::new(),
            props: Props::default(),
            error: None,
        };
        assert(out@.options =~= Seq::empty());
        out
    }
}

impl Clone for Select {
    fn clone(&self) -> (out: Select)
        ensures
            out@ == self@,
    {
        let mut items: Vec<KeyValue> = Vec::new();
        let mut i: usize = 0;
        while i < self.items.len()
            invariant
                i <= self.items@.len(),
                items@ == self.items@.take(i as int),
            decreases self.items@.len() - i,
        {
            items.push(self.items[i].clone());
            assert(items@ =~= self.items@.take(i + 1));
            i += 1;
        }
        assert(items@ =~= self.items@);
        Select {
            name: self.name.clone(),
            label: self.label.clone(),
            class: self.class.clone(),
            items,
            props: self.props.clone(),
            error: clone_text(&self.error),
        }
    }
}

impl Render for Select {
    open spec fn markup(&self) -> Seq<char> {
        self@.markup()
    }

    fn render(&self) -> (out: Markup) {
        let ghost selected = self@.props.value;
        let ghost options = self@.options;
        let mut list = "<select name=\"".to_owned();
        push_escaped(&mut list, self.name.as_str());
        list.append("\" class=\"form-select");
        push_invalid_class(&mut list, &self.error);
        list.append("\"");
        push_optional_attribute(&mut list, "id", &self.props.id);
        list.append(">");
        let ghost opening = list@;
        let mut i: usize = 0;
        assert(list@ =~= opening + options_markup(selected, options.take(0)));
        while i < self.items.len()
            invariant
                i <= self.items@.len(),
                selected == self@.props.value,
                options == self@.options,
                options.len() == self.items@.len(),
                list@ == opening + options_markup(selected, options.take(i as int)),
            decreases self.items@.len() - i,
        {
            push_option(&mut list, &self.props.value, &self.items[i]);
            proof {
                let next = options.take(i + 1);
                assert(next.drop_last() =~= options.take(i as int));
                assert(next.last() == self.items@[i as int]@);
                assert(list@ =~= opening + options_markup(selected, next));
            }
            i += 1;
        }
        assert(options.take(i as int) =~= options);
        list.append("</select>");
        assert(list@ == self@.select_markup());

        let mut buffer = "<div class=\"".to_owned();
        push_escaped(&mut buffer, self.class.as_str());
        buffer.append("\">");
        buffer.append(list.as_str());
        buffer.append("<label>");
        push_escaped(&mut buffer, self.label.as_str());
        buffer.append("</label>");
        push_hint(&mut buffer, &self.props.hint);
        push_error(&mut buffer, &self.error);
        buffer.append("</div>");
        Markup::pre_escaped(buffer)
    }
}

} // verus!
