//! The optional settings of a field: value, id, hint, placeholder, required
//! flag and error text.

use vstd::prelude::*;
use vstd::std_specs::convert::IntoSpec;
use crate::markup::{clone_text, text_of};

verus! {

/// The settings of a field. A setter returns the record with one field
/// replaced; nothing is checked here.
#[derive(Debug)]
pub struct Props {
    pub value: Option<String>,
    pub id: Option<String>,
    pub hint: Option<String>,
    pub required: bool,
    pub placeholder: Option<String>,
    pub error: Option<String>,
}

/// What a `Props` holds, as plain text.
pub ghost struct PropsView {
    pub value: Option<Seq<char>>,
    pub id: Option<Seq<char>>,
    pub hint: Option<Seq<char>>,
    pub required: bool,
    pub placeholder: Option<Seq<char>>,
    pub error: Option<Seq<char>>,
}

impl PropsView {
    /// The record with nothing set.
    pub open spec fn empty() -> PropsView {
        PropsView {
            value: None,
            id: None,
            hint: None,
            required: false,
            placeholder: None,
            error: None,
        }
    }
}

impl PropsView {
    /// The record with its value set.
    pub open spec fn with_value(self, value: Seq<char>) -> PropsView {
        PropsView { value: Some(value), ..self }
    }

    /// The record with its id set.
    pub open spec fn with_id(self, id: Seq<char>) -> PropsView {
        PropsView { id: Some(id), ..self }
    }

    /// The record with its hint set.
    pub open spec fn with_hint(self, hint: Seq<char>) -> PropsView {
        PropsView { hint: Some(hint), ..self }
    }

    /// The record with its placeholder set.
    pub open spec fn with_placeholder(self, placeholder: Seq<char>) -> PropsView {
        PropsView { placeholder: Some(placeholder), ..self }
    }

    /// The record marked as required.
    pub open spec fn with_required(self) -> PropsView {
        PropsView { required: true, ..self }
    }
}

/// Each setter changes the field it is named after and no other.
pub proof fn lemma_setter_changes_one_field(p: PropsView, v: Seq<char>)
    ensures
        p.with_value(v) == (PropsView {
            value: Some(v),
            id: p.id,
            hint: p.hint,
            required: p.required,
            placeholder: p.placeholder,
            error: p.error,
        }),
        p.with_id(v) == (PropsView {
            value: p.value,
            id: Some(v),
            hint: p.hint,
            required: p.required,
            placeholder: p.placeholder,
            error: p.error,
        }),
        p.with_hint(v) == (PropsView {
            value: p.value,
            id: p.id,
            hint: Some(v),
            required: p.required,
            placeholder: p.placeholder,
            error: p.error,
        }),
        p.with_placeholder(v) == (PropsView {
            value: p.value,
            id: p.id,
            hint: p.hint,
            required: p.required,
            placeholder: Some(v),
            error: p.error,
        }),
        p.with_required() == (PropsView {
            value: p.value,
            id: p.id,
            hint: p.hint,
            required: true,
            placeholder: p.placeholder,
            error: p.error,
        }),
{
}

/// A chain of setters gives the record in which each field that a setter
/// names holds what its last setter gave, and every other field is as
/// before. Setters of different fields can be called in either order.
pub proof fn lemma_setter_chain(
    p: PropsView,
    value: Seq<char>,
    id: Seq<char>,
    hint: Seq<char>,
    placeholder: Seq<char>,
)
    ensures
        p.with_value(value).with_id(id).with_hint(hint).with_placeholder(placeholder).with_required()
            == (PropsView {
            value: Some(value),
            id: Some(id),
            hint: Some(hint),
            required: true,
            placeholder: Some(placeholder),
            error: p.error,
        }),
        p.with_id(id).with_value(value) == p.with_value(value).with_id(id),
        p.with_hint(hint).with_placeholder(placeholder) == p.with_placeholder(placeholder).with_hint(
            hint,
        ),
        p.with_required().with_value(value) == p.with_value(value).with_required(),
        p.with_value(id).with_value(value) == p.with_value(value),
        p.with_required().with_required() == p.with_required(),
{
}

impl View for Props {
    type V = PropsView;

    open spec fn view(&self) -> PropsView {
        PropsView {
            value: text_of(self.value),
            id: text_of(self.id),
            hint: text_of(self.hint),
            required: self.required,
            placeholder: text_of(self.placeholder),
            error: text_of(self.error),
        }
    }
}

impl Default for Props {
    fn default() -> (out: Props)
        ensures
            out@ == PropsView::empty(),
    {
        Props {
            value: None,
            id: None,
            hint: None,
            required: false,
            placeholder: None,
            error: None,
        }
    }
}

impl Clone for Props {
    fn clone(&self) -> (out: Props)
        ensures
            out == *self,
    {
        Props {
            value: clone_text(&self.value),
            id: clone_text(&self.id),
            hint: clone_text(&self.hint),
            required: self.required,
            placeholder: clone_text(&self.placeholder),
            error: clone_text(&self.error),
        }
    }
}

impl Props {
    /// A record with only the value set, to what `value` converts into.
    pub fn new_value<S: Into<String>>(value: Option<S>) -> (out: Props)
        ensures
            out.value is Some <==> value is Some,
            value is Some && <S as IntoSpec<String>>::obeys_into_spec() ==> out.value == Some(
                <S as IntoSpec<String>>::into_spec(value->0),
            ),
            out@ == (PropsView { value: text_of(out.value), ..PropsView::empty() }),
    {
        let converted: Option<String> = match value {
            Some(v) => Some(v.into()),
            None => None,
        };
        Props {
            value: converted,
            id: None,
            hint: None,
            required: false,
            placeholder: None,
            error: None,
        }
    }

    /// The record with its value set to `value`.
    pub fn value(self, value: &str) -> (out: Props)
        ensures
            out@ == self@.with_value(value@),
    {
        Props { value: Some(value.to_owned()), ..self }
    }

    /// The record with its id set to `value`.
    pub fn id(self, value: &str) -> (out: Props)
        ensures
            out@ == self@.with_id(value@),
    {
        Props { id: Some(value.to_owned()), ..self }
    }

    /// The record with its hint set to `value`.
    pub fn hint(self, value: &str) -> (out: Props)
        ensures
            out@ == self@.with_hint(value@),
    {
        Props { hint: Some(value.to_owned()), ..self }
    }

    /// The record with its placeholder set to `value`.
    pub fn placeholder(self, value: &str) -> (out: Props)
        ensures
            out@ == self@.with_placeholder(value@),
    {
        Props { placeholder: Some(value.to_owned()), ..self }
    }

    /// The record marked as required.
    pub fn required(self) -> (out: Props)
        ensures
            out@ == self@.with_required(),
    {
        Props { required: true, ..self }
    }
}

} // verus!
