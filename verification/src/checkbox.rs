//! Checkboxes and radio buttons.

use vstd::prelude::*;
use vstd::string::*;
use crate::markup::{
    boolean_attribute, escaped, join_class, joined_class, push_boolean_attribute, push_escaped,
    Markup, Render,
};

verus! {

/// The kind of a check control.
#[derive(Clone, Copy, Debug, PartialEq, Eq, Structural)]
pub enum CheckboxType {
    Check,
    Radio,
}

impl CheckboxType {
    /// The value of the input's `type` attribute.
    pub open spec fn keyword(self) -> Seq<char> {
        match self {
            CheckboxType::Check => "checkbox"@,
            CheckboxType::Radio => "radio"@,
        }
    }

    /// The value of the input's `type` attribute.
    pub fn as_str(self) -> (out: &'static str)
        ensures
            out@ == self.keyword(),
    {
        match self {
            CheckboxType::Check => "checkbox",
            CheckboxType::Radio => "radio",
        }
    }
}

impl Default for CheckboxType {
    fn default() -> (out: CheckboxType)
        ensures
            out == CheckboxType::Check,
    {
        CheckboxType::Check
    }
}

/// A checkbox or radio button with its label, wrapped in a `div`.
#[derive(Debug)]
pub struct Checkbox {
    name: String,
    label: String,
    class: String,
    my_type: CheckboxType,
    is_checked: bool,
}

/// What a `Checkbox` holds.
pub ghost struct CheckboxView {
    pub name: Seq<char>,
    pub label: Seq<char>,
    pub class: Seq<char>,
    pub kind: CheckboxType,
    pub is_checked: bool,
}

impl CheckboxView {
    /// A new control of the given kind: the wrapper's class is `form-check`
    /// and the control is not checked.
    pub open spec fn initial(kind: CheckboxType, name: Seq<char>, label: Seq<char>) -> CheckboxView {
        CheckboxView { name, label, class: "form-check"@, kind, is_checked: false }
    }

    /// The fragment up to the place of the `checked` attribute.
    pub open spec fn markup_before_checked(self) -> Seq<char> {
        "<div class=\""@ + escaped(self.class) + "\"><input name=\""@ + escaped(self.name)
            + "\" class=\"form-check-input\" type=\""@ + self.kind.keyword() + "\""@
    }

    /// The fragment from the end of the input's tag on.
    pub open spec fn markup_after_checked(self) -> Seq<char> {
        "><label class=\"form-check-label\">"@ + escaped(self.label) + "</label></div>"@
    }

    /// The whole fragment. `checked` is a boolean attribute: it stands in the
    /// input's tag when the control is checked and is left out when it is
    /// not.
    pub open spec fn markup(self) -> Seq<char> {
        self.markup_before_checked() + boolean_attribute("checked"@, self.is_checked)
            + self.markup_after_checked()
    }
}

/// The `checked` attribute is there or not, and never has a value: the
/// fragment of a control that is not checked is the text before the
/// attribute's place followed by the text after it, and the fragment of the
/// same control checked has ` checked`, and nothing else, between the two.
pub proof fn lemma_checked_is_boolean(v: CheckboxView)
    ensures
        (CheckboxView { is_checked: false, ..v }).markup() == v.markup_before_checked()
            + v.markup_after_checked(),
        (CheckboxView { is_checked: true, ..v }).markup() == v.markup_before_checked() + " "@
            + "checked"@ + v.markup_after_checked(),
        (CheckboxView { is_checked: true, ..v }).markup().len() == (CheckboxView {
            is_checked: false,
            ..v
        }).markup().len() + 8,
{
    reveal_strlit(" ");
    reveal_strlit("checked");
    let off = CheckboxView { is_checked: false, ..v };
    let on = CheckboxView { is_checked: true, ..v };
    assert(off.markup_before_checked() == v.markup_before_checked());
    assert(on.markup_before_checked() == v.markup_before_checked());
    assert(off.markup() =~= v.markup_before_checked() + v.markup_after_checked());
    assert(on.markup() =~= v.markup_before_checked() + " "@ + "checked"@
        + v.markup_after_checked());
}

impl View for Checkbox {
    type V = CheckboxView;

    closed spec fn view(&self) -> CheckboxView {
        CheckboxView {
            name: self.name@,
            label: self.label@,
            class: self.class@,
            kind: self.my_type,
            is_checked: self.is_checked,
        }
    }
}

impl Checkbox {
    fn new(my_type: CheckboxType, name: &str, label: &str) -> (out: Checkbox)
        ensures
            out@ == CheckboxView::initial(my_type, name@, label@),
    {
        Checkbox {
            name: name.to_owned(),
            label: label.to_owned(),
            class: "form-check".to_owned(),
            my_type,
            is_checked: false,
        }
    }

    /// A checkbox.
    pub fn check(name: &str, label: &str) -> (out: Checkbox)
        ensures
            out@ == CheckboxView::initial(CheckboxType::Check, name@, label@),
    {
        Self::new(CheckboxType::Check, name, label)
    }

    /// A radio button.
    pub fn radio(name: &str, label: &str) -> (out: Checkbox)
        ensures
            out@ == CheckboxView::initial(CheckboxType::Radio, name@, label@),
    {
        Self::new(CheckboxType::Radio, name, label)
    }

    /// The control with `classes` added to the wrapper's classes, after a
    /// space. Nothing is removed: a class given twice stands twice.
    pub fn class(self, classes: &str) -> (out: Checkbox)
        ensures
            out@ == (CheckboxView { class: joined_class(self@.class, classes@), ..self@ }),
    {
        let joined = join_class(self.class, classes);
        Checkbox { class: joined, ..self }
    }

    /// The control checked or not, as `is_checked` says.
    pub fn checked(self, is_checked: bool) -> (out: Checkbox)
        ensures
            out@ == (CheckboxView { is_checked, ..self@ }),
    {
        Checkbox { is_checked, ..self }
    }
}

impl Default for Checkbox {
    /// A checkbox with every text empty, not checked.
    fn default() -> (out: Checkbox)
        ensures
            out@ == (CheckboxView {
                name: Seq::empty(),
                label: Seq::empty(),
                class: Seq::empty(),
                kind: CheckboxType::Check,
                is_checked: false,
            }),
    {
        Checkbox {
            name: String::new(),
            label: String::new(),
            class: String::new(),
            my_type: CheckboxType::Check,
            is_checked: false,
        }
    }
}

impl Clone for Checkbox {
    fn clone(&self) -> (out: Checkbox)
        ensures
            out@ == self@,
    {
        Checkbox {
            name: self.name.clone(),
            label: self.label.clone(),
            class: self.class.clone(),
            my_type: self.my_type,
            is_checked: self.is_checked,
        }
    }
}

impl Render for Checkbox {
    open spec fn markup(&self) -> Seq<char> {
        self@.markup()
    }

    fn render(&self) -> (out: Markup) {
        let mut buffer = "<div class=\"".to_owned();
        push_escaped(&mut buffer, self.class.as_str());
        buffer.append("\"><input name=\"");
        push_escaped(&mut buffer, self.name.as_str());
        buffer.append("\" class=\"form-check-input\" type=\"");
        buffer.append(self.my_type.as_str());
        buffer.append("\"");
        assert(buffer@ == self@.markup_before_checked());
        push_boolean_attribute(&mut buffer, "checked", self.is_checked);
        let mut rest = "><label class=\"form-check-label\">".to_owned();
        push_escaped(&mut rest, self.label.as_str());
        rest.append("</label></div>");
        buffer.append(rest.as_str());
        Markup::pre_escaped(buffer)
    }
}

} // verus!
