//! The optional settings of a tag: id, placeholder, hint and required flag.

use vstd::prelude::*;
use crate::markup::{clone_text, text_of};

verus! {

/// The settings of a tag. A setter returns the record with one field
/// replaced; nothing is checked here.
#[derive(Debug)]
pub struct TagOptions {
    pub id: Option<String>,
    pub placeholder: Option<String>,
    pub hint: Option<String>,
    pub required: bool,
}

/// What a `TagOptions` holds, as plain text.
pub ghost struct TagOptionsView {
    pub id: Option<Seq<char>>,
    pub placeholder: Option<Seq<char>>,
    pub hint: Option<Seq<char>>,
    pub required: bool,
}

impl TagOptionsView {
    /// The record with nothing set.
    pub open spec fn empty() -> TagOptionsView {
        TagOptionsView { id: None, placeholder: None, hint: None, required: false }
    }
}

impl View for TagOptions {
    type V = TagOptionsView;

    open spec fn view(&self) -> TagOptionsView {
        TagOptionsView {
            id: text_of(self.id),
            placeholder: text_of(self.placeholder),
            hint: text_of(self.hint),
            required: self.required,
        }
    }
}

impl Default for TagOptions {
    fn default() -> (out: TagOptions)
        ensures
            out@ == TagOptionsView::empty(),
    {
        TagOptions { id: None, placeholder: None, hint: None, required: false }
    }
}

impl Clone for TagOptions {
    fn clone(&self) -> (out: TagOptions)
        ensures
            out == *self,
    {
        TagOptions {
            id: clone_text(&self.id),
            placeholder: clone_text(&self.placeholder),
            hint: clone_text(&self.hint),
            required: self.required,
        }
    }
}

impl TagOptions {
    /// The record with nothing set.
    pub fn new() -> (out: TagOptions)
        ensures
            out@ == TagOptionsView::empty(),
    {
        TagOptions { id: None, placeholder: None, hint: None, required: false }
    }

    /// The record with its id set to `value`.
    pub fn id(self, value: &str) -> (out: TagOptions)
        ensures
            out@ == (TagOptionsView { id: Some(value@), ..self@ }),
    {
        TagOptions { id: Some(value.to_owned()), ..self }
    }

    /// The record with its placeholder set to `value`.
    pub fn placeholder(self, value: &str) -> (out: TagOptions)
        ensures
            out@ == (TagOptionsView { placeholder: Some(value@), ..self@ }),
    {
        TagOptions { placeholder: Some(value.to_owned()), ..self }
    }

    /// The record with its hint set to `value`.
    pub fn hint(self, value: &str) -> (out: TagOptions)
        ensures
            out@ == (TagOptionsView { hint: Some(value@), ..self@ }),
    {
        TagOptions { hint: Some(value.to_owned()), ..self }
    }

    /// The record marked as required.
    pub fn required(self) -> (out: TagOptions)
        ensures
            out@ == (TagOptionsView { required: true, ..self@ }),
    {
        TagOptions { required: true, ..self }
    }
}

} // verus!
