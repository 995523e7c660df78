//! Composable builders for HTML form fields.
//!
//! Each widget is an immutable value configured by chained calls and turned
//! into a markup fragment by `render`. What a widget renders is given by a
//! specification function on its view, and every `render` is proved to
//! produce exactly that text.

use vstd::prelude::*;

pub mod base;
pub mod checkbox;
pub mod error;
pub mod field;
pub mod field_props;
pub mod id_value;
pub mod key_value;
pub mod markup;
pub mod select;
pub mod tag_options;
pub mod text;
pub mod validation;

verus! {

/// A value that has an id and a display value.
pub trait IdValue: Sized {
    /// The id.
    fn id(&self) -> String;

    /// The display value.
    fn value(&self) -> String;
}

} // verus!
