//! The capability shared by fields that take settings.

use vstd::prelude::*;
use crate::field_props::Props;

verus! {

/// A field that can take a record of settings.
pub trait FieldInterface {
    /// The field with its settings replaced by `value`.
    fn props(self, value: Props) -> Self;
}

} // verus!
