//! Reading the report of the `validator` crate.

use vstd::prelude::*;

verus! {

#[verifier::external_type_specification]
#[verifier::external_body]
pub struct ExValidatorReport(validator::ValidationErrors);

/// The names of the fields that a report holds an entry for.
pub uninterp spec fn reported_fields(report: validator::ValidationErrors) -> Set<Seq<char>>;

/// True when `report` holds an entry for the field `name`.
///
/// Trusted: the body asks the map returned by
/// `validator::ValidationErrors::errors` whether `name` is one of its keys.
/// The contract names the set of those keys and says no more of it.
#[verifier::external_body]
pub(crate) fn reports_field(report: &validator::ValidationErrors, name: &str) -> (out: bool)
    ensures
        out == reported_fields(*report).contains(name@),
{
    report.errors().contains_key(name)
}

/// What a widget keeps of a report for the field `name`: nothing when the
/// field is not reported, an empty message when it is.
pub open spec fn reported_state(report: validator::ValidationErrors, name: Seq<char>) -> Option<
    Seq<char>,
> {
    if reported_fields(report).contains(name) {
        Some(Seq::empty())
    } else {
        None
    }
}

/// The state of a field given whether a report holds it.
pub fn state_from_report(reported: bool) -> (out: Option<String>)
    ensures
        out is Some == reported,
        reported ==> out->0@ == Seq::<char>::empty(),
{
    if reported {
        Some(String::new())
    } else {
        None
    }
}

} // verus!
