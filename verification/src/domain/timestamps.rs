//! The points in time that records carry. The rules pass them along and
//! never look inside.
use vstd::prelude::*;

verus! {

/// `chrono::NaiveDateTime`, a date and time of day without a time zone.
#[verifier::external_type_specification]
#[verifier::external_body]
pub struct ExNaiveDateTime(chrono::NaiveDateTime);

/// `chrono::NaiveDate`, a calendar date.
#[verifier::external_type_specification]
#[verifier::external_body]
pub struct ExNaiveDate(chrono::NaiveDate);

/// `Clone` for `chrono::NaiveDateTime`, which chrono derives together with
/// `Copy`: the clone is the same point in time.
pub assume_specification[ <chrono::NaiveDateTime as std::clone::Clone>::clone ](
    dt: &chrono::NaiveDateTime,
) -> (r: chrono::NaiveDateTime)
    ensures
        r == *dt,
;

} // verus!
