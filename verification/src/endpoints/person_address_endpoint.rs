use crate::text::{ascii_lower, str_eq, to_ascii_lowercase};
use vstd::prelude::*;

verus! {

/// The column person addresses are ordered by.
#[derive(Debug, Clone, Copy, PartialEq, Eq, Structural)]
pub enum PersonAddressSortColumn {
    Locality,
    AdministrativeArea,
    PostalCode,
    CountryCode,
    CreatedAt,
    Id,
}

/// The column a sort key names, in any ASCII case; any other key sorts by
/// Id.
pub open spec fn person_address_sort_of(key: Seq<char>) -> PersonAddressSortColumn {
    let k = ascii_lower(key);
    if k == "locality"@ {
        PersonAddressSortColumn::Locality
    } else if k == "administrative_area"@ || k == "administrativearea"@ {
        PersonAddressSortColumn::AdministrativeArea
    } else if k == "postal_code"@ || k == "postalcode"@ {
        PersonAddressSortColumn::PostalCode
    } else if k == "country_code"@ || k == "countrycode"@ {
        PersonAddressSortColumn::CountryCode
    } else if k == "createdat"@ || k == "created_at"@ {
        PersonAddressSortColumn::CreatedAt
    } else {
        PersonAddressSortColumn::Id
    }
}

/// The column person addresses are sorted by for the normalised sort key.
pub fn person_address_sort_column(sort_by: &str) -> (r: PersonAddressSortColumn)
    ensures
        r == person_address_sort_of(sort_by@),
{
    let lowered = to_ascii_lowercase(sort_by);
    let k = lowered.as_str();
    if str_eq(k, "locality") {
        PersonAddressSortColumn::Locality
    } else if str_eq(k, "administrative_area") || str_eq(k, "administrativearea") {
        PersonAddressSortColumn::AdministrativeArea
    } else if str_eq(k, "postal_code") || str_eq(k, "postalcode") {
        PersonAddressSortColumn::PostalCode
    } else if str_eq(k, "country_code") || str_eq(k, "countrycode") {
        PersonAddressSortColumn::CountryCode
    } else if str_eq(k, "createdat") || str_eq(k, "created_at") {
        PersonAddressSortColumn::CreatedAt
    } else {
        PersonAddressSortColumn::Id
    }
}

} // verus!
