use crate::text::{ascii_lower, str_eq, str_to_lowercase, to_ascii_lowercase, unicode_lowercase};
use vstd::prelude::*;

verus! {

/// The column carts are ordered by.
#[derive(Debug, Clone, Copy, PartialEq, Eq, Structural)]
pub enum CartSortColumn {
    Status,
    CustomerId,
    ExpiresAt,
    CreatedAt,
    Id,
}

/// The column a sort key names, in any ASCII case; any other key sorts by
/// Id.
pub open spec fn cart_sort_of(key: Seq<char>) -> CartSortColumn {
    let k = ascii_lower(key);
    if k == "status"@ {
        CartSortColumn::Status
    } else if k == "customerid"@ || k == "customer_id"@ {
        CartSortColumn::CustomerId
    } else if k == "expiresat"@ || k == "expires_at"@ {
        CartSortColumn::ExpiresAt
    } else if k == "createdat"@ || k == "created_at"@ {
        CartSortColumn::CreatedAt
    } else {
        CartSortColumn::Id
    }
}

/// The column carts are sorted by for the normalised sort key.
pub fn cart_sort_column(sort_by: &str) -> (r: CartSortColumn)
    ensures
        r == cart_sort_of(sort_by@),
{
    let lowered = to_ascii_lowercase(sort_by);
    let k = lowered.as_str();
    if str_eq(k, "status") {
        CartSortColumn::Status
    } else if str_eq(k, "customerid") || str_eq(k, "customer_id") {
        CartSortColumn::CustomerId
    } else if str_eq(k, "expiresat") || str_eq(k, "expires_at") {
        CartSortColumn::ExpiresAt
    } else if str_eq(k, "createdat") || str_eq(k, "created_at") {
        CartSortColumn::CreatedAt
    } else {
        CartSortColumn::Id
    }
}

/// The status a cart is saved with: a given status in Unicode lower case;
/// without one, a cart being changed keeps its status and a new cart is
/// active.
pub fn cart_status(requested: Option<String>, current: Option<String>) -> (r: String)
    ensures
        r@ == match requested {
            Some(s) => unicode_lowercase(s@),
            None => match current {
                Some(c) => c@,
                None => unicode_lowercase("active"@),
            },
        },
{
    match requested {
        Some(s) => str_to_lowercase(s.as_str()),
        None => match current {
            Some(c) => c,
            None => str_to_lowercase("active"),
        },
    }
}

} // verus!
