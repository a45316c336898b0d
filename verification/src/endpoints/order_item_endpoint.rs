use crate::text::{ascii_lower, str_eq, to_ascii_lowercase};
use vstd::prelude::*;

verus! {

/// The column order items are ordered by.
#[derive(Debug, Clone, Copy, PartialEq, Eq, Structural)]
pub enum OrderItemSortColumn {
    OrderId,
    SkuId,
    Quantity,
    CreatedAt,
    Id,
}

/// The column a sort key names, in any ASCII case; any other key sorts by
/// Id.
pub open spec fn order_item_sort_of(key: Seq<char>) -> OrderItemSortColumn {
    let k = ascii_lower(key);
    if k == "orderid"@ || k == "order_id"@ {
        OrderItemSortColumn::OrderId
    } else if k == "skuid"@ || k == "sku_id"@ {
        OrderItemSortColumn::SkuId
    } else if k == "quantity"@ {
        OrderItemSortColumn::Quantity
    } else if k == "createdat"@ || k == "created_at"@ {
        OrderItemSortColumn::CreatedAt
    } else {
        OrderItemSortColumn::Id
    }
}

/// The column order items are sorted by for the normalised sort key.
pub fn order_item_sort_column(sort_by: &str) -> (r: OrderItemSortColumn)
    ensures
        r == order_item_sort_of(sort_by@),
{
    let lowered = to_ascii_lowercase(sort_by);
    let k = lowered.as_str();
    if str_eq(k, "orderid") || str_eq(k, "order_id") {
        OrderItemSortColumn::OrderId
    } else if str_eq(k, "skuid") || str_eq(k, "sku_id") {
        OrderItemSortColumn::SkuId
    } else if str_eq(k, "quantity") {
        OrderItemSortColumn::Quantity
    } else if str_eq(k, "createdat") || str_eq(k, "created_at") {
        OrderItemSortColumn::CreatedAt
    } else {
        OrderItemSortColumn::Id
    }
}

} // verus!
