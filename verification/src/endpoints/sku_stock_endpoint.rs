use crate::domain::commerce::SkuStock;
use crate::endpoints::json::sku_stock_json::SkuStockInputJson;
use crate::text::{ascii_lower, str_eq, to_ascii_lowercase};
use vstd::prelude::*;

verus! {

/// The column stock entries are ordered by.
#[derive(Debug, Clone, Copy, PartialEq, Eq, Structural)]
pub enum SkuStockSortColumn {
    SkuId,
    Quantity,
    Reserved,
    CreatedAt,
    UpdatedAt,
    Id,
}

/// The column a sort key names, in any ASCII case; any other key sorts by
/// Id.
pub open spec fn sku_stock_sort_of(key: Seq<char>) -> SkuStockSortColumn {
    let k = ascii_lower(key);
    if k == "skuid"@ || k == "sku_id"@ {
        SkuStockSortColumn::SkuId
    } else if k == "quantity"@ {
        SkuStockSortColumn::Quantity
    } else if k == "reserved"@ {
        SkuStockSortColumn::Reserved
    } else if k == "createdat"@ || k == "created_at"@ {
        SkuStockSortColumn::CreatedAt
    } else if k == "updatedat"@ || k == "updated_at"@ {
        SkuStockSortColumn::UpdatedAt
    } else {
        SkuStockSortColumn::Id
    }
}

/// The column stock entries are sorted by for the normalised sort key.
pub fn sku_stock_sort_column(sort_by: &str) -> (r: SkuStockSortColumn)
    ensures
        r == sku_stock_sort_of(sort_by@),
{
    let lowered = to_ascii_lowercase(sort_by);
    let k = lowered.as_str();
    if str_eq(k, "skuid") || str_eq(k, "sku_id") {
        SkuStockSortColumn::SkuId
    } else if str_eq(k, "quantity") {
        SkuStockSortColumn::Quantity
    } else if str_eq(k, "reserved") {
        SkuStockSortColumn::Reserved
    } else if str_eq(k, "createdat") || str_eq(k, "created_at") {
        SkuStockSortColumn::CreatedAt
    } else if str_eq(k, "updatedat") || str_eq(k, "updated_at") {
        SkuStockSortColumn::UpdatedAt
    } else {
        SkuStockSortColumn::Id
    }
}


/// A new stock entry of tenant `tenant_id`, with nothing reserved unless the
/// request says; it has no id, uuid or audit fields yet.
pub fn new_sku_stock(input: SkuStockInputJson, tenant_id: i64) -> (r: SkuStock)
    ensures
        r.id is None && r.uuid is None,
        r.tenant_id == Some(tenant_id),
        r.sku_id == input.sku_id,
        r.quantity == input.quantity,
        r.reserved == match input.reserved {
            Some(n) => n,
            None => 0,
        },
        r.created_at is None && r.created_by is None,
        r.updated_at is None && r.updated_by is None,
{
    SkuStock {
        id: None,
        uuid: None,
        tenant_id: Some(tenant_id),
        sku_id: input.sku_id,
        quantity: input.quantity,
        reserved: match input.reserved {
            Some(n) => n,
            None => 0,
        },
        created_at: None,
        created_by: None,
        updated_at: None,
        updated_by: None,
    }
}

/// A stock entry changed by a request: SKU and quantity as given, the
/// reserved amount only when the request gives one; the rest kept.
pub fn updated_sku_stock(existing: SkuStock, input: SkuStockInputJson) -> (r: SkuStock)
    ensures
        r.id == existing.id && r.uuid == existing.uuid && r.tenant_id == existing.tenant_id,
        r.sku_id == input.sku_id,
        r.quantity == input.quantity,
        r.reserved == match input.reserved {
            Some(n) => n,
            None => existing.reserved,
        },
        r.created_at == existing.created_at && r.created_by == existing.created_by,
        r.updated_at == existing.updated_at && r.updated_by == existing.updated_by,
{
    let reserved = match input.reserved {
        Some(n) => n,
        None => existing.reserved,
    };
    SkuStock { sku_id: input.sku_id, quantity: input.quantity, reserved, ..existing }
}

} // verus!
