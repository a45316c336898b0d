use crate::text::{ascii_lower, str_eq, to_ascii_lowercase};
use vstd::prelude::*;

verus! {

/// The column product categories are ordered by.
#[derive(Debug, Clone, Copy, PartialEq, Eq, Structural)]
pub enum ProductCategorySortColumn {
    ProductId,
    CategoryId,
    IsPrimary,
    CreatedAt,
    Id,
}

/// The column a sort key names, in any ASCII case; any other key sorts by
/// Id.
pub open spec fn product_category_sort_of(key: Seq<char>) -> ProductCategorySortColumn {
    let k = ascii_lower(key);
    if k == "productid"@ || k == "product_id"@ {
        ProductCategorySortColumn::ProductId
    } else if k == "categoryid"@ || k == "category_id"@ {
        ProductCategorySortColumn::CategoryId
    } else if k == "isprimary"@ || k == "is_primary"@ {
        ProductCategorySortColumn::IsPrimary
    } else if k == "createdat"@ || k == "created_at"@ {
        ProductCategorySortColumn::CreatedAt
    } else {
        ProductCategorySortColumn::Id
    }
}

/// The column product categories are sorted by for the normalised sort key.
pub fn product_category_sort_column(sort_by: &str) -> (r: ProductCategorySortColumn)
    ensures
        r == product_category_sort_of(sort_by@),
{
    let lowered = to_ascii_lowercase(sort_by);
    let k = lowered.as_str();
    if str_eq(k, "productid") || str_eq(k, "product_id") {
        ProductCategorySortColumn::ProductId
    } else if str_eq(k, "categoryid") || str_eq(k, "category_id") {
        ProductCategorySortColumn::CategoryId
    } else if str_eq(k, "isprimary") || str_eq(k, "is_primary") {
        ProductCategorySortColumn::IsPrimary
    } else if str_eq(k, "createdat") || str_eq(k, "created_at") {
        ProductCategorySortColumn::CreatedAt
    } else {
        ProductCategorySortColumn::Id
    }
}

} // verus!
