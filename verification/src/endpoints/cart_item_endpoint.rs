use crate::commons::exception_response::ExceptionResponse;
use crate::commons::i18n::{ErrorKey, Locale};
use crate::text::{ascii_lower, str_eq, to_ascii_lowercase};
use vstd::prelude::*;

verus! {

/// The column cart items are ordered by.
#[derive(Debug, Clone, Copy, PartialEq, Eq, Structural)]
pub enum CartItemSortColumn {
    CartId,
    SkuId,
    Quantity,
    CreatedAt,
    Id,
}

/// The column a sort key names, in any ASCII case; any other key sorts by
/// Id.
pub open spec fn cart_item_sort_of(key: Seq<char>) -> CartItemSortColumn {
    let k = ascii_lower(key);
    if k == "cartid"@ || k == "cart_id"@ {
        CartItemSortColumn::CartId
    } else if k == "skuid"@ || k == "sku_id"@ {
        CartItemSortColumn::SkuId
    } else if k == "quantity"@ {
        CartItemSortColumn::Quantity
    } else if k == "createdat"@ || k == "created_at"@ {
        CartItemSortColumn::CreatedAt
    } else {
        CartItemSortColumn::Id
    }
}

/// The column cart items are sorted by for the normalised sort key.
pub fn cart_item_sort_column(sort_by: &str) -> (r: CartItemSortColumn)
    ensures
        r == cart_item_sort_of(sort_by@),
{
    let lowered = to_ascii_lowercase(sort_by);
    let k = lowered.as_str();
    if str_eq(k, "cartid") || str_eq(k, "cart_id") {
        CartItemSortColumn::CartId
    } else if str_eq(k, "skuid") || str_eq(k, "sku_id") {
        CartItemSortColumn::SkuId
    } else if str_eq(k, "quantity") {
        CartItemSortColumn::Quantity
    } else if str_eq(k, "createdat") || str_eq(k, "created_at") {
        CartItemSortColumn::CreatedAt
    } else {
        CartItemSortColumn::Id
    }
}

/// A cart or order line has a positive quantity and a unit price that is
/// not negative. A new line that does not is a bad request; a changed cart
/// line that does not is refused as forbidden.
pub fn validate_line_item(quantity: i32, unit_price_cents: i64, is_update: bool, locale: Locale) -> (r: Result<(), ExceptionResponse>)
    ensures
        r is Ok <==> quantity > 0 && unit_price_cents >= 0,
        r matches Err(e) ==> e == if is_update {
            ExceptionResponse::Forbidden(locale, ErrorKey::InvalidParameterValue)
        } else {
            ExceptionResponse::BadRequest(locale, ErrorKey::InvalidParameterValue)
        },
{
    if quantity <= 0 || unit_price_cents < 0 {
        if is_update {
            return Err(ExceptionResponse::Forbidden(locale, ErrorKey::InvalidParameterValue));
        }
        return Err(ExceptionResponse::BadRequest(locale, ErrorKey::InvalidParameterValue));
    }
    Ok(())
}

} // verus!
