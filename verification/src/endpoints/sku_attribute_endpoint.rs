use crate::commons::exception_response::ExceptionResponse;
use crate::commons::i18n::{ErrorKey, Locale};
use crate::text::{ascii_lower, str_eq, to_ascii_lowercase};
use vstd::prelude::*;

verus! {

/// The column SKU attribute values are ordered by.
#[derive(Debug, Clone, Copy, PartialEq, Eq, Structural)]
pub enum SkuAttributeSortColumn {
    SkuId,
    ProductId,
    AttributeId,
    AttributeValueId,
    CreatedAt,
    Id,
}

/// The column a sort key names, in any ASCII case; any other key sorts by
/// Id.
pub open spec fn sku_attribute_sort_of(key: Seq<char>) -> SkuAttributeSortColumn {
    let k = ascii_lower(key);
    if k == "skuid"@ || k == "sku_id"@ {
        SkuAttributeSortColumn::SkuId
    } else if k == "productid"@ || k == "product_id"@ {
        SkuAttributeSortColumn::ProductId
    } else if k == "attributeid"@ || k == "attribute_id"@ {
        SkuAttributeSortColumn::AttributeId
    } else if k == "attributevalueid"@ || k == "attribute_value_id"@ {
        SkuAttributeSortColumn::AttributeValueId
    } else if k == "createdat"@ || k == "created_at"@ {
        SkuAttributeSortColumn::CreatedAt
    } else {
        SkuAttributeSortColumn::Id
    }
}

/// The column SKU attribute values are sorted by for the normalised sort key.
pub fn sku_attribute_sort_column(sort_by: &str) -> (r: SkuAttributeSortColumn)
    ensures
        r == sku_attribute_sort_of(sort_by@),
{
    let lowered = to_ascii_lowercase(sort_by);
    let k = lowered.as_str();
    if str_eq(k, "skuid") || str_eq(k, "sku_id") {
        SkuAttributeSortColumn::SkuId
    } else if str_eq(k, "productid") || str_eq(k, "product_id") {
        SkuAttributeSortColumn::ProductId
    } else if str_eq(k, "attributeid") || str_eq(k, "attribute_id") {
        SkuAttributeSortColumn::AttributeId
    } else if str_eq(k, "attributevalueid") || str_eq(k, "attribute_value_id") {
        SkuAttributeSortColumn::AttributeValueId
    } else if str_eq(k, "createdat") || str_eq(k, "created_at") {
        SkuAttributeSortColumn::CreatedAt
    } else {
        SkuAttributeSortColumn::Id
    }
}

/// The ids a SKU attribute value links.
#[derive(Debug, Clone, Copy, PartialEq, Eq, Structural)]
pub struct SkuAttributeLinks {
    pub product_id: i64,
    pub sku_id: i64,
    pub product_attribute_id: i64,
    pub attribute_id: i64,
    pub attribute_value_id: i64,
}

/// Every id that a SKU attribute value links is positive. A new value that
/// does not is a bad request; a change that does not is refused as forbidden.
pub fn validate_sku_attribute(links: SkuAttributeLinks, is_update: bool, locale: Locale) -> (r: Result<(), ExceptionResponse>)
    ensures
        r is Ok <==> links.product_id > 0 && links.sku_id > 0 && links.product_attribute_id > 0
            && links.attribute_id > 0 && links.attribute_value_id > 0,
        r matches Err(e) ==> e == if is_update {
            ExceptionResponse::Forbidden(locale, ErrorKey::InvalidParameterValue)
        } else {
            ExceptionResponse::BadRequest(locale, ErrorKey::InvalidParameterValue)
        },
{
    if links.product_id <= 0 || links.sku_id <= 0 || links.product_attribute_id <= 0
        || links.attribute_id <= 0 || links.attribute_value_id <= 0
    {
        if is_update {
            return Err(ExceptionResponse::Forbidden(locale, ErrorKey::InvalidParameterValue));
        }
        return Err(ExceptionResponse::BadRequest(locale, ErrorKey::InvalidParameterValue));
    }
    Ok(())
}

} // verus!
