use crate::commons::pagination::{clone_text, PageQuery};
use crate::commons::exception_response::ExceptionResponse;
use crate::authentication::access_policy::{can_read_tenant, may_update, tenant_for_write};
use crate::commons::i18n::{ErrorKey, Locale};
use crate::domain::CurrentUser;
use crate::endpoints::json::catalog_json::{SkuInputJson, SkuJson};
use crate::text::{ascii_lower, is_blank, is_blank_str, str_eq, to_ascii_lowercase};
use vstd::prelude::*;

verus! {

/// Sku page query.
#[derive(Debug, Clone)]
pub struct SkuPageQuery {
    pub page: Option<u64>,
    pub page_size: Option<u64>,
    pub q: Option<String>,
    pub sort_by: Option<String>,
    pub sort_dir: Option<String>,
    pub product_id: Option<i64>,
    pub active: Option<bool>,
    pub tenant_id: Option<i64>,
}

impl SkuPageQuery {
    /// The paging part of the request.
    pub fn to_page_query(&self) -> (r: PageQuery)
        ensures
            r == (PageQuery {
                page: self.page,
                page_size: self.page_size,
                q: self.q,
                sort_by: self.sort_by,
                sort_dir: self.sort_dir,
            }),
    {
        PageQuery {
            page: self.page,
            page_size: self.page_size,
            q: clone_text(&self.q),
            sort_by: clone_text(&self.sort_by),
            sort_dir: clone_text(&self.sort_dir),
        }
    }
}

/// The column SKUs are ordered by.
#[derive(Debug, Clone, Copy, PartialEq, Eq, Structural)]
pub enum SkuSortColumn {
    VariantKey,
    PriceCents,
    Active,
    CreatedAt,
    Id,
    Code,
}

/// The column a sort key names, in any ASCII case; any other key sorts by
/// Code.
pub open spec fn sku_sort_of(key: Seq<char>) -> SkuSortColumn {
    let k = ascii_lower(key);
    if k == "variantkey"@ || k == "variant_key"@ {
        SkuSortColumn::VariantKey
    } else if k == "pricecents"@ || k == "price_cents"@ {
        SkuSortColumn::PriceCents
    } else if k == "active"@ {
        SkuSortColumn::Active
    } else if k == "createdat"@ || k == "created_at"@ {
        SkuSortColumn::CreatedAt
    } else if k == "id"@ {
        SkuSortColumn::Id
    } else {
        SkuSortColumn::Code
    }
}

/// The column SKUs are sorted by for the normalised sort key.
pub fn sku_sort_column(sort_by: &str) -> (r: SkuSortColumn)
    ensures
        r == sku_sort_of(sort_by@),
{
    let lowered = to_ascii_lowercase(sort_by);
    let k = lowered.as_str();
    if str_eq(k, "variantkey") || str_eq(k, "variant_key") {
        SkuSortColumn::VariantKey
    } else if str_eq(k, "pricecents") || str_eq(k, "price_cents") {
        SkuSortColumn::PriceCents
    } else if str_eq(k, "active") {
        SkuSortColumn::Active
    } else if str_eq(k, "createdat") || str_eq(k, "created_at") {
        SkuSortColumn::CreatedAt
    } else if str_eq(k, "id") {
        SkuSortColumn::Id
    } else {
        SkuSortColumn::Code
    }
}


/// A new SKU needs a code and a variant key with text and a price that is
/// not negative.
pub fn validate_new_sku(input: &SkuInputJson, locale: Locale) -> (r: Result<(), ExceptionResponse>)
    ensures
        r is Ok <==> !is_blank(input.code@) && !is_blank(input.variant_key@) && input.price_cents >= 0,
        r matches Err(e) ==> e == ExceptionResponse::BadRequest(locale, ErrorKey::InvalidParameterValue),
{
    if is_blank_str(input.code.as_str()) || is_blank_str(input.variant_key.as_str()) || input.price_cents < 0 {
        return Err(ExceptionResponse::BadRequest(locale, ErrorKey::InvalidParameterValue));
    }
    Ok(())
}

/// A SKU's new price may not be negative; a negative one is refused as a
/// forbidden change.
pub fn validate_sku_price(input: &SkuInputJson, locale: Locale) -> (r: Result<(), ExceptionResponse>)
    ensures
        r is Ok <==> input.price_cents >= 0,
        r matches Err(e) ==> e == ExceptionResponse::Forbidden(locale, ErrorKey::InvalidParameterValue),
{
    if input.price_cents < 0 {
        return Err(ExceptionResponse::Forbidden(locale, ErrorKey::InvalidParameterValue));
    }
    Ok(())
}

/// A SKU belongs to a product of its own tenant: `product_tenant` is the
/// tenant of the product named, or `None` when there is no such product.
pub fn check_sku_product(product_tenant: Option<Option<i64>>, tenant_id: Option<i64>, locale: Locale) -> (r: Result<(), ExceptionResponse>)
    ensures
        r is Ok <==> product_tenant == Some(tenant_id),
        r matches Err(e) ==> e == ExceptionResponse::BadRequest(locale, ErrorKey::InvalidParameterValue),
{
    match product_tenant {
        Some(t) => {
            if t != tenant_id {
                return Err(ExceptionResponse::BadRequest(locale, ErrorKey::InvalidParameterValue));
            }
            Ok(())
        },
        None => Err(ExceptionResponse::BadRequest(locale, ErrorKey::InvalidParameterValue)),
    }
}

/// The SKU a create or an update stores: `id`, `uuid` and `tenant_id` are
/// the record's own (none yet for a new one), the rest is the input.
pub fn sku_record(id: i64, uuid: String, tenant_id: Option<i64>, input: SkuInputJson) -> (r: SkuJson)
    ensures
        r.id == id && r.uuid == uuid && r.tenant_id == tenant_id,
        r.product_id == input.product_id,
        r.code == input.code && r.variant_key == input.variant_key,
        r.price_cents == input.price_cents && r.compare_at_price_cents == input.compare_at_price_cents,
        r.weight_g == input.weight_g && r.width_mm == input.width_mm,
        r.height_mm == input.height_mm && r.length_mm == input.length_mm,
        r.active == input.active,
{
    SkuJson {
        id,
        uuid,
        tenant_id,
        product_id: input.product_id,
        code: input.code,
        variant_key: input.variant_key,
        price_cents: input.price_cents,
        compare_at_price_cents: input.compare_at_price_cents,
        weight_g: input.weight_g,
        width_mm: input.width_mm,
        height_mm: input.height_mm,
        length_mm: input.length_mm,
        active: input.active,
    }
}


/// The catalogue's check on a changed SKU: a change the user may not make
/// (see `may_update`), or a negative price, is answered as a bad request.
pub fn check_catalog_sku_update(
    user: &CurrentUser,
    existing: Option<i64>,
    requested: Option<i64>,
    price_cents: i32,
    locale: Locale,
) -> (r: Result<(), ExceptionResponse>)
    ensures
        r is Ok <==> may_update(*user, existing, requested) && price_cents >= 0,
        r matches Err(e) ==> e == ExceptionResponse::BadRequest(locale, ErrorKey::InvalidParameterValue),
{
    let target = match requested {
        Some(t) => Some(t),
        None => existing,
    };
    if !can_read_tenant(user, existing) || tenant_for_write(user, target) != existing || price_cents < 0 {
        return Err(ExceptionResponse::BadRequest(locale, ErrorKey::InvalidParameterValue));
    }
    Ok(())
}

} // verus!
