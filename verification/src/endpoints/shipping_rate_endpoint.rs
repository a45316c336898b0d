use crate::commons::exception_response::ExceptionResponse;
use crate::commons::i18n::{ErrorKey, Locale};
use crate::domain::commerce::ShippingRate;
use crate::text::{
    ascii_lower, is_blank, is_blank_str, str_eq, to_ascii_lowercase, trim, trim_to_uppercase,
    unicode_uppercase,
};
use vstd::prelude::*;

verus! {

/// The column shipping rates are ordered by.
#[derive(Debug, Clone, Copy, PartialEq, Eq, Structural)]
pub enum ShippingRateSortColumn {
    PriceCents,
    CreatedAt,
    Id,
    Uf,
}

/// The column a sort key names, in any ASCII case; any other key sorts by
/// Uf.
pub open spec fn shipping_rate_sort_of(key: Seq<char>) -> ShippingRateSortColumn {
    let k = ascii_lower(key);
    if k == "pricecents"@ || k == "price_cents"@ {
        ShippingRateSortColumn::PriceCents
    } else if k == "createdat"@ || k == "created_at"@ {
        ShippingRateSortColumn::CreatedAt
    } else if k == "id"@ {
        ShippingRateSortColumn::Id
    } else {
        ShippingRateSortColumn::Uf
    }
}

/// The column shipping rates are sorted by for the normalised sort key.
pub fn shipping_rate_sort_column(sort_by: &str) -> (r: ShippingRateSortColumn)
    ensures
        r == shipping_rate_sort_of(sort_by@),
{
    let lowered = to_ascii_lowercase(sort_by);
    let k = lowered.as_str();
    if str_eq(k, "pricecents") || str_eq(k, "price_cents") {
        ShippingRateSortColumn::PriceCents
    } else if str_eq(k, "createdat") || str_eq(k, "created_at") {
        ShippingRateSortColumn::CreatedAt
    } else if str_eq(k, "id") {
        ShippingRateSortColumn::Id
    } else {
        ShippingRateSortColumn::Uf
    }
}

/// A new shipping rate needs a state code with text and a price that is not
/// negative (else a bad request); a change is refused as forbidden only for a
/// negative price.
pub fn validate_shipping_rate(uf: &str, price_cents: i64, is_update: bool, locale: Locale) -> (r: Result<(), ExceptionResponse>)
    ensures
        r is Ok <==> price_cents >= 0 && (is_update || !is_blank(uf@)),
        r matches Err(e) ==> e == if is_update {
            ExceptionResponse::Forbidden(locale, ErrorKey::InvalidParameterValue)
        } else {
            ExceptionResponse::BadRequest(locale, ErrorKey::InvalidParameterValue)
        },
{
    if is_update {
        if price_cents < 0 {
            return Err(ExceptionResponse::Forbidden(locale, ErrorKey::InvalidParameterValue));
        }
        return Ok(());
    }
    if is_blank_str(uf) || price_cents < 0 {
        return Err(ExceptionResponse::BadRequest(locale, ErrorKey::InvalidParameterValue));
    }
    Ok(())
}


/// A new shipping rate of tenant `tenant_id`: the state code trimmed and in
/// upper case, the price as given; it has no id, uuid or audit fields yet.
pub fn new_shipping_rate(uf: &str, price_cents: i64, tenant_id: i64) -> (r: ShippingRate)
    ensures
        r.id is None && r.uuid is None,
        r.tenant_id == Some(tenant_id),
        r.uf@ == unicode_uppercase(trim(uf@)),
        r.price_cents == price_cents,
        r.created_at is None && r.created_by is None,
        r.updated_at is None && r.updated_by is None,
{
    ShippingRate {
        id: None,
        uuid: None,
        tenant_id: Some(tenant_id),
        uf: trim_to_uppercase(uf),
        price_cents,
        created_at: None,
        updated_at: None,
        created_by: None,
        updated_by: None,
    }
}

/// A shipping rate changed by a request: the state code trimmed and in
/// upper case, the price as given; the rest kept.
pub fn updated_shipping_rate(existing: ShippingRate, uf: &str, price_cents: i64) -> (r: ShippingRate)
    ensures
        r.id == existing.id && r.uuid == existing.uuid && r.tenant_id == existing.tenant_id,
        r.uf@ == unicode_uppercase(trim(uf@)),
        r.price_cents == price_cents,
        r.created_at == existing.created_at && r.created_by == existing.created_by,
        r.updated_at == existing.updated_at && r.updated_by == existing.updated_by,
{
    ShippingRate { uf: trim_to_uppercase(uf), price_cents, ..existing }
}

} // verus!
