use crate::commons::exception_response::ExceptionResponse;
use crate::commons::i18n::{ErrorKey, Locale};
use crate::domain::commerce::Coupon;
use crate::endpoints::json::coupon_json::CouponInputJson;
use crate::text::{
    all_ascii, ascii_lower, ascii_upper, is_blank, is_blank_str, str_eq, to_ascii_lowercase, trim, trim_str,
    trim_to_uppercase, unicode_uppercase,
};
use vstd::prelude::*;

verus! {

/// The column coupons are ordered by.
#[derive(Debug, Clone, Copy, PartialEq, Eq, Structural)]
pub enum CouponSortColumn {
    CouponType,
    Value,
    Active,
    CreatedAt,
    Id,
    Code,
}

/// The column a sort key names, in any ASCII case; any other key sorts by
/// Code.
pub open spec fn coupon_sort_of(key: Seq<char>) -> CouponSortColumn {
    let k = ascii_lower(key);
    if k == "coupontype"@ || k == "coupon_type"@ {
        CouponSortColumn::CouponType
    } else if k == "value"@ {
        CouponSortColumn::Value
    } else if k == "active"@ {
        CouponSortColumn::Active
    } else if k == "createdat"@ || k == "created_at"@ {
        CouponSortColumn::CreatedAt
    } else if k == "id"@ {
        CouponSortColumn::Id
    } else {
        CouponSortColumn::Code
    }
}

/// The column coupons are sorted by for the normalised sort key.
pub fn coupon_sort_column(sort_by: &str) -> (r: CouponSortColumn)
    ensures
        r == coupon_sort_of(sort_by@),
{
    let lowered = to_ascii_lowercase(sort_by);
    let k = lowered.as_str();
    if str_eq(k, "coupontype") || str_eq(k, "coupon_type") {
        CouponSortColumn::CouponType
    } else if str_eq(k, "value") {
        CouponSortColumn::Value
    } else if str_eq(k, "active") {
        CouponSortColumn::Active
    } else if str_eq(k, "createdat") || str_eq(k, "created_at") {
        CouponSortColumn::CreatedAt
    } else if str_eq(k, "id") {
        CouponSortColumn::Id
    } else {
        CouponSortColumn::Code
    }
}

/// A coupon needs a code and a coupon type with text.
pub fn validate_coupon(input: &CouponInputJson, locale: Locale) -> (r: Result<(), ExceptionResponse>)
    ensures
        r is Ok <==> !is_blank(input.code@) && !is_blank(input.coupon_type@),
        r matches Err(e) ==> e == ExceptionResponse::BadRequest(locale, ErrorKey::InvalidParameterValue),
{
    if is_blank_str(input.code.as_str()) || is_blank_str(input.coupon_type.as_str()) {
        return Err(ExceptionResponse::BadRequest(locale, ErrorKey::InvalidParameterValue));
    }
    Ok(())
}

/// A coupon code as stored: trimmed and in Unicode upper case.
pub fn coupon_code(code: &str) -> (r: String)
    ensures
        r@ == unicode_uppercase(trim(code@)),
        all_ascii(trim(code@)) ==> r@ == ascii_upper(trim(code@)),
{
    trim_to_uppercase(code)
}

/// The coupon fields a request sets: the code as stored, the type trimmed,
/// the rest as given.
pub open spec fn sets_coupon_fields(r: Coupon, input: CouponInputJson) -> bool {
    &&& r.code@ == unicode_uppercase(trim(input.code@))
    &&& r.campaign_id == input.campaign_id
    &&& r.coupon_type@ == trim(input.coupon_type@)
    &&& r.value == input.value
    &&& r.min_order_cents == input.min_order_cents
    &&& r.max_uses == input.max_uses
    &&& r.max_uses_per_customer == input.max_uses_per_customer
    &&& r.starts_at == input.starts_at
    &&& r.expires_at == input.expires_at
}

/// A new coupon of tenant `tenant_id`, active unless the request says
/// otherwise; it has no id, uuid or audit fields yet.
pub fn new_coupon(input: CouponInputJson, tenant_id: i64) -> (r: Coupon)
    ensures
        r.id is None && r.uuid is None,
        r.tenant_id == Some(tenant_id),
        sets_coupon_fields(r, input),
        r.active == match input.active {
            Some(a) => a,
            None => true,
        },
        r.created_at is None && r.created_by is None,
        r.updated_at is None && r.updated_by is None,
{
    Coupon {
        id: None,
        uuid: None,
        tenant_id: Some(tenant_id),
        code: coupon_code(input.code.as_str()),
        campaign_id: input.campaign_id,
        coupon_type: trim_str(input.coupon_type.as_str()),
        value: input.value,
        min_order_cents: input.min_order_cents,
        max_uses: input.max_uses,
        max_uses_per_customer: input.max_uses_per_customer,
        starts_at: input.starts_at,
        expires_at: input.expires_at,
        active: match input.active {
            Some(a) => a,
            None => true,
        },
        created_at: None,
        updated_at: None,
        created_by: None,
        updated_by: None,
    }
}

/// A coupon changed by a request; `active` changes only when the request
/// gives it, and identity, tenant and audit fields are kept.
pub fn updated_coupon(existing: Coupon, input: CouponInputJson) -> (r: Coupon)
    ensures
        r.id == existing.id && r.uuid == existing.uuid && r.tenant_id == existing.tenant_id,
        sets_coupon_fields(r, input),
        r.active == match input.active {
            Some(a) => a,
            None => existing.active,
        },
        r.created_at == existing.created_at && r.created_by == existing.created_by,
        r.updated_at == existing.updated_at && r.updated_by == existing.updated_by,
{
    Coupon {
        id: existing.id,
        uuid: existing.uuid,
        tenant_id: existing.tenant_id,
        code: coupon_code(input.code.as_str()),
        campaign_id: input.campaign_id,
        coupon_type: trim_str(input.coupon_type.as_str()),
        value: input.value,
        min_order_cents: input.min_order_cents,
        max_uses: input.max_uses,
        max_uses_per_customer: input.max_uses_per_customer,
        starts_at: input.starts_at,
        expires_at: input.expires_at,
        active: match input.active {
            Some(a) => a,
            None => existing.active,
        },
        created_at: existing.created_at,
        updated_at: existing.updated_at,
        created_by: existing.created_by,
        updated_by: existing.updated_by,
    }
}

} // verus!
