use crate::text::{ascii_lower, str_eq, to_ascii_lowercase};
use vstd::prelude::*;

verus! {

/// The column coupon redemptions are ordered by.
#[derive(Debug, Clone, Copy, PartialEq, Eq, Structural)]
pub enum CouponRedemptionSortColumn {
    CouponId,
    OrderId,
    CustomerId,
    CreatedAt,
    Id,
}

/// The column a sort key names, in any ASCII case; any other key sorts by
/// Id.
pub open spec fn coupon_redemption_sort_of(key: Seq<char>) -> CouponRedemptionSortColumn {
    let k = ascii_lower(key);
    if k == "couponid"@ || k == "coupon_id"@ {
        CouponRedemptionSortColumn::CouponId
    } else if k == "orderid"@ || k == "order_id"@ {
        CouponRedemptionSortColumn::OrderId
    } else if k == "customerid"@ || k == "customer_id"@ {
        CouponRedemptionSortColumn::CustomerId
    } else if k == "createdat"@ || k == "created_at"@ {
        CouponRedemptionSortColumn::CreatedAt
    } else {
        CouponRedemptionSortColumn::Id
    }
}

/// The column coupon redemptions are sorted by for the normalised sort key.
pub fn coupon_redemption_sort_column(sort_by: &str) -> (r: CouponRedemptionSortColumn)
    ensures
        r == coupon_redemption_sort_of(sort_by@),
{
    let lowered = to_ascii_lowercase(sort_by);
    let k = lowered.as_str();
    if str_eq(k, "couponid") || str_eq(k, "coupon_id") {
        CouponRedemptionSortColumn::CouponId
    } else if str_eq(k, "orderid") || str_eq(k, "order_id") {
        CouponRedemptionSortColumn::OrderId
    } else if str_eq(k, "customerid") || str_eq(k, "customer_id") {
        CouponRedemptionSortColumn::CustomerId
    } else if str_eq(k, "createdat") || str_eq(k, "created_at") {
        CouponRedemptionSortColumn::CreatedAt
    } else {
        CouponRedemptionSortColumn::Id
    }
}

} // verus!
