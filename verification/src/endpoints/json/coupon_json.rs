use crate::commons::pagination::{clone_text, PageQuery};
use vstd::prelude::*;

verus! {

/// A discount coupon, as JSON shows it.
#[derive(Debug, Clone)]
pub struct CouponJson {
    pub id: i64,
    pub uuid: String,
    pub tenant_id: Option<i64>,
    pub code: String,
    pub campaign_id: Option<i64>,
    pub coupon_type: String,
    pub value: i32,
    pub min_order_cents: Option<i32>,
    pub max_uses: Option<i32>,
    pub max_uses_per_customer: Option<i32>,
    pub starts_at: Option<chrono::NaiveDateTime>,
    pub expires_at: Option<chrono::NaiveDateTime>,
    pub active: bool,
    pub created_at: Option<chrono::NaiveDateTime>,
    pub updated_at: Option<chrono::NaiveDateTime>,
}

/// The use of a coupon on an order, as JSON shows it.
#[derive(Debug, Clone)]
pub struct CouponRedemptionJson {
    pub id: i64,
    pub uuid: String,
    pub tenant_id: Option<i64>,
    pub coupon_id: i64,
    pub order_id: i64,
    pub customer_id: i64,
    pub created_at: Option<chrono::NaiveDateTime>,
}

/// A coupon as a request gives it.
#[derive(Debug, Clone)]
pub struct CouponInputJson {
    pub tenant_id: Option<i64>,
    pub code: String,
    pub campaign_id: Option<i64>,
    pub coupon_type: String,
    pub value: i32,
    pub min_order_cents: Option<i32>,
    pub max_uses: Option<i32>,
    pub max_uses_per_customer: Option<i32>,
    pub starts_at: Option<chrono::NaiveDateTime>,
    pub expires_at: Option<chrono::NaiveDateTime>,
    pub active: Option<bool>,
}

/// Coupon page query.
#[derive(Debug, Clone)]
pub struct CouponPageQuery {
    pub page: Option<u64>,
    pub page_size: Option<u64>,
    pub q: Option<String>,
    pub sort_by: Option<String>,
    pub sort_dir: Option<String>,
    pub active: Option<bool>,
    pub tenant_id: Option<i64>,
}

impl CouponPageQuery {
    /// The paging part of the request.
    pub fn to_page_query(&self) -> (r: PageQuery)
        ensures
            r == (PageQuery {
                page: self.page,
                page_size: self.page_size,
                q: self.q,
                sort_by: self.sort_by,
                sort_dir: self.sort_dir,
            }),
    {
        PageQuery {
            page: self.page,
            page_size: self.page_size,
            q: clone_text(&self.q),
            sort_by: clone_text(&self.sort_by),
            sort_dir: clone_text(&self.sort_dir),
        }
    }
}

/// Coupon redemption input.
#[derive(Debug, Clone)]
pub struct CouponRedemptionInputJson {
    pub tenant_id: Option<i64>,
    pub coupon_id: i64,
    pub order_id: i64,
    pub customer_id: i64,
}

/// Coupon redemption page query.
#[derive(Debug, Clone)]
pub struct CouponRedemptionPageQuery {
    pub page: Option<u64>,
    pub page_size: Option<u64>,
    pub q: Option<String>,
    pub sort_by: Option<String>,
    pub sort_dir: Option<String>,
    pub coupon_id: Option<i64>,
    pub order_id: Option<i64>,
    pub customer_id: Option<i64>,
    pub tenant_id: Option<i64>,
}

impl CouponRedemptionPageQuery {
    /// The paging part of the request.
    pub fn to_page_query(&self) -> (r: PageQuery)
        ensures
            r == (PageQuery {
                page: self.page,
                page_size: self.page_size,
                q: self.q,
                sort_by: self.sort_by,
                sort_dir: self.sort_dir,
            }),
    {
        PageQuery {
            page: self.page,
            page_size: self.page_size,
            q: clone_text(&self.q),
            sort_by: clone_text(&self.sort_by),
            sort_dir: clone_text(&self.sort_dir),
        }
    }
}

} // verus!
