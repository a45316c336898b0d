use crate::commons::pagination::{clone_text, PageQuery};
use vstd::prelude::*;

verus! {

/// A line of an order, as JSON shows it.
#[derive(Debug, Clone)]
pub struct OrderItemJson {
    pub id: i64,
    pub uuid: String,
    pub tenant_id: i64,
    pub order_id: i64,
    pub sku_id: i64,
    pub sku_code: String,
    pub product_name: String,
    pub attributes_desc: Option<String>,
    pub quantity: i32,
    pub unit_price_cents: i64,
    pub discount_cents: i64,
    pub ncm: String,
    pub cfop: Option<String>,
    pub csosn: Option<String>,
    pub icms_rate_bp: i32,
    pub tax_cents: i64,
    pub total_cents: i64,
    pub created_at: chrono::NaiveDateTime,
    pub updated_at: chrono::NaiveDateTime,
}

/// A change of an order's status, as JSON shows it.
#[derive(Debug, Clone)]
pub struct OrderStatusHistoryJson {
    pub id: i64,
    pub uuid: String,
    pub tenant_id: i64,
    pub order_id: i64,
    pub from_status: Option<String>,
    pub to_status: String,
    pub actor_type: String,
    pub actor_id: Option<i64>,
    pub note: Option<String>,
    pub created_at: chrono::NaiveDateTime,
}


/// Address input.
#[derive(Debug, Clone)]
pub struct AddressInputJson {
    pub recipient: String,
    pub address_line1: String,
    pub address_line2: Option<String>,
    pub locality: String,
    pub administrative_area: String,
    pub postal_code: String,
    pub country_code: String,
}

/// Purchase item input.
#[derive(Debug, Clone)]
pub struct PurchaseItemInputJson {
    pub sku_id: i64,
    pub quantity: i32,
}

/// Create purchase input.
#[derive(Debug, Clone)]
pub struct CreatePurchaseInputJson {
    pub items: Vec<PurchaseItemInputJson>,
    pub shipping_address: AddressInputJson,
    pub billing_address: Option<AddressInputJson>,
}

/// Orders page query.
#[derive(Debug, Clone)]
pub struct OrdersPageQuery {
    pub page: Option<u64>,
    pub page_size: Option<u64>,
    pub q: Option<String>,
    pub sort_by: Option<String>,
    pub sort_dir: Option<String>,
    pub status: Option<String>,
    pub tenant_id: Option<i64>,
    pub customer_id: Option<i64>,
}

impl OrdersPageQuery {
    /// The paging part of the request.
    pub fn to_page_query(&self) -> (r: PageQuery)
        ensures
            r == (PageQuery {
                page: self.page,
                page_size: self.page_size,
                q: self.q,
                sort_by: self.sort_by,
                sort_dir: self.sort_dir,
            }),
    {
        PageQuery {
            page: self.page,
            page_size: self.page_size,
            q: clone_text(&self.q),
            sort_by: clone_text(&self.sort_by),
            sort_dir: clone_text(&self.sort_dir),
        }
    }
}

} // verus!
