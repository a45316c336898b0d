use vstd::prelude::*;

verus! {

/// A shopping cart, as JSON shows it.
#[derive(Debug, Clone)]
pub struct CartJson {
    pub id: i64,
    pub uuid: String,
    pub tenant_id: Option<i64>,
    pub customer_id: Option<i64>,
    pub status: String,
    pub expires_at: Option<chrono::NaiveDateTime>,
    pub created_at: Option<chrono::NaiveDateTime>,
    pub updated_at: Option<chrono::NaiveDateTime>,
}

/// A line of a shopping cart, as JSON shows it.
#[derive(Debug, Clone)]
pub struct CartItemJson {
    pub id: i64,
    pub uuid: String,
    pub tenant_id: Option<i64>,
    pub cart_id: i64,
    pub sku_id: i64,
    pub quantity: i32,
    pub unit_price_cents: i64,
    pub created_at: Option<chrono::NaiveDateTime>,
    pub updated_at: Option<chrono::NaiveDateTime>,
}


} // verus!
