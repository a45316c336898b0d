use vstd::prelude::*;

verus! {

/// The price of shipping to a state, as JSON shows it.
#[derive(Debug, Clone)]
pub struct ShippingRateJson {
    pub id: i64,
    pub uuid: String,
    pub tenant_id: Option<i64>,
    pub uf: String,
    pub price_cents: i64,
    pub created_at: Option<chrono::NaiveDateTime>,
    pub updated_at: Option<chrono::NaiveDateTime>,
}


} // verus!
