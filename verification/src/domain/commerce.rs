//! The commerce records (customers, carts, orders, promotions, taxes,
//! shipping and stock) and the issued access tokens, as the rules hold them.
use crate::domain::Role;
use vstd::prelude::*;

verus! {

/// The price of shipping to a state.
#[derive(Debug, Clone)]
pub struct ShippingRate {
    pub id: Option<i64>,
    pub uuid: Option<String>,
    pub tenant_id: Option<i64>,
    pub uf: String,
    pub price_cents: i64,
    pub created_at: Option<chrono::NaiveDateTime>,
    pub updated_at: Option<chrono::NaiveDateTime>,
    pub created_by: Option<String>,
    pub updated_by: Option<String>,
}

/// A shop customer.
#[derive(Debug, Clone)]
pub struct Customer {
    pub id: Option<i64>,
    pub uuid: Option<String>,
    pub tenant_id: Option<i64>,
    pub name: String,
    pub email: String,
    pub cpf: Option<String>,
    pub phone: Option<String>,
    pub marketing_consent: bool,
    pub active: bool,
    pub created_at: Option<chrono::NaiveDateTime>,
    pub updated_at: Option<chrono::NaiveDateTime>,
    pub password_hash: String,
    pub consent_at: Option<chrono::NaiveDateTime>,
    pub created_by: Option<String>,
    pub updated_by: Option<String>,
}

/// An address a customer ships to.
#[derive(Debug, Clone)]
pub struct CustomerAddress {
    pub id: Option<i64>,
    pub uuid: Option<String>,
    pub tenant_id: Option<i64>,
    pub customer_id: i64,
    pub label: Option<String>,
    pub recipient: String,
    pub cep: String,
    pub logradouro: String,
    pub numero: String,
    pub complemento: Option<String>,
    pub bairro: String,
    pub cidade: String,
    pub uf: String,
    pub is_default: bool,
    pub created_at: Option<chrono::NaiveDateTime>,
    pub updated_at: Option<chrono::NaiveDateTime>,
    pub created_by: Option<String>,
    pub updated_by: Option<String>,
}

/// A tax rule for goods moving between two states.
#[derive(Debug, Clone)]
pub struct TaxRule {
    pub id: Option<i64>,
    pub uuid: Option<String>,
    pub tenant_id: Option<i64>,
    pub uf_origem: String,
    pub uf_destino: String,
    pub ncm_prefix: Option<String>,
    pub regime: String,
    pub csosn: Option<String>,
    pub cfop: String,
    pub icms_rate_bp: i32,
    pub active: bool,
    pub created_at: Option<chrono::NaiveDateTime>,
    pub updated_at: Option<chrono::NaiveDateTime>,
    pub created_by: Option<String>,
    pub updated_by: Option<String>,
}

/// A promotional campaign.
#[derive(Debug, Clone)]
pub struct Campaign {
    pub id: Option<i64>,
    pub uuid: Option<String>,
    pub tenant_id: Option<i64>,
    pub name: String,
    pub campaign_type: String,
    pub value: i32,
    pub scope: String,
    pub starts_at: chrono::NaiveDateTime,
    pub ends_at: chrono::NaiveDateTime,
    pub active: bool,
    pub created_at: Option<chrono::NaiveDateTime>,
    pub updated_at: Option<chrono::NaiveDateTime>,
    pub created_by: Option<String>,
    pub updated_by: Option<String>,
}

/// Something a campaign applies to.
#[derive(Debug, Clone)]
pub struct CampaignTarget {
    pub id: Option<i64>,
    pub uuid: Option<String>,
    pub tenant_id: Option<i64>,
    pub campaign_id: i64,
    pub target_type: String,
    pub target_id: i64,
    pub created_at: Option<chrono::NaiveDateTime>,
    pub created_by: Option<String>,
}

/// A discount coupon.
#[derive(Debug, Clone)]
pub struct Coupon {
    pub id: Option<i64>,
    pub uuid: Option<String>,
    pub tenant_id: Option<i64>,
    pub code: String,
    pub campaign_id: Option<i64>,
    pub coupon_type: String,
    pub value: i32,
    pub min_order_cents: Option<i32>,
    pub max_uses: Option<i32>,
    pub max_uses_per_customer: Option<i32>,
    pub starts_at: Option<chrono::NaiveDateTime>,
    pub expires_at: Option<chrono::NaiveDateTime>,
    pub active: bool,
    pub created_at: Option<chrono::NaiveDateTime>,
    pub updated_at: Option<chrono::NaiveDateTime>,
    pub created_by: Option<String>,
    pub updated_by: Option<String>,
}

/// The use of a coupon on an order.
#[derive(Debug, Clone)]
pub struct CouponRedemption {
    pub id: Option<i64>,
    pub uuid: Option<String>,
    pub tenant_id: Option<i64>,
    pub coupon_id: i64,
    pub order_id: i64,
    pub customer_id: i64,
    pub created_at: Option<chrono::NaiveDateTime>,
    pub created_by: Option<String>,
}

/// A shopping cart.
#[derive(Debug, Clone)]
pub struct Cart {
    pub id: Option<i64>,
    pub uuid: Option<String>,
    pub tenant_id: Option<i64>,
    pub customer_id: Option<i64>,
    pub status: String,
    pub expires_at: Option<chrono::NaiveDateTime>,
    pub created_at: Option<chrono::NaiveDateTime>,
    pub updated_at: Option<chrono::NaiveDateTime>,
    pub created_by: Option<String>,
    pub updated_by: Option<String>,
}

/// A line of a shopping cart.
#[derive(Debug, Clone)]
pub struct CartItem {
    pub id: Option<i64>,
    pub uuid: Option<String>,
    pub tenant_id: Option<i64>,
    pub cart_id: i64,
    pub sku_id: i64,
    pub quantity: i32,
    pub unit_price_cents: i64,
    pub created_at: Option<chrono::NaiveDateTime>,
    pub updated_at: Option<chrono::NaiveDateTime>,
    pub created_by: Option<String>,
    pub updated_by: Option<String>,
}

/// The link of a product to a category.
#[derive(Debug, Clone)]
pub struct ProductCategory {
    pub id: Option<i64>,
    pub uuid: Option<String>,
    pub tenant_id: Option<i64>,
    pub product_id: i64,
    pub category_id: i64,
    pub is_primary: bool,
    pub created_at: Option<chrono::NaiveDateTime>,
    pub created_by: Option<String>,
}

/// The value a SKU has for an attribute of its product.
#[derive(Debug, Clone)]
pub struct SkuAttributeValue {
    pub id: Option<i64>,
    pub uuid: Option<String>,
    pub tenant_id: Option<i64>,
    pub product_id: i64,
    pub sku_id: i64,
    pub product_attribute_id: i64,
    pub attribute_id: i64,
    pub attribute_value_id: i64,
    pub created_at: Option<chrono::NaiveDateTime>,
    pub created_by: Option<String>,
    pub updated_at: Option<chrono::NaiveDateTime>,
    pub updated_by: Option<String>,
}

/// The stock of a SKU.
#[derive(Debug, Clone)]
pub struct SkuStock {
    pub id: Option<i64>,
    pub uuid: Option<String>,
    pub tenant_id: Option<i64>,
    pub sku_id: i64,
    pub quantity: i32,
    pub reserved: i32,
    pub created_at: Option<chrono::NaiveDateTime>,
    pub created_by: Option<String>,
    pub updated_at: Option<chrono::NaiveDateTime>,
    pub updated_by: Option<String>,
}

/// The tokens issued at sign-in, with the account facts that go with them.
#[derive(Debug, Clone)]
pub struct AccessToken {
    pub access_token: String,
    pub token_type: String,
    pub expire_in: i64,
    pub refresh_token: Option<String>,
    pub email: String,
    pub uuid: String,
    pub name: String,
    pub user_id: i64,
    pub role: Role,
    pub tenant_id: Option<i64>,
    pub first_login: bool,
}

/// A line of an order.
#[derive(Debug, Clone)]
pub struct OrderItem {
    pub id: Option<i64>,
    pub uuid: Option<String>,
    pub tenant_id: i64,
    pub order_id: i64,
    pub sku_id: i64,
    pub sku_code: String,
    pub product_name: String,
    pub attributes_desc: Option<String>,
    pub quantity: i32,
    pub unit_price_cents: i64,
    pub discount_cents: i64,
    pub ncm: String,
    pub cfop: Option<String>,
    pub csosn: Option<String>,
    pub icms_rate_bp: i32,
    pub tax_cents: i64,
    pub total_cents: i64,
    pub created_at: chrono::NaiveDateTime,
    pub updated_at: chrono::NaiveDateTime,
    pub created_by: Option<String>,
    pub updated_by: Option<String>,
}

/// A change of an order's status.
#[derive(Debug, Clone)]
pub struct OrderStatusHistory {
    pub id: Option<i64>,
    pub uuid: Option<String>,
    pub tenant_id: i64,
    pub order_id: i64,
    pub from_status: Option<String>,
    pub to_status: String,
    pub actor_type: String,
    pub actor_id: Option<i64>,
    pub note: Option<String>,
    pub created_at: chrono::NaiveDateTime,
    pub created_by: Option<String>,
}

} // verus!
