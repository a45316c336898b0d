//! The bodies and query strings the endpoints exchange.
pub mod access_token_json;
pub mod campaign_json;
pub mod cart_json;
pub mod catalog_json;
pub mod city_json;
pub mod coupon_json;
pub mod customer_json;
pub mod orders_json;
pub mod page_params;
pub mod person_json;
pub mod product_category_json;
pub mod product_image_json;
pub mod product_json;
pub mod province_json;
pub mod shipping_rate_json;
pub mod signup_request;
pub mod sku_attribute_json;
pub mod sku_stock_json;
pub mod tax_rule_json;
pub mod tenant_json;
pub mod web_store_json;
