//! What the HTTP endpoints decide, apart from the requests they serve.
pub mod auth_endpoint;
pub mod campaign_endpoint;
pub mod campaign_target_endpoint;
pub mod cart_endpoint;
pub mod cart_item_endpoint;
pub mod catalog_attribute_endpoint;
pub mod catalog_import_endpoint;
pub mod category_endpoint;
pub mod checkout_customer_endpoint;
pub mod checkout_payment_endpoint;
pub mod city_endpoint;
pub mod coupon_endpoint;
pub mod coupon_redemption_endpoint;
pub mod customer_address_endpoint;
pub mod customer_endpoint;
pub mod json;
pub mod order_item_endpoint;
pub mod order_status_history_endpoint;
pub mod orders_endpoint;
pub mod person_address_endpoint;
pub mod person_endpoint;
pub mod product_category_endpoint;
pub mod product_endpoint;
pub mod product_image_endpoint;
pub mod province_endpoint;
pub mod resource_endpoint;
pub mod shipping_rate_endpoint;
pub mod sku_attribute_endpoint;
pub mod sku_endpoint;
pub mod sku_stock_endpoint;
pub mod tax_rule_endpoint;
pub mod tenant_endpoint;
pub mod user_endpoint;
pub mod web_store_endpoint;
