use vstd::prelude::*;

verus! {

/// Web store seller.
#[derive(Debug, Clone)]
pub struct WebStoreSellerJson {
    pub id: i64,
    pub business_name: String,
    pub company_name: Option<String>,
    pub email: Option<String>,
    pub phone: Option<String>,
    pub web_site: Option<String>,
    pub locality: Option<String>,
    pub administrative_area: Option<String>,
    pub postal_code: Option<String>,
    pub country_code: Option<String>,
}

/// Web store image.
#[derive(Debug, Clone)]
pub struct WebStoreImageJson {
    pub id: i64,
    pub url: String,
    pub alt_text: Option<String>,
    pub sort_order: i32,
    pub is_primary: bool,
    pub width_px: Option<i32>,
    pub height_px: Option<i32>,
}

/// Web store sku attribute value.
#[derive(Debug, Clone)]
pub struct WebStoreSkuAttributeValueJson {
    pub attribute_id: i64,
    pub name: String,
    pub value: String,
}

/// Web store sku.
#[derive(Debug, Clone)]
pub struct WebStoreSkuJson {
    pub id: i64,
    pub uuid: String,
    pub code: String,
    pub variant_key: String,
    pub price_cents: i32,
    pub compare_at_price_cents: Option<i32>,
    pub weight_g: Option<i32>,
    pub width_mm: Option<i32>,
    pub height_mm: Option<i32>,
    pub length_mm: Option<i32>,
    pub active: bool,
    pub stock: i32,
    pub attributes: Vec<WebStoreSkuAttributeValueJson>,
}

/// Web store attribute.
#[derive(Debug, Clone)]
pub struct WebStoreAttributeJson {
    pub id: i64,
    pub attribute_id: i64,
    pub name: String,
    pub display_type: String,
    pub required: bool,
    pub sort_order: i32,
}

/// Web store page query.
#[derive(Debug, Clone)]
pub struct WebStorePageQuery {
    pub cursor: Option<i64>,
    pub limit: Option<u64>,
    pub q: Option<String>,
    pub category: Option<String>,
    pub min_price: Option<i32>,
    pub max_price: Option<i32>,
    pub sort_by: Option<String>,
}

} // verus!
