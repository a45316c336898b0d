//! The catalogue records as the rules hold them, apart from their
//! timestamps.
use vstd::prelude::*;

verus! {

/// A city.
#[derive(Debug, Clone)]
pub struct City {
    pub id: Option<i64>,
    pub uuid: Option<String>,
    pub province_id: i64,
    pub name: String,
    pub ibge_code: Option<String>,
}

/// A province (state) of a country.
#[derive(Debug, Clone)]
pub struct Province {
    pub id: Option<i64>,
    pub uuid: Option<String>,
    pub acronym: String,
    pub name: String,
    pub country_code: String,
    pub ibge_code: Option<String>,
}

/// A product category.
#[derive(Debug, Clone)]
pub struct Category {
    pub id: Option<i64>,
    pub uuid: Option<String>,
    pub tenant_id: Option<i64>,
    pub name: String,
    pub slug: String,
    pub parent_id: Option<i64>,
    pub active: bool,
}

/// A product.
#[derive(Debug, Clone)]
pub struct Product {
    pub id: Option<i64>,
    pub uuid: Option<String>,
    pub tenant_id: Option<i64>,
    pub name: String,
    pub slug: String,
    pub description: Option<String>,
    pub brand: Option<String>,
    pub active: bool,
    pub ncm: String,
    pub cest: Option<String>,
    pub origem_mercadoria: i16,
}

/// A stock-keeping unit of a product.
#[derive(Debug, Clone)]
pub struct Sku {
    pub id: Option<i64>,
    pub uuid: Option<String>,
    pub tenant_id: Option<i64>,
    pub product_id: i64,
    pub code: String,
    pub variant_key: String,
    pub price_cents: i32,
    pub compare_at_price_cents: Option<i32>,
    pub weight_g: Option<i32>,
    pub width_mm: Option<i32>,
    pub height_mm: Option<i32>,
    pub length_mm: Option<i32>,
    pub active: bool,
}

/// A catalogue attribute, such as a grape or a volume.
#[derive(Debug, Clone)]
pub struct CatalogAttribute {
    pub id: Option<i64>,
    pub uuid: Option<String>,
    pub tenant_id: Option<i64>,
    pub name: String,
    pub display_type: String,
}

/// One value of a catalogue attribute.
#[derive(Debug, Clone)]
pub struct CatalogAttributeValue {
    pub id: Option<i64>,
    pub uuid: Option<String>,
    pub tenant_id: Option<i64>,
    pub attribute_id: i64,
    pub value: String,
}

/// An attribute a product offers.
#[derive(Debug, Clone)]
pub struct ProductAttribute {
    pub id: Option<i64>,
    pub uuid: Option<String>,
    pub tenant_id: Option<i64>,
    pub product_id: i64,
    pub attribute_id: i64,
    pub required: bool,
    pub sort_order: i32,
}

/// An image of a product, and where it is stored.
#[derive(Debug, Clone)]
pub struct ProductImage {
    pub id: Option<i64>,
    pub uuid: Option<String>,
    pub tenant_id: Option<i64>,
    pub product_id: i64,
    pub sku_id: Option<i64>,
    pub alt_text: Option<String>,
    pub sort_order: i32,
    pub is_primary: bool,
    pub storage_provider: String,
    pub bucket: String,
    pub object_key: String,
    pub storage_identity_hash: Option<String>,
    pub object_version: Option<String>,
    pub etag: Option<String>,
    pub checksum_sha256: Option<String>,
    pub original_filename: String,
    pub mime_type: String,
    pub size_bytes: i64,
    pub width_px: Option<i32>,
    pub height_px: Option<i32>,
    pub storage_status: String,
    pub cdn_url: Option<String>,
}

} // verus!
