use vstd::prelude::*;

verus! {

/// Product image presign item request.
#[derive(Debug, Clone)]
pub struct ProductImagePresignItemRequest {
    pub original_filename: String,
    pub mime_type: String,
    pub size_bytes: i64,
    pub sku_id: Option<i64>,
    pub alt_text: Option<String>,
    pub is_primary: Option<bool>,
    pub sort_order: Option<i32>,
}

/// Product image presign batch request.
#[derive(Debug, Clone)]
pub struct ProductImagePresignBatchRequest {
    pub images: Vec<ProductImagePresignItemRequest>,
}

/// Product image presign item response.
#[derive(Debug, Clone)]
pub struct ProductImagePresignItemResponse {
    pub upload_url: String,
    pub object_key: String,
    pub cdn_url: Option<String>,
    pub image: ProductImageJson,
}

/// Product image.
#[derive(Debug, Clone)]
pub struct ProductImageJson {
    pub id: i64,
    pub uuid: String,
    pub tenant_id: Option<i64>,
    pub product_id: i64,
    pub sku_id: Option<i64>,
    pub alt_text: Option<String>,
    pub sort_order: i32,
    pub is_primary: bool,
    pub storage_provider: String,
    pub bucket: String,
    pub object_key: String,
    pub original_filename: String,
    pub mime_type: String,
    pub size_bytes: i64,
    pub storage_status: String,
    pub cdn_url: Option<String>,
}

} // verus!
