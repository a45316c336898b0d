//! What the product image endpoints decide around the storage they call.
use crate::authentication::access_policy::{authorize_create, write_tenant};
use crate::commons::exception_response::ExceptionResponse;
use crate::commons::i18n::{ErrorKey, Locale};
use crate::domain::catalog::ProductImage;
use crate::domain::CurrentUser;
use crate::endpoints::json::product_image_json::{ProductImagePresignBatchRequest, ProductImagePresignItemResponse};
use crate::infrastructure::mapper::{Mapper, ProductImageMapper};
use vstd::prelude::*;

verus! {

/// Whether a batch of image uploads for a product of tenant `product_tenant`
/// may be presigned, and for which tenant: a user who may not write that
/// tenant's records is refused as forbidden, an empty batch is a bad
/// request.
pub fn check_image_batch(
    user: &CurrentUser,
    product_tenant: Option<i64>,
    request: &ProductImagePresignBatchRequest,
    locale: Locale,
) -> (r: Result<i64, ExceptionResponse>)
    ensures
        match write_tenant(*user, product_tenant) {
            None => r == Err::<i64, ExceptionResponse>(ExceptionResponse::Forbidden(locale, ErrorKey::InvalidParameterValue)),
            Some(t) => if request.images@.len() == 0 {
                r == Err::<i64, ExceptionResponse>(ExceptionResponse::BadRequest(locale, ErrorKey::InvalidParameterValue))
            } else {
                r == Ok::<i64, ExceptionResponse>(t)
            },
        },
{
    let tenant_id = match authorize_create(user, product_tenant, locale) {
        Ok(t) => t,
        Err(e) => return Err(e),
    };
    if request.images.len() == 0 {
        return Err(ExceptionResponse::BadRequest(locale, ErrorKey::InvalidParameterValue));
    }
    Ok(tenant_id)
}

/// The answer for one presigned upload: where to upload, the image's object
/// key and CDN address, and the image record as JSON.
pub fn presign_item(upload_url: String, image: ProductImage) -> (r: ProductImagePresignItemResponse)
    ensures
        r.upload_url == upload_url,
        r.object_key == image.object_key,
        r.cdn_url == image.cdn_url,
        ProductImageMapper::is_json_of(image, r.image),
{
    let object_key = image.object_key.clone();
    let cdn_url = image.cdn_url.clone();
    ProductImagePresignItemResponse { upload_url, object_key, cdn_url, image: ProductImageMapper::json(image) }
}

} // verus!
