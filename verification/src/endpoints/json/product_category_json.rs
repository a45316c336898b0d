use crate::commons::pagination::{clone_text, PageQuery};
use crate::commons::exception_response::ExceptionResponse;
use crate::commons::i18n::{ErrorKey, Locale};

use vstd::prelude::*;

verus! {

/// The link of a product to a category, as JSON shows it.
#[derive(Debug, Clone)]
pub struct ProductCategoryJson {
    pub id: i64,
    pub uuid: String,
    pub tenant_id: Option<i64>,
    pub product_id: i64,
    pub category_id: i64,
    pub is_primary: bool,
    pub created_at: Option<chrono::NaiveDateTime>,
    pub created_by: Option<String>,
}


/// Product category input.
#[derive(Debug, Clone)]
pub struct ProductCategoryInputJson {
    pub tenant_id: Option<i64>,
    pub product_id: i64,
    pub category_id: i64,
    pub is_primary: bool,
}

/// Product category page query.
#[derive(Debug, Clone)]
pub struct ProductCategoryPageQuery {
    pub page: Option<u64>,
    pub page_size: Option<u64>,
    pub q: Option<String>,
    pub sort_by: Option<String>,
    pub sort_dir: Option<String>,
    pub product_id: Option<i64>,
    pub category_id: Option<i64>,
    pub is_primary: Option<bool>,
    pub tenant_id: Option<i64>,
}

impl ProductCategoryPageQuery {
    /// The paging part of the request.
    pub fn to_page_query(&self) -> (r: PageQuery)
        ensures
            r == (PageQuery {
                page: self.page,
                page_size: self.page_size,
                q: self.q,
                sort_by: self.sort_by,
                sort_dir: self.sort_dir,
            }),
    {
        PageQuery {
            page: self.page,
            page_size: self.page_size,
            q: clone_text(&self.q),
            sort_by: clone_text(&self.sort_by),
            sort_dir: clone_text(&self.sort_dir),
        }
    }
}

/// A product-category link names a product and a category by positive ids.
/// A new link that does not is a bad request; a change that does not is
/// refused as forbidden.
pub fn validate_product_category(input: &ProductCategoryInputJson, is_update: bool, locale: Locale) -> (r: Result<(), ExceptionResponse>)
    ensures
        r is Ok <==> input.product_id > 0 && input.category_id > 0,
        r matches Err(e) ==> e == if is_update {
            ExceptionResponse::Forbidden(locale, ErrorKey::InvalidParameterValue)
        } else {
            ExceptionResponse::BadRequest(locale, ErrorKey::InvalidParameterValue)
        },
{
    if input.product_id <= 0 || input.category_id <= 0 {
        if is_update {
            return Err(ExceptionResponse::Forbidden(locale, ErrorKey::InvalidParameterValue));
        }
        return Err(ExceptionResponse::BadRequest(locale, ErrorKey::InvalidParameterValue));
    }
    Ok(())
}

} // verus!
