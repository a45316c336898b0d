use crate::commons::pagination::{clone_text, PageQuery};
use crate::commons::exception_response::ExceptionResponse;
use crate::commons::i18n::{ErrorKey, Locale};

use vstd::prelude::*;

verus! {

/// The stock of a SKU, as JSON shows it.
#[derive(Debug, Clone)]
pub struct SkuStockJson {
    pub id: i64,
    pub uuid: String,
    pub tenant_id: Option<i64>,
    pub sku_id: i64,
    pub quantity: i32,
    pub reserved: i32,
    pub created_at: Option<chrono::NaiveDateTime>,
    pub created_by: Option<String>,
    pub updated_at: Option<chrono::NaiveDateTime>,
    pub updated_by: Option<String>,
}


/// Sku stock input.
#[derive(Debug, Clone)]
pub struct SkuStockInputJson {
    pub tenant_id: Option<i64>,
    pub sku_id: i64,
    pub quantity: i32,
    pub reserved: Option<i32>,
}

/// Sku stock page query.
#[derive(Debug, Clone)]
pub struct SkuStockPageQuery {
    pub page: Option<u64>,
    pub page_size: Option<u64>,
    pub q: Option<String>,
    pub sort_by: Option<String>,
    pub sort_dir: Option<String>,
    pub sku_id: Option<i64>,
    pub tenant_id: Option<i64>,
}

impl SkuStockPageQuery {
    /// The paging part of the request.
    pub fn to_page_query(&self) -> (r: PageQuery)
        ensures
            r == (PageQuery {
                page: self.page,
                page_size: self.page_size,
                q: self.q,
                sort_by: self.sort_by,
                sort_dir: self.sort_dir,
            }),
    {
        PageQuery {
            page: self.page,
            page_size: self.page_size,
            q: clone_text(&self.q),
            sort_by: clone_text(&self.sort_by),
            sort_dir: clone_text(&self.sort_dir),
        }
    }
}

/// A stock entry names a SKU (a positive id) and a quantity that is not
/// negative. A new entry that does not is a bad request; a change that does
/// not is refused as forbidden.
pub fn validate_sku_stock(input: &SkuStockInputJson, is_update: bool, locale: Locale) -> (r: Result<(), ExceptionResponse>)
    ensures
        r is Ok <==> input.sku_id > 0 && input.quantity >= 0,
        r matches Err(e) ==> e == if is_update {
            ExceptionResponse::Forbidden(locale, ErrorKey::InvalidParameterValue)
        } else {
            ExceptionResponse::BadRequest(locale, ErrorKey::InvalidParameterValue)
        },
{
    if input.sku_id <= 0 || input.quantity < 0 {
        if is_update {
            return Err(ExceptionResponse::Forbidden(locale, ErrorKey::InvalidParameterValue));
        }
        return Err(ExceptionResponse::BadRequest(locale, ErrorKey::InvalidParameterValue));
    }
    Ok(())
}

} // verus!
