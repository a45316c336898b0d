use crate::commons::pagination::{clone_text, PageQuery};
use crate::commons::exception_response::ExceptionResponse;
use crate::commons::i18n::{ErrorKey, Locale};
use crate::text::{is_blank, is_blank_str};
use vstd::prelude::*;

verus! {

/// A tax rule for goods moving between two states, as JSON shows it.
#[derive(Debug, Clone)]
pub struct TaxRuleJson {
    pub id: i64,
    pub uuid: String,
    pub tenant_id: Option<i64>,
    pub uf_origem: String,
    pub uf_destino: String,
    pub ncm_prefix: Option<String>,
    pub regime: String,
    pub csosn: Option<String>,
    pub cfop: String,
    pub icms_rate_bp: i32,
    pub active: bool,
    pub created_at: Option<chrono::NaiveDateTime>,
    pub updated_at: Option<chrono::NaiveDateTime>,
}


/// Tax rule input.
#[derive(Debug, Clone)]
pub struct TaxRuleInputJson {
    pub tenant_id: Option<i64>,
    pub uf_origem: String,
    pub uf_destino: String,
    pub ncm_prefix: Option<String>,
    pub regime: String,
    pub csosn: Option<String>,
    pub cfop: String,
    pub icms_rate_bp: i32,
    pub active: Option<bool>,
}

/// Tax rule page query.
#[derive(Debug, Clone)]
pub struct TaxRulePageQuery {
    pub page: Option<u64>,
    pub page_size: Option<u64>,
    pub q: Option<String>,
    pub sort_by: Option<String>,
    pub sort_dir: Option<String>,
    pub uf_origem: Option<String>,
    pub uf_destino: Option<String>,
    pub active: Option<bool>,
    pub tenant_id: Option<i64>,
}

impl TaxRulePageQuery {
    /// The paging part of the request.
    pub fn to_page_query(&self) -> (r: PageQuery)
        ensures
            r == (PageQuery {
                page: self.page,
                page_size: self.page_size,
                q: self.q,
                sort_by: self.sort_by,
                sort_dir: self.sort_dir,
            }),
    {
        PageQuery {
            page: self.page,
            page_size: self.page_size,
            q: clone_text(&self.q),
            sort_by: clone_text(&self.sort_by),
            sort_dir: clone_text(&self.sort_dir),
        }
    }
}

/// A tax rule needs origin and destination states, a regime and a CFOP
/// with text.
pub fn validate_tax_rule(input: &TaxRuleInputJson, locale: Locale) -> (r: Result<(), ExceptionResponse>)
    ensures
        r is Ok <==> !is_blank(input.uf_origem@) && !is_blank(input.uf_destino@) && !is_blank(input.regime@) && !is_blank(input.cfop@),
        r matches Err(e) ==> e == ExceptionResponse::BadRequest(locale, ErrorKey::InvalidParameterValue),
{
    if is_blank_str(input.uf_origem.as_str()) || is_blank_str(input.uf_destino.as_str()) || is_blank_str(input.regime.as_str())
        || is_blank_str(input.cfop.as_str()) {
        return Err(ExceptionResponse::BadRequest(locale, ErrorKey::InvalidParameterValue));
    }
    Ok(())
}

} // verus!
