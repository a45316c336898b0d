use crate::commons::pagination::{clone_text, PageQuery};
use crate::commons::exception_response::ExceptionResponse;
use crate::commons::i18n::{ErrorKey, Locale};
use crate::text::{is_blank, is_blank_str};
use vstd::prelude::*;

verus! {

/// A promotional campaign, as JSON shows it.
#[derive(Debug, Clone)]
pub struct CampaignJson {
    pub id: i64,
    pub uuid: String,
    pub tenant_id: Option<i64>,
    pub name: String,
    pub campaign_type: String,
    pub value: i32,
    pub scope: String,
    pub starts_at: chrono::NaiveDateTime,
    pub ends_at: chrono::NaiveDateTime,
    pub active: bool,
    pub created_at: Option<chrono::NaiveDateTime>,
    pub updated_at: Option<chrono::NaiveDateTime>,
}

/// Something a campaign applies to, as JSON shows it.
#[derive(Debug, Clone)]
pub struct CampaignTargetJson {
    pub id: i64,
    pub uuid: String,
    pub tenant_id: Option<i64>,
    pub campaign_id: i64,
    pub target_type: String,
    pub target_id: i64,
    pub created_at: Option<chrono::NaiveDateTime>,
}

/// A campaign as a request gives it.
#[derive(Debug, Clone)]
pub struct CampaignInputJson {
    pub tenant_id: Option<i64>,
    pub name: String,
    pub campaign_type: String,
    pub value: i32,
    pub scope: String,
    pub starts_at: chrono::NaiveDateTime,
    pub ends_at: chrono::NaiveDateTime,
    pub active: Option<bool>,
}

/// Campaign page query.
#[derive(Debug, Clone)]
pub struct CampaignPageQuery {
    pub page: Option<u64>,
    pub page_size: Option<u64>,
    pub q: Option<String>,
    pub sort_by: Option<String>,
    pub sort_dir: Option<String>,
    pub active: Option<bool>,
    pub tenant_id: Option<i64>,
}

impl CampaignPageQuery {
    /// The paging part of the request.
    pub fn to_page_query(&self) -> (r: PageQuery)
        ensures
            r == (PageQuery {
                page: self.page,
                page_size: self.page_size,
                q: self.q,
                sort_by: self.sort_by,
                sort_dir: self.sort_dir,
            }),
    {
        PageQuery {
            page: self.page,
            page_size: self.page_size,
            q: clone_text(&self.q),
            sort_by: clone_text(&self.sort_by),
            sort_dir: clone_text(&self.sort_dir),
        }
    }
}

/// Campaign target input.
#[derive(Debug, Clone)]
pub struct CampaignTargetInputJson {
    pub tenant_id: Option<i64>,
    pub campaign_id: i64,
    pub target_type: String,
    pub target_id: i64,
}

/// Campaign target page query.
#[derive(Debug, Clone)]
pub struct CampaignTargetPageQuery {
    pub page: Option<u64>,
    pub page_size: Option<u64>,
    pub q: Option<String>,
    pub sort_by: Option<String>,
    pub sort_dir: Option<String>,
    pub campaign_id: Option<i64>,
    pub target_type: Option<String>,
    pub tenant_id: Option<i64>,
}

impl CampaignTargetPageQuery {
    /// The paging part of the request.
    pub fn to_page_query(&self) -> (r: PageQuery)
        ensures
            r == (PageQuery {
                page: self.page,
                page_size: self.page_size,
                q: self.q,
                sort_by: self.sort_by,
                sort_dir: self.sort_dir,
            }),
    {
        PageQuery {
            page: self.page,
            page_size: self.page_size,
            q: clone_text(&self.q),
            sort_by: clone_text(&self.sort_by),
            sort_dir: clone_text(&self.sort_dir),
        }
    }
}

/// A campaign target needs a target type with text.
pub fn validate_campaign_target(input: &CampaignTargetInputJson, locale: Locale) -> (r: Result<(), ExceptionResponse>)
    ensures
        r is Ok <==> !is_blank(input.target_type@),
        r matches Err(e) ==> e == ExceptionResponse::BadRequest(locale, ErrorKey::InvalidParameterValue),
{
    if is_blank_str(input.target_type.as_str()) {
        return Err(ExceptionResponse::BadRequest(locale, ErrorKey::InvalidParameterValue));
    }
    Ok(())
}

} // verus!
