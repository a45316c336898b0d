use crate::commons::pagination::{clone_text, PageQuery};
use vstd::prelude::*;

verus! {

/// Avatar presign request.
#[derive(Debug, Clone)]
pub struct AvatarPresignRequest {
    pub original_filename: String,
    pub mime_type: String,
    pub size_bytes: i64,
}

/// Avatar presign response.
#[derive(Debug, Clone)]
pub struct AvatarPresignResponse {
    pub upload_url: String,
    pub object_key: String,
    pub cdn_url: Option<String>,
}

/// Person page query.
#[derive(Debug, Clone)]
pub struct PersonPageQuery {
    pub page: Option<u64>,
    pub page_size: Option<u64>,
    pub q: Option<String>,
    pub sort_by: Option<String>,
    pub sort_dir: Option<String>,
    pub user_id: Option<i64>,
    pub gender: Option<String>,
    pub tenant_id: Option<i64>,
}

impl PersonPageQuery {
    /// The paging part of the request.
    pub fn to_page_query(&self) -> (r: PageQuery)
        ensures
            r == (PageQuery {
                page: self.page,
                page_size: self.page_size,
                q: self.q,
                sort_by: self.sort_by,
                sort_dir: self.sort_dir,
            }),
    {
        PageQuery {
            page: self.page,
            page_size: self.page_size,
            q: clone_text(&self.q),
            sort_by: clone_text(&self.sort_by),
            sort_dir: clone_text(&self.sort_dir),
        }
    }
}

/// Person address input.
#[derive(Debug, Clone)]
pub struct PersonAddressInputJson {
    pub tenant_id: Option<i64>,
    pub person_id: i64,
    pub address_line1: Option<String>,
    pub address_line2: Option<String>,
    pub locality: Option<String>,
    pub administrative_area: Option<String>,
    pub postal_code: Option<String>,
    pub country_code: Option<String>,
}

/// Person address page query.
#[derive(Debug, Clone)]
pub struct PersonAddressPageQuery {
    pub page: Option<u64>,
    pub page_size: Option<u64>,
    pub q: Option<String>,
    pub sort_by: Option<String>,
    pub sort_dir: Option<String>,
    pub person_id: Option<i64>,
    pub country_code: Option<String>,
    pub tenant_id: Option<i64>,
}

impl PersonAddressPageQuery {
    /// The paging part of the request.
    pub fn to_page_query(&self) -> (r: PageQuery)
        ensures
            r == (PageQuery {
                page: self.page,
                page_size: self.page_size,
                q: self.q,
                sort_by: self.sort_by,
                sort_dir: self.sort_dir,
            }),
    {
        PageQuery {
            page: self.page,
            page_size: self.page_size,
            q: clone_text(&self.q),
            sort_by: clone_text(&self.sort_by),
            sort_dir: clone_text(&self.sort_dir),
        }
    }
}

/// A person's profile as sent by its user; the date of birth is the ISO
/// `YYYY-MM-DD` text.
#[derive(Debug, Clone)]
pub struct PersonInputJson {
    pub tenant_id: Option<i64>,
    pub user_id: i64,
    pub first_name: String,
    pub surname: Option<String>,
    pub date_of_birth: Option<chrono::NaiveDate>,
    pub gender: Option<String>,
    pub avatar: Option<String>,
    pub phone: Option<String>,
    pub email: Option<String>,
}

} // verus!
