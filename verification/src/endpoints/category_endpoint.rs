use crate::commons::pagination::{clone_text, PageQuery};
use crate::commons::exception_response::ExceptionResponse;
use crate::commons::i18n::{ErrorKey, Locale};
use crate::endpoints::json::catalog_json::CategoryInputJson;
use crate::text::{ascii_lower, is_blank, is_blank_str, str_eq, to_ascii_lowercase};
use vstd::prelude::*;

verus! {

/// Category page query.
#[derive(Debug, Clone)]
pub struct CategoryPageQuery {
    pub page: Option<u64>,
    pub page_size: Option<u64>,
    pub q: Option<String>,
    pub sort_by: Option<String>,
    pub sort_dir: Option<String>,
    pub active: Option<bool>,
    pub parent_id: Option<i64>,
    pub tenant_id: Option<i64>,
}

impl CategoryPageQuery {
    /// The paging part of the request.
    pub fn to_page_query(&self) -> (r: PageQuery)
        ensures
            r == (PageQuery {
                page: self.page,
                page_size: self.page_size,
                q: self.q,
                sort_by: self.sort_by,
                sort_dir: self.sort_dir,
            }),
    {
        PageQuery {
            page: self.page,
            page_size: self.page_size,
            q: clone_text(&self.q),
            sort_by: clone_text(&self.sort_by),
            sort_dir: clone_text(&self.sort_dir),
        }
    }
}

/// The column categories are ordered by.
#[derive(Debug, Clone, Copy, PartialEq, Eq, Structural)]
pub enum CategorySortColumn {
    Slug,
    Active,
    CreatedAt,
    Id,
    Name,
}

/// The column a sort key names, in any ASCII case; any other key sorts by
/// Name.
pub open spec fn category_sort_of(key: Seq<char>) -> CategorySortColumn {
    let k = ascii_lower(key);
    if k == "slug"@ {
        CategorySortColumn::Slug
    } else if k == "active"@ {
        CategorySortColumn::Active
    } else if k == "createdat"@ || k == "created_at"@ {
        CategorySortColumn::CreatedAt
    } else if k == "id"@ {
        CategorySortColumn::Id
    } else {
        CategorySortColumn::Name
    }
}

/// The column categories are sorted by for the normalised sort key.
pub fn category_sort_column(sort_by: &str) -> (r: CategorySortColumn)
    ensures
        r == category_sort_of(sort_by@),
{
    let lowered = to_ascii_lowercase(sort_by);
    let k = lowered.as_str();
    if str_eq(k, "slug") {
        CategorySortColumn::Slug
    } else if str_eq(k, "active") {
        CategorySortColumn::Active
    } else if str_eq(k, "createdat") || str_eq(k, "created_at") {
        CategorySortColumn::CreatedAt
    } else if str_eq(k, "id") {
        CategorySortColumn::Id
    } else {
        CategorySortColumn::Name
    }
}


/// A category needs a name and a slug with text.
pub fn validate_category(input: &CategoryInputJson, locale: Locale) -> (r: Result<(), ExceptionResponse>)
    ensures
        r is Ok <==> !is_blank(input.name@) && !is_blank(input.slug@),
        r matches Err(e) ==> e == ExceptionResponse::BadRequest(locale, ErrorKey::InvalidParameterValue),
{
    if is_blank_str(input.name.as_str()) || is_blank_str(input.slug.as_str()) {
        return Err(ExceptionResponse::BadRequest(locale, ErrorKey::InvalidParameterValue));
    }
    Ok(())
}

} // verus!
