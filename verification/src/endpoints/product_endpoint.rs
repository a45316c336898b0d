use crate::commons::pagination::{clone_text, PageQuery};
use crate::infrastructure::mapper::{cleaned_text, optional_text, text_view};
use crate::commons::exception_response::ExceptionResponse;
use crate::commons::i18n::{ErrorKey, Locale};
use crate::endpoints::json::catalog_json::ProductInputJson;
use crate::text::{ascii_lower, is_blank, is_blank_str, str_eq, to_ascii_lowercase};
use vstd::prelude::*;

verus! {

/// Product page query.
#[derive(Debug, Clone)]
pub struct ProductPageQuery {
    pub page: Option<u64>,
    pub page_size: Option<u64>,
    pub q: Option<String>,
    pub sort_by: Option<String>,
    pub sort_dir: Option<String>,
    pub active: Option<bool>,
    pub brand: Option<String>,
    pub tenant_id: Option<i64>,
}

impl ProductPageQuery {
    /// The paging part of the request.
    pub fn to_page_query(&self) -> (r: PageQuery)
        ensures
            r == (PageQuery {
                page: self.page,
                page_size: self.page_size,
                q: self.q,
                sort_by: self.sort_by,
                sort_dir: self.sort_dir,
            }),
    {
        PageQuery {
            page: self.page,
            page_size: self.page_size,
            q: clone_text(&self.q),
            sort_by: clone_text(&self.sort_by),
            sort_dir: clone_text(&self.sort_dir),
        }
    }
}

/// The column products are ordered by.
#[derive(Debug, Clone, Copy, PartialEq, Eq, Structural)]
pub enum ProductSortColumn {
    Slug,
    Brand,
    Active,
    CreatedAt,
    Id,
    Name,
}

/// The column a sort key names, in any ASCII case; any other key sorts by
/// Name.
pub open spec fn product_sort_of(key: Seq<char>) -> ProductSortColumn {
    let k = ascii_lower(key);
    if k == "slug"@ {
        ProductSortColumn::Slug
    } else if k == "brand"@ {
        ProductSortColumn::Brand
    } else if k == "active"@ {
        ProductSortColumn::Active
    } else if k == "createdat"@ || k == "created_at"@ {
        ProductSortColumn::CreatedAt
    } else if k == "id"@ {
        ProductSortColumn::Id
    } else {
        ProductSortColumn::Name
    }
}

/// The column products are sorted by for the normalised sort key.
pub fn product_sort_column(sort_by: &str) -> (r: ProductSortColumn)
    ensures
        r == product_sort_of(sort_by@),
{
    let lowered = to_ascii_lowercase(sort_by);
    let k = lowered.as_str();
    if str_eq(k, "slug") {
        ProductSortColumn::Slug
    } else if str_eq(k, "brand") {
        ProductSortColumn::Brand
    } else if str_eq(k, "active") {
        ProductSortColumn::Active
    } else if str_eq(k, "createdat") || str_eq(k, "created_at") {
        ProductSortColumn::CreatedAt
    } else if str_eq(k, "id") {
        ProductSortColumn::Id
    } else {
        ProductSortColumn::Name
    }
}


/// The brand a product listing is narrowed to: the one asked for, trimmed,
/// unless it is blank.
pub fn brand_filter(brand: &Option<String>) -> (r: Option<String>)
    ensures
        text_view(r) == cleaned_text(text_view(*brand)),
{
    optional_text(clone_text(brand))
}

/// A product needs a name, a slug and an NCM code with text.
pub fn validate_product(input: &ProductInputJson, locale: Locale) -> (r: Result<(), ExceptionResponse>)
    ensures
        r is Ok <==> !is_blank(input.name@) && !is_blank(input.slug@) && !is_blank(input.ncm@),
        r matches Err(e) ==> e == ExceptionResponse::BadRequest(locale, ErrorKey::InvalidParameterValue),
{
    if is_blank_str(input.name.as_str()) || is_blank_str(input.slug.as_str()) || is_blank_str(input.ncm.as_str()) {
        return Err(ExceptionResponse::BadRequest(locale, ErrorKey::InvalidParameterValue));
    }
    Ok(())
}

} // verus!
