use crate::commons::pagination::{clone_text, PageQuery};
use crate::text::{ascii_lower, str_eq, to_ascii_lowercase};
use vstd::prelude::*;

verus! {

/// Catalog attribute page query.
#[derive(Debug, Clone)]
pub struct CatalogAttributePageQuery {
    pub page: Option<u64>,
    pub page_size: Option<u64>,
    pub q: Option<String>,
    pub sort_by: Option<String>,
    pub sort_dir: Option<String>,
    pub tenant_id: Option<i64>,
}

impl CatalogAttributePageQuery {
    /// The paging part of the request.
    pub fn to_page_query(&self) -> (r: PageQuery)
        ensures
            r == (PageQuery {
                page: self.page,
                page_size: self.page_size,
                q: self.q,
                sort_by: self.sort_by,
                sort_dir: self.sort_dir,
            }),
    {
        PageQuery {
            page: self.page,
            page_size: self.page_size,
            q: clone_text(&self.q),
            sort_by: clone_text(&self.sort_by),
            sort_dir: clone_text(&self.sort_dir),
        }
    }
}

/// Catalog attribute value page query.
#[derive(Debug, Clone)]
pub struct CatalogAttributeValuePageQuery {
    pub page: Option<u64>,
    pub page_size: Option<u64>,
    pub q: Option<String>,
    pub sort_by: Option<String>,
    pub sort_dir: Option<String>,
    pub attribute_id: Option<i64>,
    pub tenant_id: Option<i64>,
}

impl CatalogAttributeValuePageQuery {
    /// The paging part of the request.
    pub fn to_page_query(&self) -> (r: PageQuery)
        ensures
            r == (PageQuery {
                page: self.page,
                page_size: self.page_size,
                q: self.q,
                sort_by: self.sort_by,
                sort_dir: self.sort_dir,
            }),
    {
        PageQuery {
            page: self.page,
            page_size: self.page_size,
            q: clone_text(&self.q),
            sort_by: clone_text(&self.sort_by),
            sort_dir: clone_text(&self.sort_dir),
        }
    }
}

/// Product attribute page query.
#[derive(Debug, Clone)]
pub struct ProductAttributePageQuery {
    pub page: Option<u64>,
    pub page_size: Option<u64>,
    pub q: Option<String>,
    pub sort_by: Option<String>,
    pub sort_dir: Option<String>,
    pub product_id: Option<i64>,
    pub attribute_id: Option<i64>,
    pub required: Option<bool>,
    pub tenant_id: Option<i64>,
}

impl ProductAttributePageQuery {
    /// The paging part of the request.
    pub fn to_page_query(&self) -> (r: PageQuery)
        ensures
            r == (PageQuery {
                page: self.page,
                page_size: self.page_size,
                q: self.q,
                sort_by: self.sort_by,
                sort_dir: self.sort_dir,
            }),
    {
        PageQuery {
            page: self.page,
            page_size: self.page_size,
            q: clone_text(&self.q),
            sort_by: clone_text(&self.sort_by),
            sort_dir: clone_text(&self.sort_dir),
        }
    }
}

/// The column catalogue attributes are ordered by.
#[derive(Debug, Clone, Copy, PartialEq, Eq, Structural)]
pub enum CatalogAttributeSortColumn {
    DisplayType,
    CreatedAt,
    Id,
    Name,
}

/// The column a sort key names, in any ASCII case; any other key sorts by
/// Name.
pub open spec fn catalog_attribute_sort_of(key: Seq<char>) -> CatalogAttributeSortColumn {
    let k = ascii_lower(key);
    if k == "displaytype"@ || k == "display_type"@ {
        CatalogAttributeSortColumn::DisplayType
    } else if k == "createdat"@ || k == "created_at"@ {
        CatalogAttributeSortColumn::CreatedAt
    } else if k == "id"@ {
        CatalogAttributeSortColumn::Id
    } else {
        CatalogAttributeSortColumn::Name
    }
}

/// The column catalogue attributes are sorted by for the normalised sort key.
pub fn catalog_attribute_sort_column(sort_by: &str) -> (r: CatalogAttributeSortColumn)
    ensures
        r == catalog_attribute_sort_of(sort_by@),
{
    let lowered = to_ascii_lowercase(sort_by);
    let k = lowered.as_str();
    if str_eq(k, "displaytype") || str_eq(k, "display_type") {
        CatalogAttributeSortColumn::DisplayType
    } else if str_eq(k, "createdat") || str_eq(k, "created_at") {
        CatalogAttributeSortColumn::CreatedAt
    } else if str_eq(k, "id") {
        CatalogAttributeSortColumn::Id
    } else {
        CatalogAttributeSortColumn::Name
    }
}

/// The column attribute values are ordered by.
#[derive(Debug, Clone, Copy, PartialEq, Eq, Structural)]
pub enum CatalogAttributeValueSortColumn {
    Value,
    AttributeId,
    CreatedAt,
    Id,
}

/// The column a sort key names, in any ASCII case; any other key sorts by
/// Id.
pub open spec fn catalog_attribute_value_sort_of(key: Seq<char>) -> CatalogAttributeValueSortColumn {
    let k = ascii_lower(key);
    if k == "value"@ {
        CatalogAttributeValueSortColumn::Value
    } else if k == "attributeid"@ || k == "attribute_id"@ {
        CatalogAttributeValueSortColumn::AttributeId
    } else if k == "createdat"@ || k == "created_at"@ {
        CatalogAttributeValueSortColumn::CreatedAt
    } else {
        CatalogAttributeValueSortColumn::Id
    }
}

/// The column attribute values are sorted by for the normalised sort key.
pub fn catalog_attribute_value_sort_column(sort_by: &str) -> (r: CatalogAttributeValueSortColumn)
    ensures
        r == catalog_attribute_value_sort_of(sort_by@),
{
    let lowered = to_ascii_lowercase(sort_by);
    let k = lowered.as_str();
    if str_eq(k, "value") {
        CatalogAttributeValueSortColumn::Value
    } else if str_eq(k, "attributeid") || str_eq(k, "attribute_id") {
        CatalogAttributeValueSortColumn::AttributeId
    } else if str_eq(k, "createdat") || str_eq(k, "created_at") {
        CatalogAttributeValueSortColumn::CreatedAt
    } else {
        CatalogAttributeValueSortColumn::Id
    }
}

/// The column product attributes are ordered by.
#[derive(Debug, Clone, Copy, PartialEq, Eq, Structural)]
pub enum ProductAttributeSortColumn {
    ProductId,
    AttributeId,
    Required,
    CreatedAt,
    Id,
    SortOrder,
}

/// The column a sort key names, in any ASCII case; any other key sorts by
/// SortOrder.
pub open spec fn product_attribute_sort_of(key: Seq<char>) -> ProductAttributeSortColumn {
    let k = ascii_lower(key);
    if k == "productid"@ || k == "product_id"@ {
        ProductAttributeSortColumn::ProductId
    } else if k == "attributeid"@ || k == "attribute_id"@ {
        ProductAttributeSortColumn::AttributeId
    } else if k == "required"@ {
        ProductAttributeSortColumn::Required
    } else if k == "createdat"@ || k == "created_at"@ {
        ProductAttributeSortColumn::CreatedAt
    } else if k == "id"@ {
        ProductAttributeSortColumn::Id
    } else {
        ProductAttributeSortColumn::SortOrder
    }
}

/// The column product attributes are sorted by for the normalised sort key.
pub fn product_attribute_sort_column(sort_by: &str) -> (r: ProductAttributeSortColumn)
    ensures
        r == product_attribute_sort_of(sort_by@),
{
    let lowered = to_ascii_lowercase(sort_by);
    let k = lowered.as_str();
    if str_eq(k, "productid") || str_eq(k, "product_id") {
        ProductAttributeSortColumn::ProductId
    } else if str_eq(k, "attributeid") || str_eq(k, "attribute_id") {
        ProductAttributeSortColumn::AttributeId
    } else if str_eq(k, "required") {
        ProductAttributeSortColumn::Required
    } else if str_eq(k, "createdat") || str_eq(k, "created_at") {
        ProductAttributeSortColumn::CreatedAt
    } else if str_eq(k, "id") {
        ProductAttributeSortColumn::Id
    } else {
        ProductAttributeSortColumn::SortOrder
    }
}


} // verus!
