use crate::commons::pagination::{clone_text, PageQuery};
use crate::text::{ascii_lower, str_eq, to_ascii_lowercase};
use vstd::prelude::*;

verus! {

/// User page query.
#[derive(Debug, Clone)]
pub struct UserPageQuery {
    pub page: Option<u64>,
    pub page_size: Option<u64>,
    pub q: Option<String>,
    pub sort_by: Option<String>,
    pub sort_dir: Option<String>,
    pub role: Option<String>,
    pub enabled: Option<bool>,
    pub tenant_id: Option<i64>,
}

impl UserPageQuery {
    /// The paging part of the request.
    pub fn to_page_query(&self) -> (r: PageQuery)
        ensures
            r == (PageQuery {
                page: self.page,
                page_size: self.page_size,
                q: self.q,
                sort_by: self.sort_by,
                sort_dir: self.sort_dir,
            }),
    {
        PageQuery {
            page: self.page,
            page_size: self.page_size,
            q: clone_text(&self.q),
            sort_by: clone_text(&self.sort_by),
            sort_dir: clone_text(&self.sort_dir),
        }
    }
}

/// The column users are ordered by.
#[derive(Debug, Clone, Copy, PartialEq, Eq, Structural)]
pub enum UserSortColumn {
    Name,
    Email,
    Role,
    Enabled,
    CreatedAt,
    Id,
}

/// The column a sort key names, in any ASCII case; any other key sorts by
/// Id.
pub open spec fn user_sort_of(key: Seq<char>) -> UserSortColumn {
    let k = ascii_lower(key);
    if k == "name"@ {
        UserSortColumn::Name
    } else if k == "email"@ {
        UserSortColumn::Email
    } else if k == "role"@ {
        UserSortColumn::Role
    } else if k == "enabled"@ {
        UserSortColumn::Enabled
    } else if k == "createdat"@ || k == "created_at"@ {
        UserSortColumn::CreatedAt
    } else {
        UserSortColumn::Id
    }
}

/// The column users are sorted by for the normalised sort key.
pub fn user_sort_column(sort_by: &str) -> (r: UserSortColumn)
    ensures
        r == user_sort_of(sort_by@),
{
    let lowered = to_ascii_lowercase(sort_by);
    let k = lowered.as_str();
    if str_eq(k, "name") {
        UserSortColumn::Name
    } else if str_eq(k, "email") {
        UserSortColumn::Email
    } else if str_eq(k, "role") {
        UserSortColumn::Role
    } else if str_eq(k, "enabled") {
        UserSortColumn::Enabled
    } else if str_eq(k, "createdat") || str_eq(k, "created_at") {
        UserSortColumn::CreatedAt
    } else {
        UserSortColumn::Id
    }
}


} // verus!
