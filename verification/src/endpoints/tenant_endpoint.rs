use crate::commons::pagination::{clone_text, PageQuery};
use crate::text::{ascii_lower, ascii_upper, str_eq, to_ascii_lowercase, to_ascii_uppercase, trim, trim_str};
use crate::commons::exception_response::ExceptionResponse;
use crate::commons::i18n::{ErrorKey, Locale};
use crate::domain::{CurrentUser, Role};
use crate::text::{contains_str, occurs_at};
use vstd::prelude::*;

verus! {

/// Tenant page query.
#[derive(Debug, Clone)]
pub struct TenantPageQuery {
    pub page: Option<u64>,
    pub page_size: Option<u64>,
    pub q: Option<String>,
    pub sort_by: Option<String>,
    pub sort_dir: Option<String>,
    pub country_code: Option<String>,
}

impl TenantPageQuery {
    /// The paging part of the request.
    pub fn to_page_query(&self) -> (r: PageQuery)
        ensures
            r == (PageQuery {
                page: self.page,
                page_size: self.page_size,
                q: self.q,
                sort_by: self.sort_by,
                sort_dir: self.sort_dir,
            }),
    {
        PageQuery {
            page: self.page,
            page_size: self.page_size,
            q: clone_text(&self.q),
            sort_by: clone_text(&self.sort_by),
            sort_dir: clone_text(&self.sort_dir),
        }
    }
}

/// The column tenants are ordered by.
#[derive(Debug, Clone, Copy, PartialEq, Eq, Structural)]
pub enum TenantSortColumn {
    BusinessName,
    CompanyName,
    TaxId,
    Email,
    CountryCode,
    CreatedAt,
    Id,
}

/// The column a sort key names, in any ASCII case; any other key sorts by
/// Id.
pub open spec fn tenant_sort_of(key: Seq<char>) -> TenantSortColumn {
    let k = ascii_lower(key);
    if k == "businessname"@ || k == "business_name"@ {
        TenantSortColumn::BusinessName
    } else if k == "companyname"@ || k == "company_name"@ {
        TenantSortColumn::CompanyName
    } else if k == "taxid"@ || k == "tax_id"@ {
        TenantSortColumn::TaxId
    } else if k == "email"@ {
        TenantSortColumn::Email
    } else if k == "countrycode"@ || k == "country_code"@ {
        TenantSortColumn::CountryCode
    } else if k == "createdat"@ || k == "created_at"@ {
        TenantSortColumn::CreatedAt
    } else {
        TenantSortColumn::Id
    }
}

/// The column tenants are sorted by for the normalised sort key.
pub fn tenant_sort_column(sort_by: &str) -> (r: TenantSortColumn)
    ensures
        r == tenant_sort_of(sort_by@),
{
    let lowered = to_ascii_lowercase(sort_by);
    let k = lowered.as_str();
    if str_eq(k, "businessname") || str_eq(k, "business_name") {
        TenantSortColumn::BusinessName
    } else if str_eq(k, "companyname") || str_eq(k, "company_name") {
        TenantSortColumn::CompanyName
    } else if str_eq(k, "taxid") || str_eq(k, "tax_id") {
        TenantSortColumn::TaxId
    } else if str_eq(k, "email") {
        TenantSortColumn::Email
    } else if str_eq(k, "countrycode") || str_eq(k, "country_code") {
        TenantSortColumn::CountryCode
    } else if str_eq(k, "createdat") || str_eq(k, "created_at") {
        TenantSortColumn::CreatedAt
    } else {
        TenantSortColumn::Id
    }
}


/// The country a tenant listing is narrowed to: the code asked for, trimmed
/// and in ASCII upper case, unless that leaves nothing.
pub fn country_filter(value: &Option<String>) -> (r: Option<String>)
    ensures
        match value {
            Some(v) => if ascii_upper(trim(v@)).len() > 0 {
                r matches Some(c) && c@ == ascii_upper(trim(v@))
            } else {
                r is None
            },
            None => r is None,
        },
{
    match value {
        Some(v) => {
            let t = trim_str(v.as_str());
            let u = to_ascii_uppercase(t.as_str());
            if u.as_str().unicode_len() > 0 {
                Some(u)
            } else {
                None
            }
        },
        None => None,
    }
}

/// Only a system administrator bound to no tenant creates tenants.
pub fn authorize_tenant_create(user: &CurrentUser, locale: Locale) -> (r: Result<(), ExceptionResponse>)
    ensures
        r is Ok <==> user.role == Role::SysAdmin && user.tenant_id is None,
        r matches Err(e) ==> e == ExceptionResponse::Forbidden(locale, ErrorKey::InvalidParameterValue),
{
    if user.role != Role::SysAdmin || user.tenant_id.is_some() {
        return Err(ExceptionResponse::Forbidden(locale, ErrorKey::InvalidParameterValue));
    }
    Ok(())
}

/// Why a tenant could not be updated, from the store's message: one that
/// says `not found` means the tenant is not there, anything else is a failed
/// update.
pub fn tenant_update_failure(message: &str, locale: Locale) -> (r: ExceptionResponse)
    ensures
        (exists|i: int| occurs_at(message@, "not found"@, i)) ==> r == ExceptionResponse::NotFound(locale, ErrorKey::TenantNotFound),
        !(exists|i: int| occurs_at(message@, "not found"@, i)) ==> r == ExceptionResponse::BadRequest(locale, ErrorKey::TenantUpdateFailed),
{
    if contains_str(message, "not found") {
        ExceptionResponse::NotFound(locale, ErrorKey::TenantNotFound)
    } else {
        ExceptionResponse::BadRequest(locale, ErrorKey::TenantUpdateFailed)
    }
}

} // verus!
