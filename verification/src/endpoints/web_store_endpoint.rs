//! Who a storefront visitor is to the catalogue rules.
use crate::authentication::access_policy::{listing_scope, TenantScope};
use crate::domain::{CurrentUser, Role};
use crate::text::{parse_i64, parse_in_range};
use vstd::prelude::*;

verus! {

/// The tenant an `x-tenant-id` header names, when it reads as a 64-bit
/// integer.
pub open spec fn header_tenant(header: Option<Seq<char>>) -> Option<i64> {
    match header {
        Some(h) => match parse_in_range(h, i64::MIN as int, i64::MAX as int) {
            Some(t) => Some(t as i64),
            None => None,
        },
        None => None,
    }
}

pub open spec fn opt_header(h: Option<&str>) -> Option<Seq<char>> {
    match h {
        Some(s) => Some(s@),
        None => None,
    }
}

/// A storefront visitor, as the catalogue rules see one: an anonymous
/// tenant user of the store the `x-tenant-id` header names.
pub fn build_dummy_user(tenant_header: Option<&str>) -> (r: CurrentUser)
    ensures
        r.id is None,
        r.role == Role::TenantUser,
        r.tenant_id == header_tenant(opt_header(tenant_header)),
{
    let tenant_id = match tenant_header {
        Some(h) => parse_i64(h),
        None => None,
    };
    CurrentUser { id: None, role: Role::TenantUser, tenant_id }
}

/// A storefront listing shows the one store its header names, and nothing
/// when it names none, whatever tenant the query asks for.
pub proof fn storefront_sees_only_its_store(header: Option<Seq<char>>, requested: Option<i64>)
    ensures
        ({
            let visitor = CurrentUser { id: None, role: Role::TenantUser, tenant_id: header_tenant(header) };
            match header_tenant(header) {
                Some(t) => listing_scope(visitor, requested) == TenantScope::Only(t),
                None => listing_scope(visitor, requested) == TenantScope::Nothing,
            }
        }),
{
}

} // verus!
