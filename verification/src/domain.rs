//! The parts of the signed-in user that the access rules read.
use vstd::prelude::*;

verus! {

/// What a user may do.
#[derive(Debug, Clone, Copy, PartialEq, Eq, Structural)]
pub enum Role {
    SysAdmin,
    TenantOwner,
    TenantUser,
    Customer,
}

/// The signed-in user, as far as the access rules read it.
#[derive(Debug, Clone, Copy, PartialEq, Eq, Structural)]
pub struct CurrentUser {
    pub id: Option<i64>,
    pub role: Role,
    pub tenant_id: Option<i64>,
}

} // verus!
pub mod catalog;
pub mod commerce;
pub mod tenant;
pub mod timestamps;
