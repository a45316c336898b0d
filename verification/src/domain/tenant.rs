//! A tenant: a business that runs its own shop on the platform.
use vstd::prelude::*;

verus! {

/// A tenant as stored.
#[derive(Debug, Clone)]
pub struct Tenant {
    pub id: Option<i64>,
    pub uuid: Option<String>,
    pub business_name: String,
    pub company_name: Option<String>,
    pub tax_id: String,
    pub email: Option<String>,
    pub phone: Option<String>,
    pub web_site: Option<String>,
    pub address_line1: Option<String>,
    pub address_line2: Option<String>,
    pub locality: Option<String>,
    pub administrative_area: Option<String>,
    pub postal_code: Option<String>,
    pub country_code: Option<String>,
    pub created_at: Option<chrono::NaiveDateTime>,
    pub created_by: Option<String>,
    pub updated_at: Option<chrono::NaiveDateTime>,
    pub updated_by: Option<String>,
}

} // verus!
