use vstd::prelude::*;

verus! {

/// A tenant as JSON shows it. `city`, `province` and `zipcode` are the
/// legacy names of `locality`, `administrative_area` and `postal_code`.
#[derive(Debug, Clone)]
pub struct TenantJson {
    pub id: Option<i64>,
    pub uuid: Option<String>,
    pub business_name: Option<String>,
    pub company_name: Option<String>,
    pub tax_id: Option<String>,
    pub email: Option<String>,
    pub phone: Option<String>,
    pub web_site: Option<String>,
    pub address_line1: Option<String>,
    pub address_line2: Option<String>,
    pub locality: Option<String>,
    pub administrative_area: Option<String>,
    pub postal_code: Option<String>,
    pub country_code: Option<String>,
    pub province: Option<String>,
    pub city: Option<String>,
    pub zipcode: Option<String>,
    pub created_at: Option<chrono::NaiveDateTime>,
    pub created_by: Option<String>,
    pub updated_at: Option<chrono::NaiveDateTime>,
    pub updated_by: Option<String>,
}

} // verus!
