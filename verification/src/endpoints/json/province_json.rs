use vstd::prelude::*;

verus! {

/// Province.
#[derive(Debug, Clone)]
pub struct ProvinceJson {
    pub id: Option<i64>,
    pub uuid: Option<String>,
    pub acronym: String,
    pub name: String,
    pub country_code: String,
    pub ibge_code: Option<String>,
}

} // verus!
