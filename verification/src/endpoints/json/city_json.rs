use vstd::prelude::*;

verus! {

/// City.
#[derive(Debug, Clone)]
pub struct CityJson {
    pub id: Option<i64>,
    pub uuid: Option<String>,
    pub province_id: i64,
    pub name: String,
    pub ibge_code: Option<String>,
}

} // verus!
