use crate::endpoints::json::customer_json::CustomerAddressInputJson;
use vstd::prelude::*;

verus! {

/// A customer's sign-up: the account, and optionally a first address.
#[derive(Debug, Clone)]
pub struct SignupRequest {
    pub name: String,
    pub email: String,
    pub password: String,
    pub cpf: Option<String>,
    pub phone: Option<String>,
    pub address: Option<CustomerAddressInputJson>,
}

} // verus!
