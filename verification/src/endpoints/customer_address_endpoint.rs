use crate::domain::commerce::CustomerAddress;
use crate::endpoints::json::customer_json::CustomerAddressInputJson;
use crate::text::{
    ascii_lower, str_eq, to_ascii_lowercase, trim, trim_str, trim_to_uppercase, unicode_uppercase,
};
use vstd::prelude::*;

verus! {

/// The column customer addresses are ordered by.
#[derive(Debug, Clone, Copy, PartialEq, Eq, Structural)]
pub enum CustomerAddressSortColumn {
    Recipient,
    Cidade,
    Uf,
    CreatedAt,
    Id,
}

/// The column a sort key names, in any ASCII case; any other key sorts by
/// Id.
pub open spec fn customer_address_sort_of(key: Seq<char>) -> CustomerAddressSortColumn {
    let k = ascii_lower(key);
    if k == "recipient"@ {
        CustomerAddressSortColumn::Recipient
    } else if k == "cidade"@ {
        CustomerAddressSortColumn::Cidade
    } else if k == "uf"@ {
        CustomerAddressSortColumn::Uf
    } else if k == "createdat"@ || k == "created_at"@ {
        CustomerAddressSortColumn::CreatedAt
    } else {
        CustomerAddressSortColumn::Id
    }
}

/// The column customer addresses are sorted by for the normalised sort key.
pub fn customer_address_sort_column(sort_by: &str) -> (r: CustomerAddressSortColumn)
    ensures
        r == customer_address_sort_of(sort_by@),
{
    let lowered = to_ascii_lowercase(sort_by);
    let k = lowered.as_str();
    if str_eq(k, "recipient") {
        CustomerAddressSortColumn::Recipient
    } else if str_eq(k, "cidade") {
        CustomerAddressSortColumn::Cidade
    } else if str_eq(k, "uf") {
        CustomerAddressSortColumn::Uf
    } else if str_eq(k, "createdat") || str_eq(k, "created_at") {
        CustomerAddressSortColumn::CreatedAt
    } else {
        CustomerAddressSortColumn::Id
    }
}


/// The address fields a request sets: the street parts trimmed, the state
/// code trimmed and in upper case, label and complement as given.
pub open spec fn sets_address_fields(r: CustomerAddress, input: CustomerAddressInputJson) -> bool {
    &&& r.customer_id == input.customer_id
    &&& r.label == input.label
    &&& r.recipient@ == trim(input.recipient@)
    &&& r.cep@ == trim(input.cep@)
    &&& r.logradouro@ == trim(input.logradouro@)
    &&& r.numero@ == trim(input.numero@)
    &&& r.complemento == input.complemento
    &&& r.bairro@ == trim(input.bairro@)
    &&& r.cidade@ == trim(input.cidade@)
    &&& r.uf@ == unicode_uppercase(trim(input.uf@))
}

/// A new address of tenant `tenant_id`, not the default one unless the
/// request says so; it has no id, uuid or audit fields yet.
pub fn new_customer_address(input: CustomerAddressInputJson, tenant_id: i64) -> (r: CustomerAddress)
    ensures
        r.id is None && r.uuid is None,
        r.tenant_id == Some(tenant_id),
        sets_address_fields(r, input),
        r.is_default == match input.is_default {
            Some(d) => d,
            None => false,
        },
        r.created_at is None && r.created_by is None,
        r.updated_at is None && r.updated_by is None,
{
    CustomerAddress {
        id: None,
        uuid: None,
        tenant_id: Some(tenant_id),
        customer_id: input.customer_id,
        label: input.label,
        recipient: trim_str(input.recipient.as_str()),
        cep: trim_str(input.cep.as_str()),
        logradouro: trim_str(input.logradouro.as_str()),
        numero: trim_str(input.numero.as_str()),
        complemento: input.complemento,
        bairro: trim_str(input.bairro.as_str()),
        cidade: trim_str(input.cidade.as_str()),
        uf: trim_to_uppercase(input.uf.as_str()),
        is_default: match input.is_default {
            Some(d) => d,
            None => false,
        },
        created_at: None,
        updated_at: None,
        created_by: None,
        updated_by: None,
    }
}

/// An address changed by a request; whether it is the default changes only
/// when the request says, and identity, tenant and audit fields are kept.
pub fn updated_customer_address(existing: CustomerAddress, input: CustomerAddressInputJson) -> (r: CustomerAddress)
    ensures
        r.id == existing.id && r.uuid == existing.uuid && r.tenant_id == existing.tenant_id,
        sets_address_fields(r, input),
        r.is_default == match input.is_default {
            Some(d) => d,
            None => existing.is_default,
        },
        r.created_at == existing.created_at && r.created_by == existing.created_by,
        r.updated_at == existing.updated_at && r.updated_by == existing.updated_by,
{
    CustomerAddress {
        id: existing.id,
        uuid: existing.uuid,
        tenant_id: existing.tenant_id,
        customer_id: input.customer_id,
        label: input.label,
        recipient: trim_str(input.recipient.as_str()),
        cep: trim_str(input.cep.as_str()),
        logradouro: trim_str(input.logradouro.as_str()),
        numero: trim_str(input.numero.as_str()),
        complemento: input.complemento,
        bairro: trim_str(input.bairro.as_str()),
        cidade: trim_str(input.cidade.as_str()),
        uf: trim_to_uppercase(input.uf.as_str()),
        is_default: match input.is_default {
            Some(d) => d,
            None => existing.is_default,
        },
        created_at: existing.created_at,
        updated_at: existing.updated_at,
        created_by: existing.created_by,
        updated_by: existing.updated_by,
    }
}

} // verus!
