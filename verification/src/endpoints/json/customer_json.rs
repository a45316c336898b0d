use crate::commons::pagination::{clone_text, PageQuery};
use crate::commons::exception_response::ExceptionResponse;
use crate::commons::i18n::{ErrorKey, Locale};
use crate::text::{is_blank, is_blank_str};
use vstd::prelude::*;

verus! {

/// A shop customer, as JSON shows it.
#[derive(Debug, Clone)]
pub struct CustomerJson {
    pub id: i64,
    pub uuid: String,
    pub tenant_id: Option<i64>,
    pub name: String,
    pub email: String,
    pub cpf: Option<String>,
    pub phone: Option<String>,
    pub marketing_consent: bool,
    pub active: bool,
    pub created_at: Option<chrono::NaiveDateTime>,
    pub updated_at: Option<chrono::NaiveDateTime>,
}

/// An address a customer ships to, as JSON shows it.
#[derive(Debug, Clone)]
pub struct CustomerAddressJson {
    pub id: i64,
    pub uuid: String,
    pub tenant_id: Option<i64>,
    pub customer_id: i64,
    pub label: Option<String>,
    pub recipient: String,
    pub cep: String,
    pub logradouro: String,
    pub numero: String,
    pub complemento: Option<String>,
    pub bairro: String,
    pub cidade: String,
    pub uf: String,
    pub is_default: bool,
    pub created_at: Option<chrono::NaiveDateTime>,
    pub updated_at: Option<chrono::NaiveDateTime>,
}


/// Customer input.
#[derive(Debug, Clone)]
pub struct CustomerInputJson {
    pub tenant_id: Option<i64>,
    pub name: String,
    pub email: String,
    pub password: Option<String>,
    pub cpf: Option<String>,
    pub phone: Option<String>,
    pub marketing_consent: Option<bool>,
    pub active: Option<bool>,
}

/// Customer page query.
#[derive(Debug, Clone)]
pub struct CustomerPageQuery {
    pub page: Option<u64>,
    pub page_size: Option<u64>,
    pub q: Option<String>,
    pub sort_by: Option<String>,
    pub sort_dir: Option<String>,
    pub active: Option<bool>,
    pub tenant_id: Option<i64>,
}

impl CustomerPageQuery {
    /// The paging part of the request.
    pub fn to_page_query(&self) -> (r: PageQuery)
        ensures
            r == (PageQuery {
                page: self.page,
                page_size: self.page_size,
                q: self.q,
                sort_by: self.sort_by,
                sort_dir: self.sort_dir,
            }),
    {
        PageQuery {
            page: self.page,
            page_size: self.page_size,
            q: clone_text(&self.q),
            sort_by: clone_text(&self.sort_by),
            sort_dir: clone_text(&self.sort_dir),
        }
    }
}

/// Customer address input.
#[derive(Debug, Clone)]
pub struct CustomerAddressInputJson {
    pub tenant_id: Option<i64>,
    pub customer_id: i64,
    pub label: Option<String>,
    pub recipient: String,
    pub cep: String,
    pub logradouro: String,
    pub numero: String,
    pub complemento: Option<String>,
    pub bairro: String,
    pub cidade: String,
    pub uf: String,
    pub is_default: Option<bool>,
}

/// Customer address page query.
#[derive(Debug, Clone)]
pub struct CustomerAddressPageQuery {
    pub page: Option<u64>,
    pub page_size: Option<u64>,
    pub q: Option<String>,
    pub sort_by: Option<String>,
    pub sort_dir: Option<String>,
    pub customer_id: Option<i64>,
    pub uf: Option<String>,
    pub tenant_id: Option<i64>,
}

impl CustomerAddressPageQuery {
    /// The paging part of the request.
    pub fn to_page_query(&self) -> (r: PageQuery)
        ensures
            r == (PageQuery {
                page: self.page,
                page_size: self.page_size,
                q: self.q,
                sort_by: self.sort_by,
                sort_dir: self.sort_dir,
            }),
    {
        PageQuery {
            page: self.page,
            page_size: self.page_size,
            q: clone_text(&self.q),
            sort_by: clone_text(&self.sort_by),
            sort_dir: clone_text(&self.sort_dir),
        }
    }
}

/// A customer address needs a recipient, CEP, street, number, city and
/// state with text.
pub fn validate_customer_address(input: &CustomerAddressInputJson, locale: Locale) -> (r: Result<(), ExceptionResponse>)
    ensures
        r is Ok <==> !is_blank(input.recipient@) && !is_blank(input.cep@) && !is_blank(input.logradouro@)
            && !is_blank(input.numero@) && !is_blank(input.cidade@) && !is_blank(input.uf@),
        r matches Err(e) ==> e == ExceptionResponse::BadRequest(locale, ErrorKey::InvalidParameterValue),
{
    if is_blank_str(input.recipient.as_str()) || is_blank_str(input.cep.as_str()) || is_blank_str(input.logradouro.as_str())
        || is_blank_str(input.numero.as_str()) || is_blank_str(input.cidade.as_str()) || is_blank_str(input.uf.as_str()) {
        return Err(ExceptionResponse::BadRequest(locale, ErrorKey::InvalidParameterValue));
    }
    Ok(())
}

} // verus!
