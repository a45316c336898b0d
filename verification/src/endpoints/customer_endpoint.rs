//! The fields a customer record gets when staff create or change it.
use crate::commons::exception_response::ExceptionResponse;
use crate::commons::i18n::{ErrorKey, Locale};
use crate::endpoints::json::customer_json::CustomerInputJson;
use crate::text::{ascii_lower, is_blank, is_blank_str, str_eq, str_to_lowercase, to_ascii_lowercase, trim, trim_str, unicode_lowercase};
use vstd::prelude::*;

verus! {

/// The customer fields staff write.
#[derive(Debug, Clone)]
pub struct CustomerFields {
    pub name: String,
    pub email: String,
    pub cpf: Option<String>,
    pub phone: Option<String>,
    pub marketing_consent: bool,
    pub active: bool,
    pub password_hash: Option<String>,
}

/// A customer needs a name and an e-mail with text.
pub fn validate_customer(input: &CustomerInputJson, locale: Locale) -> (r: Result<(), ExceptionResponse>)
    ensures
        r is Ok <==> !is_blank(input.name@) && !is_blank(input.email@),
        r matches Err(e) ==> e == ExceptionResponse::BadRequest(locale, ErrorKey::InvalidParameterValue),
{
    if is_blank_str(input.name.as_str()) || is_blank_str(input.email.as_str()) {
        return Err(ExceptionResponse::BadRequest(locale, ErrorKey::InvalidParameterValue));
    }
    Ok(())
}

/// The fields of a customer created by staff: the name trimmed, the e-mail
/// trimmed and in lower case, no marketing consent and active unless said
/// otherwise, and the password given, if any.
pub fn new_customer_fields(input: CustomerInputJson) -> (r: CustomerFields)
    ensures
        r.name@ == trim(input.name@),
        r.email@ == unicode_lowercase(trim(input.email@)),
        r.cpf == input.cpf && r.phone == input.phone,
        r.marketing_consent == match input.marketing_consent {
            Some(b) => b,
            None => false,
        },
        r.active == match input.active {
            Some(b) => b,
            None => true,
        },
        r.password_hash == input.password,
{
    let name = trim_str(input.name.as_str());
    let t = trim_str(input.email.as_str());
    let email = str_to_lowercase(t.as_str());
    CustomerFields {
        name,
        email,
        cpf: input.cpf,
        phone: input.phone,
        marketing_consent: match input.marketing_consent {
            Some(b) => b,
            None => false,
        },
        active: match input.active {
            Some(b) => b,
            None => true,
        },
        password_hash: input.password,
    }
}

/// The fields of a customer changed by staff: name and e-mail as for a new
/// one; CPF, phone, consent and status as given, else as they were; the
/// password is never changed here.
pub fn updated_customer_fields(input: CustomerInputJson, existing: CustomerFields) -> (r: CustomerFields)
    ensures
        r.name@ == trim(input.name@),
        r.email@ == unicode_lowercase(trim(input.email@)),
        r.cpf == match input.cpf {
            Some(c) => Some(c),
            None => existing.cpf,
        },
        r.phone == match input.phone {
            Some(p) => Some(p),
            None => existing.phone,
        },
        r.marketing_consent == match input.marketing_consent {
            Some(b) => b,
            None => existing.marketing_consent,
        },
        r.active == match input.active {
            Some(b) => b,
            None => existing.active,
        },
        r.password_hash == existing.password_hash,
{
    let name = trim_str(input.name.as_str());
    let t = trim_str(input.email.as_str());
    let email = str_to_lowercase(t.as_str());
    CustomerFields {
        name,
        email,
        cpf: match input.cpf {
            Some(c) => Some(c),
            None => existing.cpf,
        },
        phone: match input.phone {
            Some(p) => Some(p),
            None => existing.phone,
        },
        marketing_consent: match input.marketing_consent {
            Some(b) => b,
            None => existing.marketing_consent,
        },
        active: match input.active {
            Some(b) => b,
            None => existing.active,
        },
        password_hash: existing.password_hash,
    }
}

/// The column customers are ordered by.
#[derive(Debug, Clone, Copy, PartialEq, Eq, Structural)]
pub enum CustomerSortColumn {
    Email,
    Active,
    CreatedAt,
    Id,
    Name,
}

/// The column a sort key names, in any ASCII case; any other key sorts by
/// Name.
pub open spec fn customer_sort_of(key: Seq<char>) -> CustomerSortColumn {
    let k = ascii_lower(key);
    if k == "email"@ {
        CustomerSortColumn::Email
    } else if k == "active"@ {
        CustomerSortColumn::Active
    } else if k == "createdat"@ || k == "created_at"@ {
        CustomerSortColumn::CreatedAt
    } else if k == "id"@ {
        CustomerSortColumn::Id
    } else {
        CustomerSortColumn::Name
    }
}

/// The column customers are sorted by for the normalised sort key.
pub fn customer_sort_column(sort_by: &str) -> (r: CustomerSortColumn)
    ensures
        r == customer_sort_of(sort_by@),
{
    let lowered = to_ascii_lowercase(sort_by);
    let k = lowered.as_str();
    if str_eq(k, "email") {
        CustomerSortColumn::Email
    } else if str_eq(k, "active") {
        CustomerSortColumn::Active
    } else if str_eq(k, "createdat") || str_eq(k, "created_at") {
        CustomerSortColumn::CreatedAt
    } else if str_eq(k, "id") {
        CustomerSortColumn::Id
    } else {
        CustomerSortColumn::Name
    }
}

} // verus!
