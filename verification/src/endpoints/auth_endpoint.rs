//! What a customer sign-up creates.
use crate::domain::Role;
use crate::endpoints::json::signup_request::SignupRequest;
use vstd::prelude::*;

verus! {

/// Accept invite.
#[derive(Debug, Clone)]
pub struct AcceptInviteJson {
    pub token: String,
    pub new_password: String,
}

/// The user account a sign-up creates.
#[derive(Debug, Clone)]
pub struct NewUser {
    pub tenant_id: Option<i64>,
    pub name: Option<String>,
    pub email: String,
    pub password: String,
    pub role: Role,
    pub enabled: bool,
    pub first_login: bool,
}

/// The customer a sign-up creates.
#[derive(Debug, Clone)]
pub struct NewCustomer {
    pub tenant_id: Option<i64>,
    pub name: String,
    pub email: String,
    pub password_hash: String,
    pub cpf: Option<String>,
    pub phone: Option<String>,
    pub marketing_consent: bool,
    pub active: bool,
}

/// The first address a sign-up may give.
#[derive(Debug, Clone)]
pub struct NewCustomerAddress {
    pub label: Option<String>,
    pub recipient: String,
    pub cep: String,
    pub logradouro: String,
    pub numero: String,
    pub complemento: Option<String>,
    pub bairro: String,
    pub cidade: String,
    pub uf: String,
    pub is_default: bool,
}

/// Everything a sign-up registers.
#[derive(Debug, Clone)]
pub struct Registration {
    pub user: NewUser,
    pub customer: NewCustomer,
    pub address: Option<NewCustomerAddress>,
}

/// What a sign-up registers: an enabled customer account, bound to no
/// tenant and due for its first login; a customer with the same name,
/// e-mail and password, active and without marketing consent; and the
/// address given, which is the default one unless it says otherwise.
pub fn registration(request: SignupRequest) -> (r: Registration)
    ensures
        r.user.tenant_id is None,
        r.user.name == Some(request.name),
        r.user.email == request.email,
        r.user.password == request.password,
        r.user.role == Role::Customer,
        r.user.enabled,
        r.user.first_login,
        r.customer.tenant_id is None,
        r.customer.name == request.name,
        r.customer.email == request.email,
        r.customer.password_hash == request.password,
        r.customer.cpf == request.cpf,
        r.customer.phone == request.phone,
        !r.customer.marketing_consent,
        r.customer.active,
        request.address is None ==> r.address is None,
        request.address matches Some(a) ==> (r.address matches Some(b) && {
            &&& b.label == a.label
            &&& b.recipient == a.recipient
            &&& b.cep == a.cep
            &&& b.logradouro == a.logradouro
            &&& b.numero == a.numero
            &&& b.complemento == a.complemento
            &&& b.bairro == a.bairro
            &&& b.cidade == a.cidade
            &&& b.uf == a.uf
            &&& b.is_default == match a.is_default {
                Some(d) => d,
                None => true,
            }
        }),
{
    let user = NewUser {
        tenant_id: None,
        name: Some(request.name.clone()),
        email: request.email.clone(),
        password: request.password.clone(),
        role: Role::Customer,
        enabled: true,
        first_login: true,
    };
    let customer = NewCustomer {
        tenant_id: None,
        name: request.name,
        email: request.email,
        password_hash: request.password,
        cpf: request.cpf,
        phone: request.phone,
        marketing_consent: false,
        active: true,
    };
    let address = match request.address {
        Some(a) => Some(
            NewCustomerAddress {
                label: a.label,
                recipient: a.recipient,
                cep: a.cep,
                logradouro: a.logradouro,
                numero: a.numero,
                complemento: a.complemento,
                bairro: a.bairro,
                cidade: a.cidade,
                uf: a.uf,
                is_default: match a.is_default {
                    Some(d) => d,
                    None => true,
                },
            },
        ),
        None => None,
    };
    Registration { user, customer, address }
}

} // verus!
