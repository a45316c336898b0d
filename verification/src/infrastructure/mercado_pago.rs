//! The card-payment provider: how its answers are read, which of them are
//! accepted, and how a payment is looked up there.
use crate::text::{all_digits, chars_of, decimal_int, i64_to_decimal, parse_i64, parse_in_range, str_eq};
use vstd::prelude::*;

verus! {

/// Where a payment stands at the provider.
#[derive(Debug, Clone, Copy, PartialEq, Eq, Structural)]
pub enum ProviderStatus {
    Captured,
    Authorized,
    Pending,
    Failed,
}

/// What the provider tells of the card that paid.
#[derive(Debug, Clone)]
pub struct ProviderCardMetadata {
    pub brand: Option<String>,
    pub last_four_digits: Option<String>,
    pub expiration_month: Option<i32>,
    pub expiration_year: Option<i32>,
    pub cardholder_name: Option<String>,
}

/// A payment as the provider reports it, once read.
#[derive(Debug, Clone)]
pub struct ProviderResult {
    pub reference: String,
    pub status: ProviderStatus,
    pub amount_cents: i64,
    pub currency: String,
    pub external_reference: String,
    pub collector_id: i64,
    pub payment_type_id: String,
    pub card: Option<ProviderCardMetadata>,
}

/// A failed exchange with the provider, with its reason.
#[derive(Debug, Clone)]
pub struct ProviderError(pub String);

/// The `id` of a provider payment: a JSON string, a JSON integer that fits
/// in 64 bits, or anything else.
#[derive(Debug, Clone)]
pub enum ProviderId {
    Text(String),
    Integer(i64),
    Other,
}

/// The card holder of a provider payment.
#[derive(Debug, Clone)]
pub struct CardHolder {
    pub name: Option<String>,
}

/// The card of a provider payment.
#[derive(Debug, Clone)]
pub struct CardResponse {
    pub last_four_digits: Option<String>,
    pub expiration_month: Option<i32>,
    pub expiration_year: Option<i32>,
    pub cardholder: Option<CardHolder>,
}

/// A provider payment as it arrives. `amount_cents` is the transaction
/// amount in cents, rounded, or `None` when the amount the provider sent is
/// negative or not a finite number.
#[derive(Debug, Clone)]
pub struct PaymentResponse {
    pub id: ProviderId,
    pub status: String,
    pub amount_cents: Option<i64>,
    pub currency_id: String,
    pub external_reference: Option<String>,
    pub collector_id: i64,
    pub payment_type_id: String,
    pub payment_method_id: Option<String>,
    pub card: Option<CardResponse>,
}

/// The provider's status names, read as ours: `approved` is captured,
/// `authorized` authorized, a rejected, cancelled, refunded or charged-back
/// payment failed, and every other status is still pending.
pub open spec fn provider_status_of(s: Seq<char>) -> ProviderStatus {
    if s == "approved"@ {
        ProviderStatus::Captured
    } else if s == "authorized"@ {
        ProviderStatus::Authorized
    } else if s == "rejected"@ || s == "cancelled"@ || s == "refunded"@ || s == "charged_back"@ {
        ProviderStatus::Failed
    } else {
        ProviderStatus::Pending
    }
}

/// The reference text of a provider payment id.
pub open spec fn reference_of(id: ProviderId) -> Option<Seq<char>> {
    match id {
        ProviderId::Text(s) => Some(s@),
        ProviderId::Integer(n) => Some(decimal_int(n as int)),
        ProviderId::Other => None,
    }
}

/// The card facts a provider payment carries.
pub open spec fn card_metadata_of(brand: Option<String>, card: Option<CardResponse>) -> Option<ProviderCardMetadata> {
    match card {
        Some(c) => Some(
            ProviderCardMetadata {
                brand: brand,
                last_four_digits: c.last_four_digits,
                expiration_month: c.expiration_month,
                expiration_year: c.expiration_year,
                cardholder_name: match c.cardholder {
                    Some(h) => h.name,
                    None => None,
                },
            },
        ),
        None => None,
    }
}

/// Reads a provider status name.
pub fn provider_status(status: &str) -> (r: ProviderStatus)
    ensures
        r == provider_status_of(status@),
{
    if str_eq(status, "approved") {
        ProviderStatus::Captured
    } else if str_eq(status, "authorized") {
        ProviderStatus::Authorized
    } else if str_eq(status, "rejected") || str_eq(status, "cancelled") || str_eq(status, "refunded")
        || str_eq(status, "charged_back") {
        ProviderStatus::Failed
    } else {
        ProviderStatus::Pending
    }
}

/// Why a provider payment cannot be read: it has no usable id, or no usable
/// amount.
pub open spec fn read_failure(response: PaymentResponse) -> Option<Seq<char>> {
    if reference_of(response.id) is None {
        Some("invalid provider reference"@)
    } else if response.amount_cents is None {
        Some("invalid provider amount"@)
    } else {
        None
    }
}

/// `p` is what a readable provider payment reads as.
pub open spec fn reads_as(response: PaymentResponse, p: ProviderResult) -> bool {
    &&& reference_of(response.id) == Some(p.reference@)
    &&& response.amount_cents == Some(p.amount_cents)
    &&& p.status == provider_status_of(response.status@)
    &&& p.currency == response.currency_id
    &&& p.external_reference@ == match response.external_reference {
        Some(x) => x@,
        None => Seq::<char>::empty(),
    }
    &&& p.collector_id == response.collector_id
    &&& p.payment_type_id == response.payment_type_id
    &&& p.card == card_metadata_of(response.payment_method_id, response.card)
}

/// Reads a provider payment: its id becomes the reference and its status
/// one of ours; a payment without a usable id or amount is refused.
pub fn normalized_response(response: PaymentResponse) -> (r: Result<ProviderResult, ProviderError>)
    ensures
        match r {
            Ok(p) => read_failure(response) is None && reads_as(response, p),
            Err(e) => read_failure(response) == Some(e.0@),
        },
{
    let reference = match response.id {
        ProviderId::Text(s) => s,
        ProviderId::Integer(n) => i64_to_decimal(n),
        ProviderId::Other => {
            return Err(ProviderError(String::from_str("invalid provider reference")));
        },
    };
    let amount_cents = match response.amount_cents {
        Some(a) => a,
        None => {
            return Err(ProviderError(String::from_str("invalid provider amount")));
        },
    };
    let status = provider_status(response.status.as_str());
    let card = match response.card {
        Some(c) => Some(
            ProviderCardMetadata {
                brand: response.payment_method_id,
                last_four_digits: c.last_four_digits,
                expiration_month: c.expiration_month,
                expiration_year: c.expiration_year,
                cardholder_name: match c.cardholder {
                    Some(h) => h.name,
                    None => None,
                },
            },
        ),
        None => None,
    };
    let external_reference = match response.external_reference {
        Some(x) => x,
        None => String::new(),
    };
    Ok(
        ProviderResult {
            reference,
            status,
            amount_cents,
            currency: response.currency_id,
            external_reference,
            collector_id: response.collector_id,
            payment_type_id: response.payment_type_id,
            card,
        },
    )
}

/// The answer to a search by external reference: nothing when no payment
/// matched, the one payment when one did, and a refusal when several did or
/// the one found could not be read. Each row is the payment as read, or why
/// it could not be.
pub fn search_outcome(rows: Vec<Result<PaymentResponse, ProviderError>>) -> (r: Result<
    Option<ProviderResult>,
    ProviderError,
>)
    ensures
        rows@.len() > 1 ==> (r matches Err(e) && e.0@ == "ambiguous provider payments"@),
        rows@.len() == 0 ==> r matches Ok(None),
        rows@.len() == 1 ==> match rows@[0] {
            Err(e) => r == Err::<Option<ProviderResult>, ProviderError>(e),
            Ok(p) => match r {
                Ok(Some(x)) => read_failure(p) is None && reads_as(p, x),
                Ok(None) => false,
                Err(e) => read_failure(p) == Some(e.0@),
            },
        },
{
    if rows.len() > 1 {
        return Err(ProviderError(String::from_str("ambiguous provider payments")));
    }
    let mut rows = rows;
    match rows.pop() {
        None => Ok(None),
        Some(Err(e)) => Err(e),
        Some(Ok(p)) => match normalized_response(p) {
            Ok(x) => Ok(Some(x)),
            Err(e) => Err(e),
        },
    }
}

/// The provider credentials the payment endpoints need.
#[derive(Debug, Clone)]
pub struct ProviderSettings {
    pub access_token: String,
    pub collector_id: i64,
}

/// The provider is usable with these settings: an access token that is
/// present and not empty, and a collector id that reads as a 64-bit integer.
pub open spec fn settings_usable(access_token: Option<String>, collector_id: Option<String>) -> bool {
    &&& access_token matches Some(t) && t@.len() > 0
    &&& collector_id matches Some(c) && parse_in_range(c@, i64::MIN as int, i64::MAX as int) is Some
}

/// Checks the provider settings: the access token and the collector id
/// (text, as configured).
pub fn provider_settings(access_token: Option<String>, collector_id: Option<String>) -> (r: Result<
    ProviderSettings,
    ProviderError,
>)
    ensures
        r is Ok <==> settings_usable(access_token, collector_id),
        r matches Err(e) ==> e.0@ == "Mercado Pago não configurado"@,
        r matches Ok(s) ==> access_token == Some(s.access_token) && (collector_id matches Some(c)
            && parse_in_range(c@, i64::MIN as int, i64::MAX as int) == Some(s.collector_id as int)),
{
    let token = match access_token {
        Some(t) => t,
        None => {
            return Err(ProviderError(String::from_str("Mercado Pago não configurado")));
        },
    };
    let collector = match &collector_id {
        Some(c) => parse_i64(c.as_str()),
        None => None,
    };
    let collector = match collector {
        Some(c) => c,
        None => {
            return Err(ProviderError(String::from_str("Mercado Pago não configurado")));
        },
    };
    if token.as_str().unicode_len() == 0 {
        return Err(ProviderError(String::from_str("Mercado Pago não configurado")));
    }
    Ok(ProviderSettings { access_token: token, collector_id: collector })
}

/// The address of a provider payment, for a reference made of ASCII digits
/// only; any other reference is refused.
pub fn payment_url(reference: &str) -> (r: Result<String, ProviderError>)
    ensures
        r is Ok <==> all_digits(reference@),
        r matches Ok(u) ==> u@ == "https://api.mercadopago.com/v1/payments/"@ + reference@,
        r matches Err(e) ==> e.0@ == "invalid provider reference"@,
{
    let v = chars_of(reference);
    let mut i: usize = 0;
    while i < v.len()
        invariant
            v@ == reference@,
            i <= v@.len(),
            forall|k: int| 0 <= k < i ==> '0' <= #[trigger] v@[k] <= '9',
        decreases v@.len() - i,
    {
        if !('0' <= v[i] && v[i] <= '9') {
            return Err(ProviderError(String::from_str("invalid provider reference")));
        }
        i = i + 1;
    }
    let mut url = String::from_str("https://api.mercadopago.com/v1/payments/");
    url.append(reference);
    Ok(url)
}

/// The description a charge carries: `Compra Torg {external reference}`.
pub fn charge_description(external_reference: &str) -> (r: String)
    ensures
        r@ == "Compra Torg "@ + external_reference@,
{
    let mut d = String::from_str("Compra Torg ");
    d.append(external_reference);
    d
}

} // verus!
