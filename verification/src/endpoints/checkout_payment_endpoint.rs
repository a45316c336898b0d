//! The card-payment endpoints: who may pay, when a new charge starts, how a
//! provider answer moves a payment, and how provider notifications are
//! checked.
use hmac::{Hmac, Mac};
use sha2::Sha256;
use crate::commons::exception_response::PurchaseError;
use crate::domain::Role;
use crate::infrastructure::identifiers::{current_time_micros, new_uuid_text};
use crate::infrastructure::mapper::text_view;
use crate::commons::pagination::clone_text;
use crate::infrastructure::mercado_pago::{ProviderCardMetadata, ProviderId, ProviderResult, ProviderStatus, reference_of};
use crate::text::{
    after_char, before_char, decode_hex, hex_bytes, push_char, split_on,
    split_once_char, trim, trim_str, chars_of, decimal, decimal_int, decimal_text_reads_back, find_char, i64_to_decimal,
    all_digits, is_ascii_digit, lemma_before_char, lemma_decimal_digits, parse_i64, parse_in_range, starts_with,
    str_eq, string_of, utf8_len, utf8_len_exceeds,
};
use vstd::prelude::*;

verus! {

/// Payment config.
#[derive(Debug, Clone)]
pub struct PaymentConfig {
    pub public_key: String,
}

/// Submit card.
#[derive(Debug, Clone)]
pub struct SubmitCard {
    pub token: String,
    pub payment_method_id: String,
    pub issuer_id: Option<String>,
    pub installments: i32,
}

/// Payment state.
#[derive(Debug, Clone)]
pub struct PaymentState {
    pub purchase_id: i64,
    pub status: String,
    pub reference: Option<String>,
}

/// Notification query.
#[derive(Debug, Clone)]
pub struct NotificationQuery {
    pub data_id: Option<String>,
    pub id: Option<String>,
}

// ------------------------------------------------------------------
// Refusals
// ------------------------------------------------------------------

/// Why a payment request is refused; each has an HTTP status and a message.
#[derive(Debug, Clone, Copy, PartialEq, Eq, Structural)]
pub enum PaymentRefusal {
    AccessDenied,
    Unavailable,
    InvalidCard,
    PurchaseNotFound,
    PurchaseLookupFailed,
    PaymentNotFound,
    Expired,
    QuoteMissing,
    InconsistentProvider,
    ReferenceMismatch,
    SignatureMissing,
    RequestIdMissing,
    PaymentIdMissing,
    PaymentIdInvalid,
    SignatureInvalid,
}

impl PaymentRefusal {
    pub open spec fn status_of(self) -> u16 {
        match self {
            PaymentRefusal::AccessDenied => 403,
            PaymentRefusal::Unavailable => 503,
            PaymentRefusal::InvalidCard => 400,
            PaymentRefusal::PurchaseNotFound => 404,
            PaymentRefusal::PurchaseLookupFailed => 503,
            PaymentRefusal::PaymentNotFound => 404,
            PaymentRefusal::Expired => 409,
            PaymentRefusal::QuoteMissing => 409,
            PaymentRefusal::InconsistentProvider => 502,
            PaymentRefusal::ReferenceMismatch => 409,
            PaymentRefusal::SignatureMissing => 401,
            PaymentRefusal::RequestIdMissing => 401,
            PaymentRefusal::PaymentIdMissing => 401,
            PaymentRefusal::PaymentIdInvalid => 401,
            PaymentRefusal::SignatureInvalid => 401,
        }
    }

    pub open spec fn message_of(self) -> Seq<char> {
        match self {
            PaymentRefusal::AccessDenied => "Acesso negado"@,
            PaymentRefusal::Unavailable => "Pagamento indisponível. Verifique a configuração do Mercado Pago."@,
            PaymentRefusal::InvalidCard => "Dados do cartão inválidos"@,
            PaymentRefusal::PurchaseNotFound => "Compra não encontrada"@,
            PaymentRefusal::PurchaseLookupFailed => "Não foi possível consultar a compra"@,
            PaymentRefusal::PaymentNotFound => "Pagamento não encontrado"@,
            PaymentRefusal::Expired => "Prazo para pagamento expirado. Faça um novo orçamento."@,
            PaymentRefusal::QuoteMissing => "Compra sem orçamento validado"@,
            PaymentRefusal::InconsistentProvider => "Resposta de pagamento inconsistente"@,
            PaymentRefusal::ReferenceMismatch => "Referência de pagamento divergente"@,
            PaymentRefusal::SignatureMissing => "Assinatura ausente"@,
            PaymentRefusal::RequestIdMissing => "Identificador ausente"@,
            PaymentRefusal::PaymentIdMissing => "Pagamento ausente"@,
            PaymentRefusal::PaymentIdInvalid => "Pagamento inválido"@,
            PaymentRefusal::SignatureInvalid => "Assinatura inválida"@,
        }
    }

    /// The HTTP status of the refusal.
    pub fn status_code(&self) -> (r: u16)
        ensures
            r == self.status_of(),
    {
        match self {
            PaymentRefusal::AccessDenied => 403,
            PaymentRefusal::Unavailable => 503,
            PaymentRefusal::InvalidCard => 400,
            PaymentRefusal::PurchaseNotFound => 404,
            PaymentRefusal::PurchaseLookupFailed => 503,
            PaymentRefusal::PaymentNotFound => 404,
            PaymentRefusal::Expired => 409,
            PaymentRefusal::QuoteMissing => 409,
            PaymentRefusal::InconsistentProvider => 502,
            PaymentRefusal::ReferenceMismatch => 409,
            PaymentRefusal::SignatureMissing => 401,
            PaymentRefusal::RequestIdMissing => 401,
            PaymentRefusal::PaymentIdMissing => 401,
            PaymentRefusal::PaymentIdInvalid => 401,
            PaymentRefusal::SignatureInvalid => 401,
        }
    }

    /// The message the refusal is answered with.
    pub fn message(&self) -> (r: &'static str)
        ensures
            r@ == self.message_of(),
    {
        match self {
            PaymentRefusal::AccessDenied => "Acesso negado",
            PaymentRefusal::Unavailable => "Pagamento indisponível. Verifique a configuração do Mercado Pago.",
            PaymentRefusal::InvalidCard => "Dados do cartão inválidos",
            PaymentRefusal::PurchaseNotFound => "Compra não encontrada",
            PaymentRefusal::PurchaseLookupFailed => "Não foi possível consultar a compra",
            PaymentRefusal::PaymentNotFound => "Pagamento não encontrado",
            PaymentRefusal::Expired => "Prazo para pagamento expirado. Faça um novo orçamento.",
            PaymentRefusal::QuoteMissing => "Compra sem orçamento validado",
            PaymentRefusal::InconsistentProvider => "Resposta de pagamento inconsistente",
            PaymentRefusal::ReferenceMismatch => "Referência de pagamento divergente",
            PaymentRefusal::SignatureMissing => "Assinatura ausente",
            PaymentRefusal::RequestIdMissing => "Identificador ausente",
            PaymentRefusal::PaymentIdMissing => "Pagamento ausente",
            PaymentRefusal::PaymentIdInvalid => "Pagamento inválido",
            PaymentRefusal::SignatureInvalid => "Assinatura inválida",
        }
    }
}

/// Only customers pay.
pub fn require_customer(role: Role) -> (r: Result<(), PaymentRefusal>)
    ensures
        r is Ok <==> role == Role::Customer,
        r matches Err(e) ==> e == PaymentRefusal::AccessDenied,
{
    if role != Role::Customer {
        return Err(PaymentRefusal::AccessDenied);
    }
    Ok(())
}

/// The refusal for a purchase that could not be read for its customer: a
/// purchase that does not exist or is someone else's is not found; any
/// other failure is reported as such.
pub fn purchase_lookup_refusal(error: &PurchaseError) -> (r: PaymentRefusal)
    ensures
        r == (if *error is NotFound || *error is Forbidden {
            PaymentRefusal::PurchaseNotFound
        } else {
            PaymentRefusal::PurchaseLookupFailed
        }),
{
    match error {
        PurchaseError::NotFound | PurchaseError::Forbidden => PaymentRefusal::PurchaseNotFound,
        _ => PaymentRefusal::PurchaseLookupFailed,
    }
}

/// What the payment page needs: the provider's public key, for a customer,
/// when the provider is configured and a non-empty key is set.
pub fn payment_config(role: Role, provider_ready: bool, public_key: Option<String>) -> (r: Result<
    PaymentConfig,
    PaymentRefusal,
>)
    ensures
        role != Role::Customer ==> r == Err::<PaymentConfig, PaymentRefusal>(
            PaymentRefusal::AccessDenied,
        ),
        role == Role::Customer && !(provider_ready && (public_key matches Some(k) && k@.len() > 0))
            ==> r == Err::<PaymentConfig, PaymentRefusal>(PaymentRefusal::Unavailable),
        r matches Ok(c) ==> role == Role::Customer && provider_ready && public_key == Some(
            c.public_key,
        ) && c.public_key@.len() > 0,
{
    if role != Role::Customer {
        return Err(PaymentRefusal::AccessDenied);
    }
    if !provider_ready {
        return Err(PaymentRefusal::Unavailable);
    }
    match public_key {
        Some(k) => {
            if k.as_str().unicode_len() == 0 {
                Err(PaymentRefusal::Unavailable)
            } else {
                Ok(PaymentConfig { public_key: k })
            }
        },
        None => Err(PaymentRefusal::Unavailable),
    }
}

// ------------------------------------------------------------------
// Payments and provider answers
// ------------------------------------------------------------------

/// A stored payment, as far as the payment rules read and write it.
#[derive(Debug, Clone)]
pub struct PaymentRecord {
    pub id: i64,
    pub status: String,
    pub amount_cents: i64,
    pub installments: i32,
    pub gateway_provider: Option<String>,
    pub gateway_reference: Option<String>,
    pub attempt_key: Option<String>,
    pub attempt_error: Option<String>,
}

/// The text of a stored payment.
pub struct PaymentModel {
    pub id: i64,
    pub status: Seq<char>,
    pub amount_cents: i64,
    pub installments: i32,
    pub gateway_provider: Option<Seq<char>>,
    pub gateway_reference: Option<Seq<char>>,
    pub attempt_key: Option<Seq<char>>,
    pub attempt_error: Option<Seq<char>>,
}

impl View for PaymentRecord {
    type V = PaymentModel;

    open spec fn view(&self) -> PaymentModel {
        PaymentModel {
            id: self.id,
            status: self.status@,
            amount_cents: self.amount_cents,
            installments: self.installments,
            gateway_provider: text_view(self.gateway_provider),
            gateway_reference: text_view(self.gateway_reference),
            attempt_key: text_view(self.attempt_key),
            attempt_error: text_view(self.attempt_error),
        }
    }
}

/// The name a payment status is stored under.
pub open spec fn status_name(s: ProviderStatus) -> Seq<char> {
    match s {
        ProviderStatus::Captured => "captured"@,
        ProviderStatus::Failed => "failed"@,
        ProviderStatus::Authorized => "authorized"@,
        ProviderStatus::Pending => "pending"@,
    }
}

/// A captured payment never changes again, and a failed one changes only
/// when the provider reports it captured.
pub open spec fn result_is_ignored(current_status: Seq<char>, s: ProviderStatus) -> bool {
    current_status == "captured"@ || (current_status == "failed"@ && s != ProviderStatus::Captured)
}

/// What a provider answer does to a stored payment.
pub enum ResultEffect {
    /// The payment stays as it is.
    Kept,
    /// The answer names another provider payment than the one on record.
    Conflict,
    /// The payment becomes this.
    Recorded(PaymentModel),
}

/// A payment once a provider answer with status `s` and reference
/// `reference` is recorded on it.
pub open spec fn recorded(p: PaymentModel, s: ProviderStatus, reference: Seq<char>) -> PaymentModel {
    PaymentModel {
        id: p.id,
        status: status_name(s),
        amount_cents: p.amount_cents,
        installments: p.installments,
        gateway_provider: Some("mercado_pago"@),
        gateway_reference: Some(reference),
        attempt_key: p.attempt_key,
        attempt_error: None,
    }
}

pub open spec fn result_effect(p: PaymentModel, s: ProviderStatus, reference: Seq<char>) -> ResultEffect {
    if result_is_ignored(p.status, s) {
        ResultEffect::Kept
    } else if p.gateway_reference matches Some(r) && r != reference {
        ResultEffect::Conflict
    } else {
        ResultEffect::Recorded(recorded(p, s, reference))
    }
}

/// The statuses a settled payment gives its purchase, its orders and their
/// coupon reservations: paid and redeemed when captured, failed and released
/// when failed; other answers settle nothing.
pub open spec fn settlement_statuses(s: ProviderStatus) -> Option<(Seq<char>, Seq<char>, Seq<char>)> {
    match s {
        ProviderStatus::Captured => Some(("paid"@, "paid"@, "redeemed"@)),
        ProviderStatus::Failed => Some(("payment_failed"@, "payment_failed"@, "released"@)),
        _ => None,
    }
}

/// What settling a purchase writes besides the payment.
#[derive(Debug, Clone)]
pub struct Settlement {
    pub purchase_status: &'static str,
    pub order_status: &'static str,
    pub order_payment_status: &'static str,
    pub reservation_status: &'static str,
    pub history_from_status: &'static str,
    pub history_actor_type: &'static str,
    pub history_note: String,
    pub redeem_coupons: bool,
}

/// `st` is the settlement of an answer with status `s` and reference
/// `reference`.
pub open spec fn is_settlement(st: Option<Settlement>, s: ProviderStatus, reference: Seq<char>) -> bool {
    match settlement_statuses(s) {
        None => st is None,
        Some((purchase, order, reservation)) => st matches Some(x) && {
            &&& x.purchase_status@ == purchase
            &&& x.order_status@ == order
            &&& x.order_payment_status@ == status_name(s)
            &&& x.reservation_status@ == reservation
            &&& x.history_from_status@ == "pending_payment"@
            &&& x.history_actor_type@ == "payment_gateway"@
            &&& x.history_note@ == "mercado_pago:"@ + reference
            &&& x.redeem_coupons == (s == ProviderStatus::Captured)
        },
    }
}

/// What to do with a provider answer.
#[derive(Debug, Clone)]
pub enum ResultDecision {
    /// Leave the payment as it is.
    Keep,
    /// Store `payment`, mark the charge attempt `transaction_key` with the
    /// new status and reference, apply `settlement` when there is one, and
    /// store `card` as the payment's card details (replacing those it has)
    /// when the provider told of the card.
    Record {
        payment: PaymentRecord,
        transaction_key: String,
        settlement: Option<Settlement>,
        card: Option<ProviderCardMetadata>,
    },
}

/// A copy of the card details the provider sent.
fn copy_card(card: &Option<ProviderCardMetadata>) -> (r: Option<ProviderCardMetadata>)
    ensures
        r == *card,
{
    match card {
        Some(c) => Some(
            ProviderCardMetadata {
                brand: clone_text(&c.brand),
                last_four_digits: clone_text(&c.last_four_digits),
                expiration_month: c.expiration_month,
                expiration_year: c.expiration_year,
                cardholder_name: clone_text(&c.cardholder_name),
            },
        ),
        None => None,
    }
}

fn status_text(s: ProviderStatus) -> (r: &'static str)
    ensures
        r@ == status_name(s),
{
    match s {
        ProviderStatus::Captured => "captured",
        ProviderStatus::Failed => "failed",
        ProviderStatus::Authorized => "authorized",
        ProviderStatus::Pending => "pending",
    }
}

/// Decides what a provider answer does to the payment as it now stands.
pub fn decide_result(current: PaymentRecord, result: &ProviderResult) -> (r: Result<
    ResultDecision,
    PaymentRefusal,
>)
    ensures
        match result_effect(current@, result.status, result.reference@) {
            ResultEffect::Kept => r matches Ok(ResultDecision::Keep),
            ResultEffect::Conflict => r == Err::<ResultDecision, PaymentRefusal>(
                PaymentRefusal::ReferenceMismatch,
            ),
            ResultEffect::Recorded(m) => r matches Ok(
                ResultDecision::Record { payment, transaction_key, settlement, card },
            ) && card == result.card && payment@ == m && transaction_key@ == match current@.attempt_key {
                Some(k) => k,
                None => Seq::<char>::empty(),
            } && is_settlement(settlement, result.status, result.reference@),
        },
{
    let captured = str_eq(current.status.as_str(), "captured");
    let failed = str_eq(current.status.as_str(), "failed");
    if captured || (failed && result.status != ProviderStatus::Captured) {
        return Ok(ResultDecision::Keep);
    }
    match &current.gateway_reference {
        Some(r) => {
            if !str_eq(r.as_str(), result.reference.as_str()) {
                return Err(PaymentRefusal::ReferenceMismatch);
            }
        },
        None => {},
    }
    let status = status_text(result.status);
    let transaction_key = match &current.attempt_key {
        Some(k) => k.clone(),
        None => String::new(),
    };
    let settlement = match result.status {
        ProviderStatus::Captured => Some(("paid", "paid", "redeemed")),
        ProviderStatus::Failed => Some(("payment_failed", "payment_failed", "released")),
        _ => None,
    };
    let settlement = match settlement {
        Some((purchase_status, order_status, reservation_status)) => {
            let mut note = String::from_str("mercado_pago:");
            note.append(result.reference.as_str());
            Some(
                Settlement {
                    purchase_status,
                    order_status,
                    order_payment_status: status,
                    reservation_status,
                    history_from_status: "pending_payment",
                    history_actor_type: "payment_gateway",
                    history_note: note,
                    redeem_coupons: result.status == ProviderStatus::Captured,
                },
            )
        },
        None => None,
    };
    let payment = PaymentRecord {
        id: current.id,
        status: String::from_str(status),
        amount_cents: current.amount_cents,
        installments: current.installments,
        gateway_provider: Some(String::from_str("mercado_pago")),
        gateway_reference: Some(result.reference.clone()),
        attempt_key: current.attempt_key,
        attempt_error: None,
    };
    let card = copy_card(&result.card);
    Ok(ResultDecision::Record { payment, transaction_key, settlement, card })
}

/// The payment after a run of provider answers, each a status and a
/// reference, recorded in order; an answer that is ignored or names another
/// provider payment leaves the payment as it was.
pub open spec fn after_answers(p: PaymentModel, answers: Seq<(ProviderStatus, Seq<char>)>) -> PaymentModel
    decreases answers.len(),
{
    if answers.len() == 0 {
        p
    } else {
        let next = match result_effect(p, answers[0].0, answers[0].1) {
            ResultEffect::Recorded(q) => q,
            _ => p,
        };
        after_answers(next, answers.drop_first())
    }
}

/// A captured payment is final: no provider answer changes it.
pub proof fn captured_payment_is_final(p: PaymentModel, s: ProviderStatus, reference: Seq<char>)
    requires
        p.status == "captured"@,
    ensures
        result_effect(p, s, reference) is Kept,
{
}

/// A failed payment changes only when the provider reports it captured.
pub proof fn failed_payment_moves_only_to_captured(p: PaymentModel, s: ProviderStatus, reference: Seq<char>)
    requires
        p.status == "failed"@,
        !(result_effect(p, s, reference) is Kept),
    ensures
        s == ProviderStatus::Captured,
{
}

/// A recorded answer takes the provider's status and reference, and ties
/// the payment to that provider payment for good: once a payment holds a
/// reference, an answer with another reference is refused.
pub proof fn recorded_answer_ties_the_payment(p: PaymentModel, s: ProviderStatus, reference: Seq<char>)
    ensures
        result_effect(p, s, reference) matches ResultEffect::Recorded(q) ==> {
            &&& q.status == status_name(s)
            &&& q.gateway_reference == Some(reference)
            &&& q.id == p.id && q.amount_cents == p.amount_cents && q.attempt_key == p.attempt_key
            &&& p.gateway_reference matches Some(r) ==> r == reference
        },
        p.gateway_reference matches Some(r) && r != reference && !result_is_ignored(p.status, s)
            ==> result_effect(p, s, reference) is Conflict,
{
}

/// Recording the same answer twice is recording it once.
pub proof fn recording_an_answer_is_idempotent(p: PaymentModel, s: ProviderStatus, reference: Seq<char>)
    requires
        result_effect(p, s, reference) is Recorded,
    ensures
        ({
            let q = result_effect(p, s, reference)->Recorded_0;
            result_effect(q, s, reference) is Kept || result_effect(q, s, reference) == ResultEffect::Recorded(q)
        }),
{
    let q = result_effect(p, s, reference)->Recorded_0;
    if !result_is_ignored(q.status, s) {
        assert(recorded(q, s, reference) == q);
    }
}

/// Whatever provider answers arrive, a captured payment stays as it is.
pub proof fn captured_payment_survives_any_answers(
    p: PaymentModel,
    answers: Seq<(ProviderStatus, Seq<char>)>,
)
    requires
        p.status == "captured"@,
    ensures
        after_answers(p, answers) == p,
    decreases answers.len(),
{
    if answers.len() > 0 {
        captured_payment_survives_any_answers(p, answers.drop_first());
    }
}

// ------------------------------------------------------------------
// Checking a provider answer against the purchase
// ------------------------------------------------------------------

/// The reference a charge carries at the provider:
/// `torg-{purchase id}-{attempt key}`.
pub open spec fn torg_reference(purchase_id: int, key: Seq<char>) -> Seq<char> {
    "torg-"@ + decimal_int(purchase_id) + "-"@ + key
}

/// Builds the provider reference of a charge attempt.
pub fn external_reference(purchase_id: i64, key: &str) -> (r: String)
    ensures
        r@ == torg_reference(purchase_id as int, key@),
{
    let mut r = String::from_str("torg-");
    r.append(i64_to_decimal(purchase_id).as_str());
    r.append("-");
    r.append(key);
    r
}

/// The attempt key of a payment, empty when it has none.
pub open spec fn key_text(key: Option<Seq<char>>) -> Seq<char> {
    match key {
        Some(k) => k,
        None => Seq::empty(),
    }
}

/// A provider answer belongs to this purchase's current charge: same
/// reference, same amount, in reais, to our collector, paid by credit card.
pub open spec fn answer_matches(result: ProviderResult, purchase_id: int, payment: PaymentModel, collector_id: int) -> bool {
    &&& result.external_reference@ == torg_reference(purchase_id, key_text(payment.attempt_key))
    &&& result.amount_cents == payment.amount_cents
    &&& result.currency@ == "BRL"@
    &&& result.collector_id == collector_id
    &&& result.payment_type_id@ == "credit_card"@
}

/// Refuses a provider answer that does not belong to the purchase's current
/// charge.
pub fn validate_provider(result: &ProviderResult, purchase_id: i64, payment: &PaymentRecord, collector_id: i64) -> (r: Result<(), PaymentRefusal>)
    ensures
        r is Ok <==> answer_matches(*result, purchase_id as int, payment@, collector_id as int),
        r matches Err(e) ==> e == PaymentRefusal::InconsistentProvider,
{
    let key = match &payment.attempt_key {
        Some(k) => k.clone(),
        None => String::new(),
    };
    let expected = external_reference(purchase_id, key.as_str());
    if !str_eq(result.external_reference.as_str(), expected.as_str()) || result.amount_cents
        != payment.amount_cents || !str_eq(result.currency.as_str(), "BRL") || result.collector_id
        != collector_id || !str_eq(result.payment_type_id.as_str(), "credit_card") {
        return Err(PaymentRefusal::InconsistentProvider);
    }
    Ok(())
}

/// What a customer is told of a payment.
pub fn payment_state(purchase_id: i64, payment: &PaymentRecord) -> (r: PaymentState)
    ensures
        r.purchase_id == purchase_id,
        r.status == payment.status,
        r.reference == payment.gateway_reference,
{
    PaymentState {
        purchase_id,
        status: payment.status.clone(),
        reference: match &payment.gateway_reference {
            Some(x) => Some(x.clone()),
            None => None,
        },
    }
}

// ------------------------------------------------------------------
// Starting a charge
// ------------------------------------------------------------------

/// A payment method id: lower-case ASCII letters, digits and `_`.
pub open spec fn method_id_char(c: char) -> bool {
    ('a' <= c && c <= 'z') || ('0' <= c && c <= '9') || c == '_'
}

/// The card data a charge can be attempted with: a token of 1 to 512
/// bytes, a non-empty payment method id, and 1 to 24 installments.
pub open spec fn card_acceptable(card: SubmitCard) -> bool {
    &&& card.token@.len() > 0
    &&& utf8_len(card.token@) <= 512
    &&& card.payment_method_id@.len() > 0
    &&& forall|i: int| 0 <= i < card.payment_method_id@.len() ==> method_id_char(#[trigger] card.payment_method_id@[i])
    &&& 1 <= card.installments <= 24
}

/// Refuses card data that no charge can be attempted with.
pub fn validate_card(card: &SubmitCard) -> (r: Result<(), PaymentRefusal>)
    ensures
        r is Ok <==> card_acceptable(*card),
        r matches Err(e) ==> e == PaymentRefusal::InvalidCard,
{
    if card.token.as_str().unicode_len() == 0 || utf8_len_exceeds(card.token.as_str(), 512) {
        return Err(PaymentRefusal::InvalidCard);
    }
    let m = chars_of(card.payment_method_id.as_str());
    if m.len() == 0 {
        return Err(PaymentRefusal::InvalidCard);
    }
    let mut i: usize = 0;
    while i < m.len()
        invariant
            m@ == card.payment_method_id@,
            i <= m@.len(),
            forall|k: int| 0 <= k < i ==> method_id_char(#[trigger] m@[k]),
        decreases m@.len() - i,
    {
        let c = m[i];
        if !(('a' <= c && c <= 'z') || ('0' <= c && c <= '9') || c == '_') {
            assert(!method_id_char(card.payment_method_id@[i as int]));
            return Err(PaymentRefusal::InvalidCard);
        }
        i = i + 1;
    }
    if card.installments < 1 || card.installments > 24 {
        return Err(PaymentRefusal::InvalidCard);
    }
    Ok(())
}

/// How long a purchase may wait for its first charge attempt, in
/// microseconds (15 minutes).
pub const PAYMENT_WINDOW_MICROS: i64 = 900_000_000;

/// The first charge attempt of a purchase must start within the payment
/// window after the purchase was created; times are in microseconds.
pub open spec fn window_closed(created_at_us: int, now_us: int, has_attempt: bool) -> bool {
    created_at_us + PAYMENT_WINDOW_MICROS <= now_us && !has_attempt
}

/// The checks before a charge: a free purchase needs no charge and is
/// answered with its payment as it is; a purchase whose payment window
/// closed without any attempt is refused; otherwise the charge goes on.
pub fn submit_precheck(
    purchase_id: i64,
    total_cents: i64,
    created_at_us: i64,
    now_us: i64,
    payment: &PaymentRecord,
) -> (r: Result<Option<PaymentState>, PaymentRefusal>)
    ensures
        total_cents == 0 ==> (r matches Ok(Some(st)) && st.purchase_id == purchase_id && st.status
            == payment.status && st.reference == payment.gateway_reference),
        total_cents != 0 && window_closed(created_at_us as int, now_us as int, payment.attempt_key is Some)
            ==> r == Err::<Option<PaymentState>, PaymentRefusal>(PaymentRefusal::Expired),
        total_cents != 0 && !window_closed(created_at_us as int, now_us as int, payment.attempt_key is Some)
            ==> r matches Ok(None),
{
    if total_cents == 0 {
        return Ok(Some(payment_state(purchase_id, payment)));
    }
    let deadline: i128 = (created_at_us as i128) + (PAYMENT_WINDOW_MICROS as i128);
    if deadline <= (now_us as i128) && payment.attempt_key.is_none() {
        return Err(PaymentRefusal::Expired);
    }
    Ok(None)
}

/// A purchase is charged only after its quote was validated.
pub fn require_quote(quote_found: bool) -> (r: Result<(), PaymentRefusal>)
    ensures
        r is Ok <==> quote_found,
        r matches Err(e) ==> e == PaymentRefusal::QuoteMissing,
{
    if !quote_found {
        return Err(PaymentRefusal::QuoteMissing);
    }
    Ok(())
}

/// The checks before a charge, at the current time: a free purchase is
/// answered with its payment as it is; once an attempt has started the
/// window never closes; otherwise the purchase may be refused as expired,
/// depending on the time read.
pub fn submit_precheck_now(purchase_id: i64, total_cents: i64, created_at_us: i64, payment: &PaymentRecord) -> (r: Result<
    Option<PaymentState>,
    PaymentRefusal,
>)
    ensures
        total_cents == 0 ==> (r matches Ok(Some(st)) && st.purchase_id == purchase_id && st.status
            == payment.status && st.reference == payment.gateway_reference),
        total_cents != 0 && payment.attempt_key is Some ==> r matches Ok(None),
        total_cents != 0 ==> (r matches Ok(None) || r == Err::<Option<PaymentState>, PaymentRefusal>(
            PaymentRefusal::Expired,
        )),
{
    let now = current_time_micros();
    submit_precheck(purchase_id, total_cents, created_at_us, now, payment)
}

/// Starts a new charge attempt with a fresh key: the payment as
/// `start_attempt` leaves it, and the key, a UUID's 36-character text.
pub fn begin_attempt(current: PaymentRecord, installments: i32) -> (r: (PaymentRecord, String))
    ensures
        r.0@ == attempt_started(current@, r.1@, installments),
        r.1@.len() == 36,
{
    let key = new_uuid_text();
    let k2 = key.clone();
    (start_attempt(current, key, installments), k2)
}

/// A charge is under way or done: the payment is captured, authorized or
/// pending, or waits for the provider on an attempt already started.
pub open spec fn attempt_in_progress(p: PaymentModel) -> bool {
    ||| p.status == "captured"@
    ||| p.status == "authorized"@
    ||| p.status == "pending"@
    ||| (p.attempt_key is Some && p.status == "pending_provider"@)
}

/// Whether the payment, as it now stands, already has a charge under way
/// or done, so that no new attempt starts.
pub fn has_attempt_in_progress(current: &PaymentRecord) -> (r: bool)
    ensures
        r == attempt_in_progress(current@),
{
    let s = current.status.as_str();
    str_eq(s, "captured") || str_eq(s, "authorized") || str_eq(s, "pending") || (
    current.attempt_key.is_some() && str_eq(s, "pending_provider"))
}

/// A payment once a new charge attempt with key `key` starts on it.
pub open spec fn attempt_started(p: PaymentModel, key: Seq<char>, installments: i32) -> PaymentModel {
    PaymentModel {
        id: p.id,
        status: "pending"@,
        amount_cents: p.amount_cents,
        installments: installments,
        gateway_provider: Some("mercado_pago"@),
        gateway_reference: None,
        attempt_key: Some(key),
        attempt_error: None,
    }
}

/// Starts a new charge attempt on a payment: pending, with the new key,
/// no provider reference and no error yet.
pub fn start_attempt(current: PaymentRecord, key: String, installments: i32) -> (r: PaymentRecord)
    ensures
        r@ == attempt_started(current@, key@, installments),
{
    PaymentRecord {
        id: current.id,
        status: String::from_str("pending"),
        amount_cents: current.amount_cents,
        installments,
        gateway_provider: Some(String::from_str("mercado_pago")),
        gateway_reference: None,
        attempt_key: Some(key),
        attempt_error: None,
    }
}

/// The record of one charge attempt.
#[derive(Debug, Clone)]
pub struct ChargeTransaction {
    pub payment_id: i64,
    pub operation: &'static str,
    pub status: &'static str,
    pub amount_cents: i64,
    pub currency: &'static str,
    pub idempotency_key: String,
    pub gateway_provider: &'static str,
}

/// The record of the charge attempt `key` on a payment: a pending charge of
/// the payment's amount in reais.
pub fn charge_transaction(saved: &PaymentRecord, key: String) -> (r: ChargeTransaction)
    ensures
        r.payment_id == saved.id,
        r.operation@ == "charge"@,
        r.status@ == "pending"@,
        r.amount_cents == saved.amount_cents,
        r.currency@ == "BRL"@,
        r.idempotency_key == key,
        r.gateway_provider@ == "mercado_pago"@,
{
    ChargeTransaction {
        payment_id: saved.id,
        operation: "charge",
        status: "pending",
        amount_cents: saved.amount_cents,
        currency: "BRL",
        idempotency_key: key,
        gateway_provider: "mercado_pago",
    }
}

/// A charge as it is sent to the provider.
#[derive(Debug, Clone)]
pub struct ChargeRequest {
    pub payment_id: i64,
    pub amount_cents: i64,
    pub currency: String,
    pub idempotency_key: String,
    pub provider_token: String,
    pub external_reference: String,
    pub payer_email: String,
    pub payer_tax_id: Option<String>,
    pub payment_method_id: String,
    pub issuer_id: Option<String>,
    pub installments: i32,
}

/// The charge of attempt `key` for a purchase: the payment's amount in
/// reais, keyed by the attempt, referenced as `torg-{purchase}-{key}`, paid
/// with the card given, by the purchase's customer (no e-mail becomes an
/// empty one).
pub fn charge_request(
    purchase_id: i64,
    saved: &PaymentRecord,
    key: String,
    card: SubmitCard,
    payer_email: Option<String>,
    payer_tax_id: Option<String>,
) -> (r: ChargeRequest)
    ensures
        r.payment_id == saved.id,
        r.amount_cents == saved.amount_cents,
        r.currency@ == "BRL"@,
        r.idempotency_key == key,
        r.provider_token == card.token,
        r.external_reference@ == torg_reference(purchase_id as int, key@),
        r.payer_email@ == match payer_email {
            Some(e) => e@,
            None => Seq::<char>::empty(),
        },
        r.payer_tax_id == payer_tax_id,
        r.payment_method_id == card.payment_method_id,
        r.issuer_id == card.issuer_id,
        r.installments == card.installments,
{
    let external = external_reference(purchase_id, key.as_str());
    ChargeRequest {
        payment_id: saved.id,
        amount_cents: saved.amount_cents,
        currency: String::from_str("BRL"),
        idempotency_key: key,
        provider_token: card.token,
        external_reference: external,
        payer_email: match payer_email {
            Some(e) => e,
            None => String::new(),
        },
        payer_tax_id,
        payment_method_id: card.payment_method_id,
        issuer_id: card.issuer_id,
        installments: card.installments,
    }
}

// ------------------------------------------------------------------
// Looking a payment up at the provider
// ------------------------------------------------------------------

/// Where to look a payment up at the provider.
#[derive(Debug, Clone)]
pub enum ProviderLookup {
    /// The payment is settled or waits on the provider: nothing to look up.
    Settled,
    /// By the provider's own reference.
    ByReference(String),
    /// By the charge's external reference.
    ByExternalReference(String),
}

/// A payment whose status can no longer change by looking it up.
pub open spec fn lookup_settled(status: Seq<char>) -> bool {
    status == "captured"@ || status == "failed"@ || status == "pending_provider"@
}

/// How the status endpoint looks a payment up: not at all when it is
/// settled, by its provider reference when it has one, else by the
/// reference of its current attempt.
pub fn status_lookup(purchase_id: i64, payment: &PaymentRecord) -> (r: ProviderLookup)
    ensures
        lookup_settled(payment.status@) ==> r is Settled,
        !lookup_settled(payment.status@) && payment.gateway_reference is Some ==> (r matches ProviderLookup::ByReference(x) && Some(x) == payment.gateway_reference),
        !lookup_settled(payment.status@) && payment.gateway_reference is None ==> (r matches ProviderLookup::ByExternalReference(x) && x@ == torg_reference(purchase_id as int, key_text(payment@.attempt_key))),
{
    let s = payment.status.as_str();
    if str_eq(s, "captured") || str_eq(s, "failed") || str_eq(s, "pending_provider") {
        return ProviderLookup::Settled;
    }
    match &payment.gateway_reference {
        Some(x) => ProviderLookup::ByReference(x.clone()),
        None => {
            let key = match &payment.attempt_key {
                Some(k) => k.clone(),
                None => String::new(),
            };
            ProviderLookup::ByExternalReference(external_reference(purchase_id, key.as_str()))
        },
    }
}

/// A payment the reconciliation pass looks at: pending on a started attempt.
pub fn needs_reconciliation(payment: &PaymentRecord) -> (r: bool)
    ensures
        r == (payment.status@ == "pending"@ && payment.attempt_key is Some),
{
    str_eq(payment.status.as_str(), "pending") && payment.attempt_key.is_some()
}

/// How the reconciliation pass looks a payment up: by its provider
/// reference, else by its attempt's reference, else not at all.
pub fn reconcile_lookup(purchase_id: i64, payment: &PaymentRecord) -> (r: Option<ProviderLookup>)
    ensures
        payment.gateway_reference is Some ==> (r matches Some(ProviderLookup::ByReference(x)) && Some(x) == payment.gateway_reference),
        payment.gateway_reference is None && payment.attempt_key is Some ==> (r matches Some(ProviderLookup::ByExternalReference(x)) && x@ == torg_reference(purchase_id as int, key_text(payment@.attempt_key))),
        payment.gateway_reference is None && payment.attempt_key is None ==> r is None,
{
    match &payment.gateway_reference {
        Some(x) => Some(ProviderLookup::ByReference(x.clone())),
        None => match &payment.attempt_key {
            Some(k) => Some(ProviderLookup::ByExternalReference(external_reference(purchase_id, k.as_str()))),
            None => None,
        },
    }
}

// ------------------------------------------------------------------
// Reading a provider reference back
// ------------------------------------------------------------------

/// The purchase a provider reference names: the integer between `torg-`
/// and the next `-`.
pub open spec fn reference_purchase_id(reference: Seq<char>) -> Option<int> {
    if "torg-"@.is_prefix_of(reference) && reference.skip(5).contains('-') {
        parse_in_range(before_char(reference.skip(5), '-'), i64::MIN as int, i64::MAX as int)
    } else {
        None
    }
}

/// Reads the purchase id out of a charge's provider reference.
pub fn purchase_id_from_reference(reference: &str) -> (r: Option<i64>)
    ensures
        match r {
            Some(id) => reference_purchase_id(reference@) == Some(id as int),
            None => reference_purchase_id(reference@) is None,
        },
{
    proof {
        reveal_strlit("torg-");
    }
    if !starts_with(reference, "torg-") {
        return None;
    }
    let v = chars_of(reference);
    let i = find_char(&v, 5, '-');
    if i >= v.len() {
        return None;
    }
    let id_text = string_of(&v, 5, i);
    parse_i64(id_text.as_str())
}

/// The reference of a charge reads back as its purchase, for every
/// purchase id that is not negative and every attempt key.
pub proof fn charge_reference_names_its_purchase(purchase_id: int, key: Seq<char>)
    requires
        0 <= purchase_id <= i64::MAX,
    ensures
        reference_purchase_id(torg_reference(purchase_id, key)) == Some(purchase_id),
{
    reveal_strlit("torg-");
    reveal_strlit("-");
    let digits = decimal(purchase_id as nat);
    lemma_decimal_digits(purchase_id as nat);
    decimal_text_reads_back(purchase_id);
    let r = torg_reference(purchase_id, key);
    assert("torg-"@.is_prefix_of(r)) by {
        assert(r.take(5) =~= "torg-"@);
    }
    let rest = r.skip(5);
    assert(rest =~= digits + "-"@ + key);
    let n = digits.len() as int;
    assert(rest[n] == '-');
    assert forall|j: int| 0 <= j < n implies rest[j] != '-' by {
        assert(rest[j] == digits[j]);
        assert(is_ascii_digit(digits[j]));
    }
    lemma_before_char(rest, '-', n);
    assert(rest.subrange(0, n) =~= digits);
    assert(rest.contains('-'));
}

// ------------------------------------------------------------------
// Provider notifications
// ------------------------------------------------------------------

/// The HMAC-SHA256 tag of `message` under `key`, both taken as their UTF-8
/// bytes.
pub uninterp spec fn hmac_sha256(key: Seq<char>, message: Seq<char>) -> Seq<u8>;

/// `Hmac::<Sha256>::new_from_slice`, `update` and `verify_slice` of the
/// `hmac` crate: whether `tag` is the 32-byte HMAC-SHA256 tag of `message`
/// under `key`. The tag itself is named, not computed here; building the MAC
/// never fails for a key of any length.
#[verifier::external_body]
fn hmac_sha256_verifies(key: &str, message: &str, tag: &Vec<u8>) -> (r: bool)
    ensures
        r == (tag@.len() == 32 && tag@ == hmac_sha256(key@, message@)),
{
    match Hmac::<Sha256>::new_from_slice(key.as_bytes()) {
        Ok(mut mac) => {
            mac.update(message.as_bytes());
            mac.verify_slice(tag.as_slice()).is_ok()
        },
        Err(_) => false,
    }
}

/// The value of `key` in one comma-separated part of a signature header:
/// the part, trimmed, is `key=value`.
pub open spec fn field_in(part: Seq<char>, key: Seq<char>) -> Option<Seq<char>> {
    let t = trim(part);
    if t.contains('=') && before_char(t, '=') == key {
        Some(after_char(t, '='))
    } else {
        None
    }
}

/// The value of `key` in the last of `parts` that gives it one.
pub open spec fn last_field(parts: Seq<Seq<char>>, key: Seq<char>) -> Option<Seq<char>>
    decreases parts.len(),
{
    if parts.len() == 0 {
        None
    } else {
        match field_in(parts.last(), key) {
            Some(v) => Some(v),
            None => last_field(parts.drop_last(), key),
        }
    }
}

/// The value of `key` in a signature header such as `ts=...,v1=...`; when
/// the key appears more than once, the last one counts.
pub open spec fn signature_field(signature: Seq<char>, key: Seq<char>) -> Option<Seq<char>> {
    last_field(split_on(signature, ','), key)
}

/// The text a notification signature is computed over.
pub open spec fn signature_manifest(data_id: Seq<char>, request_id: Seq<char>, ts: Seq<char>) -> Seq<char> {
    "id:"@ + data_id + ";request-id:"@ + request_id + ";ts:"@ + ts + ";"@
}

/// A notification signature holds: its header has a `ts` and a `v1`, and
/// `v1`, read as hexadecimal, is the HMAC-SHA256 tag of the manifest under
/// the secret.
pub open spec fn signature_accepted(secret: Seq<char>, signature: Seq<char>, request_id: Seq<char>, data_id: Seq<char>) -> bool {
    match (signature_field(signature, "ts"@), signature_field(signature, "v1"@)) {
        (Some(ts), Some(v1)) => match hex_bytes(v1) {
            Some(tag) => tag.len() == 32 && tag == hmac_sha256(
                secret,
                signature_manifest(data_id, request_id, ts),
            ),
            None => false,
        },
        _ => false,
    }
}

fn field_value(part: &str, key: &str) -> (r: Option<String>)
    ensures
        text_view(r) == field_in(part@, key@),
{
    let t = trim_str(part);
    match split_once_char(t.as_str(), '=') {
        Some((a, b)) => {
            if str_eq(a.as_str(), key) {
                Some(b)
            } else {
                None
            }
        },
        None => None,
    }
}

/// The `ts` and `v1` values of a signature header.
fn signature_fields(signature: &str) -> (r: (Option<String>, Option<String>))
    ensures
        text_view(r.0) == signature_field(signature@, "ts"@),
        text_view(r.1) == signature_field(signature@, "v1"@),
{
    let v = chars_of(signature);
    let mut ts: Option<String> = None;
    let mut v1: Option<String> = None;
    let mut cur = String::new();
    let mut i: usize = 0;
    proof {
        assert(v@.take(0) =~= Seq::<char>::empty());
    }
    while i < v.len()
        invariant
            v@ == signature@,
            i <= v@.len(),
            split_on(v@.take(i as int), ',').len() >= 1,
            cur@ == split_on(v@.take(i as int), ',').last(),
            text_view(ts) == last_field(split_on(v@.take(i as int), ',').drop_last(), "ts"@),
            text_view(v1) == last_field(split_on(v@.take(i as int), ',').drop_last(), "v1"@),
        decreases v@.len() - i,
    {
        let c = v[i];
        let ghost prev = split_on(v@.take(i as int), ',');
        proof {
            assert(v@.take(i + 1).drop_last() =~= v@.take(i as int));
            assert(v@.take(i + 1).last() == c);
        }
        if c == ',' {
            match field_value(cur.as_str(), "ts") {
                Some(x) => {
                    ts = Some(x);
                },
                None => {},
            }
            match field_value(cur.as_str(), "v1") {
                Some(x) => {
                    v1 = Some(x);
                },
                None => {},
            }
            cur = String::new();
            proof {
                let next = split_on(v@.take(i + 1), ',');
                assert(next == prev.push(Seq::<char>::empty()));
                assert(next.drop_last() =~= prev);
                assert(prev.drop_last() =~= prev.drop_last());
            }
        } else {
            push_char(&mut cur, c);
            proof {
                let next = split_on(v@.take(i + 1), ',');
                assert(next == prev.update(prev.len() - 1, prev.last().push(c)));
                assert(next.drop_last() =~= prev.drop_last());
            }
        }
        i = i + 1;
    }
    proof {
        assert(v@.take(v@.len() as int) =~= v@);
    }
    match field_value(cur.as_str(), "ts") {
        Some(x) => {
            ts = Some(x);
        },
        None => {},
    }
    match field_value(cur.as_str(), "v1") {
        Some(x) => {
            v1 = Some(x);
        },
        None => {},
    }
    (ts, v1)
}

/// Builds the manifest a notification signature is computed over.
fn manifest_of(data_id: &str, request_id: &str, ts: &str) -> (r: String)
    ensures
        r@ == signature_manifest(data_id@, request_id@, ts@),
{
    let mut m = String::from_str("id:");
    m.append(data_id);
    m.append(";request-id:");
    m.append(request_id);
    m.append(";ts:");
    m.append(ts);
    m.append(";");
    m
}

/// Checks the signature of a provider notification against the shared
/// secret.
pub fn verify_signature(secret: &str, signature: &str, request_id: &str, data_id: &str) -> (r: Result<
    (),
    &'static str,
>)
    ensures
        r is Ok <==> signature_accepted(secret@, signature@, request_id@, data_id@),
        r matches Err(m) ==> m@ == "Assinatura inválida"@,
{
    let (ts, v1) = signature_fields(signature);
    let ts = match ts {
        Some(t) => t,
        None => {
            return Err("Assinatura inválida");
        },
    };
    let expected = match v1 {
        Some(x) => x,
        None => {
            return Err("Assinatura inválida");
        },
    };
    let bytes = match decode_hex(expected.as_str()) {
        Some(b) => b,
        None => {
            return Err("Assinatura inválida");
        },
    };
    let manifest = manifest_of(data_id, request_id, ts.as_str());
    if !hmac_sha256_verifies(secret, manifest.as_str(), &bytes) {
        return Err("Assinatura inválida");
    }
    Ok(())
}

/// The ids a notification body carries, as read from its JSON: `data.id`
/// and `id`, each a string, an integer or something else.
#[derive(Debug, Clone)]
pub struct NotificationBody {
    pub data_id: Option<ProviderId>,
    pub id: Option<ProviderId>,
}

/// The text of an id in a notification body, when it is a string or an
/// integer.
pub open spec fn body_id_text(id: Option<ProviderId>) -> Option<Seq<char>> {
    match id {
        Some(x) => reference_of(x),
        None => None,
    }
}

/// The payment a notification names: the `data.id` query parameter, else
/// the `id` parameter, else (when the body was read) its `data.id`, else its
/// `id`.
pub open spec fn notification_id(query: NotificationQuery, body: Option<NotificationBody>) -> Option<Seq<char>> {
    if query.data_id is Some {
        text_view(query.data_id)
    } else if query.id is Some {
        text_view(query.id)
    } else {
        match body {
            Some(b) => if body_id_text(b.data_id) is Some {
                body_id_text(b.data_id)
            } else {
                body_id_text(b.id)
            },
            None => None,
        }
    }
}

fn body_id(id: Option<ProviderId>) -> (r: Option<String>)
    ensures
        text_view(r) == body_id_text(id),
{
    match id {
        Some(ProviderId::Text(s)) => Some(s),
        Some(ProviderId::Integer(n)) => Some(i64_to_decimal(n)),
        _ => None,
    }
}

/// The payment id of a notification: it must be given and be made of ASCII
/// digits only. `body` is the notification body as read, or `None` when it
/// was empty or not JSON.
pub fn notification_payment_id(query: NotificationQuery, body: Option<NotificationBody>) -> (r: Result<String, PaymentRefusal>)
    ensures
        match notification_id(query, body) {
            None => r == Err::<String, PaymentRefusal>(PaymentRefusal::PaymentIdMissing),
            Some(id) => if all_digits(id) {
                r matches Ok(x) && x@ == id
            } else {
                r == Err::<String, PaymentRefusal>(PaymentRefusal::PaymentIdInvalid)
            },
        },
{
    let id = if query.data_id.is_some() {
        query.data_id
    } else if query.id.is_some() {
        query.id
    } else {
        match body {
            Some(b) => {
                let first = body_id(b.data_id);
                if first.is_some() {
                    first
                } else {
                    body_id(b.id)
                }
            },
            None => None,
        }
    };
    let id = match id {
        Some(x) => x,
        None => {
            return Err(PaymentRefusal::PaymentIdMissing);
        },
    };
    let v = chars_of(id.as_str());
    let mut i: usize = 0;
    while i < v.len()
        invariant
            v@ == id@,
            notification_id(query, body) == Some(id@),
            i <= v@.len(),
            forall|k: int| 0 <= k < i ==> is_ascii_digit(#[trigger] v@[k]),
        decreases v@.len() - i,
    {
        if !('0' <= v[i] && v[i] <= '9') {
            assert(!is_ascii_digit(id@[i as int]));
            assert(!all_digits(id@));
            return Err(PaymentRefusal::PaymentIdInvalid);
        }
        i = i + 1;
    }
    Ok(id)
}

/// Checks a provider notification before anything is looked up: the
/// webhook secret must be configured, the `x-signature` and `x-request-id`
/// headers given, the payment id valid and the signature right. Gives the
/// payment id to look up.
pub fn check_notification(
    secret: Option<String>,
    signature: Option<String>,
    request_id: Option<String>,
    query: NotificationQuery,
    body: Option<NotificationBody>,
) -> (r: Result<String, PaymentRefusal>)
    ensures
        secret is None ==> r == Err::<String, PaymentRefusal>(PaymentRefusal::Unavailable),
        secret is Some && signature is None ==> r == Err::<String, PaymentRefusal>(
            PaymentRefusal::SignatureMissing,
        ),
        secret is Some && signature is Some && request_id is None ==> r == Err::<
            String,
            PaymentRefusal,
        >(PaymentRefusal::RequestIdMissing),
        secret is Some && signature is Some && request_id is Some ==> match notification_id(query, body) {
            None => r == Err::<String, PaymentRefusal>(PaymentRefusal::PaymentIdMissing),
            Some(id) => if !all_digits(id) {
                r == Err::<String, PaymentRefusal>(PaymentRefusal::PaymentIdInvalid)
            } else if signature_accepted(secret->0@, signature->0@, request_id->0@, id) {
                r matches Ok(x) && x@ == id
            } else {
                r == Err::<String, PaymentRefusal>(PaymentRefusal::SignatureInvalid)
            },
        },
{
    let secret = match secret {
        Some(s) => s,
        None => {
            return Err(PaymentRefusal::Unavailable);
        },
    };
    let signature = match signature {
        Some(s) => s,
        None => {
            return Err(PaymentRefusal::SignatureMissing);
        },
    };
    let request_id = match request_id {
        Some(s) => s,
        None => {
            return Err(PaymentRefusal::RequestIdMissing);
        },
    };
    let id = notification_payment_id(query, body)?;
    match verify_signature(secret.as_str(), signature.as_str(), request_id.as_str(), id.as_str()) {
        Ok(()) => Ok(id),
        Err(_) => Err(PaymentRefusal::SignatureInvalid),
    }
}

/// A settlement follows what the provider reports: only a captured or failed
/// payment settles; purchase and orders are marked paid (and coupon
/// reservations redeemed) exactly when the payment was captured, and marked
/// `payment_failed` with the reservations released when it failed.
pub proof fn settlements_follow_the_answer(st: Settlement, s: ProviderStatus, reference: Seq<char>)
    requires
        is_settlement(Some(st), s, reference),
    ensures
        s == ProviderStatus::Captured || s == ProviderStatus::Failed,
        (st.order_status@ == "paid"@) == (s == ProviderStatus::Captured),
        (st.purchase_status@ == "paid"@) == (s == ProviderStatus::Captured),
        st.redeem_coupons == (s == ProviderStatus::Captured),
        s == ProviderStatus::Captured ==> st.reservation_status@ == "redeemed"@,
        s == ProviderStatus::Failed ==> {
            &&& st.order_status@ == "payment_failed"@
            &&& st.purchase_status@ == "payment_failed"@
            &&& st.reservation_status@ == "released"@
        },
        st.order_payment_status@ == status_name(s),
{
    reveal_strlit("paid");
    reveal_strlit("payment_failed");
    assert("payment_failed"@.len() != "paid"@.len());
    assert("payment_failed"@ != "paid"@);
}

/// An answer that the payment is authorized or still pending settles
/// nothing; a captured or failed one always settles.
pub proof fn only_final_answers_settle(s: ProviderStatus, reference: Seq<char>)
    ensures
        is_settlement(None, s, reference) <==> (s == ProviderStatus::Authorized || s == ProviderStatus::Pending),
{
}

} // verus!
