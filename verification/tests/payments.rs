use hmac::{Hmac, Mac};
use kremlin::commons::exception_response::PurchaseError;
use kremlin::domain::Role;
use kremlin::endpoints::checkout_payment_endpoint::{
    begin_attempt, submit_precheck_now,
    charge_request, charge_transaction, check_notification, decide_result, external_reference,
    has_attempt_in_progress, needs_reconciliation, notification_payment_id, payment_config,
    payment_state, purchase_id_from_reference, purchase_lookup_refusal, reconcile_lookup,
    require_customer, require_quote, start_attempt, status_lookup, submit_precheck, validate_card,
    validate_provider, verify_signature, NotificationBody, NotificationQuery, PaymentRecord,
    PaymentRefusal, ProviderLookup, ResultDecision, SubmitCard,
};
use kremlin::infrastructure::mercado_pago::{
    charge_description, normalized_response, payment_url, provider_settings, provider_status,
    search_outcome, CardHolder, CardResponse, PaymentResponse, ProviderError, ProviderId,
    ProviderCardMetadata, ProviderResult, ProviderStatus,
};
use sha2::Sha256;

fn response(id: ProviderId, status: &str, amount: Option<i64>) -> PaymentResponse {
    PaymentResponse {
        id,
        status: status.to_string(),
        amount_cents: amount,
        currency_id: "BRL".to_string(),
        external_reference: Some("torg-7-key".to_string()),
        collector_id: 99,
        payment_type_id: "credit_card".to_string(),
        payment_method_id: Some("visa".to_string()),
        card: None,
    }
}

fn record(status: &str, reference: Option<&str>, key: Option<&str>) -> PaymentRecord {
    PaymentRecord {
        id: 5,
        status: status.to_string(),
        amount_cents: 1500,
        installments: 1,
        gateway_provider: None,
        gateway_reference: reference.map(|r| r.to_string()),
        attempt_key: key.map(|k| k.to_string()),
        attempt_error: Some("earlier failure".to_string()),
    }
}

fn result(status: ProviderStatus, reference: &str) -> ProviderResult {
    ProviderResult {
        reference: reference.to_string(),
        status,
        amount_cents: 1500,
        currency: "BRL".to_string(),
        external_reference: "torg-7-key".to_string(),
        collector_id: 99,
        payment_type_id: "credit_card".to_string(),
        card: None,
    }
}

fn hex(bytes: &[u8]) -> String {
    let digits = b"0123456789abcdef";
    let mut s = String::new();
    for b in bytes {
        s.push(digits[(b >> 4) as usize] as char);
        s.push(digits[(b & 15) as usize] as char);
    }
    s
}

fn tag(secret: &str, manifest: &str) -> Vec<u8> {
    let mut mac = Hmac::<Sha256>::new_from_slice(secret.as_bytes()).unwrap();
    mac.update(manifest.as_bytes());
    mac.finalize().into_bytes().to_vec()
}

#[test]
fn provider_status_names_are_read() {
    assert_eq!(provider_status("approved"), ProviderStatus::Captured);
    assert_eq!(provider_status("authorized"), ProviderStatus::Authorized);
    for failed in ["rejected", "cancelled", "refunded", "charged_back"] {
        assert_eq!(provider_status(failed), ProviderStatus::Failed);
    }
    for pending in ["in_process", "pending", "Approved", ""] {
        assert_eq!(provider_status(pending), ProviderStatus::Pending);
    }
}

#[test]
fn provider_payment_is_read_with_integer_or_text_id() {
    let mut r = response(ProviderId::Integer(-42), "approved", Some(1500));
    r.card = Some(CardResponse {
        last_four_digits: Some("4242".to_string()),
        expiration_month: Some(12),
        expiration_year: Some(2030),
        cardholder: Some(CardHolder { name: Some("Ana".to_string()) }),
    });
    let p = normalized_response(r).unwrap();
    assert_eq!(p.reference, "-42");
    assert_eq!(p.status, ProviderStatus::Captured);
    assert_eq!(p.amount_cents, 1500);
    let card = p.card.unwrap();
    assert_eq!(card.brand.as_deref(), Some("visa"));
    assert_eq!(card.cardholder_name.as_deref(), Some("Ana"));
    assert_eq!(card.last_four_digits.as_deref(), Some("4242"));

    let mut t = response(ProviderId::Text("123".to_string()), "rejected", Some(0));
    t.external_reference = None;
    let p = normalized_response(t).unwrap();
    assert_eq!(p.reference, "123");
    assert_eq!(p.external_reference, "");
    assert_eq!(p.status, ProviderStatus::Failed);
}

#[test]
fn provider_payment_without_id_or_amount_is_refused() {
    let e = normalized_response(response(ProviderId::Other, "approved", Some(1))).err().unwrap();
    assert_eq!(e.0, "invalid provider reference");
    let e = normalized_response(response(ProviderId::Integer(1), "approved", None)).err().unwrap();
    assert_eq!(e.0, "invalid provider amount");
    let e = normalized_response(response(ProviderId::Other, "approved", None)).err().unwrap();
    assert_eq!(e.0, "invalid provider reference");
}

#[test]
fn search_outcome_counts_rows() {
    assert!(matches!(search_outcome(vec![]), Ok(None)));
    let one = search_outcome(vec![Ok(response(ProviderId::Integer(8), "pending", Some(3)))]).unwrap().unwrap();
    assert_eq!(one.reference, "8");
    let two = search_outcome(vec![
        Ok(response(ProviderId::Integer(8), "pending", Some(3))),
        Ok(response(ProviderId::Integer(9), "pending", Some(3))),
    ]);
    assert_eq!(two.err().unwrap().0, "ambiguous provider payments");
    let bad = search_outcome(vec![Err(ProviderError("bad row".to_string()))]);
    assert_eq!(bad.err().unwrap().0, "bad row");
}

#[test]
fn provider_settings_need_token_and_collector() {
    let s = provider_settings(Some("tok".to_string()), Some("+77".to_string())).unwrap();
    assert_eq!(s.access_token, "tok");
    assert_eq!(s.collector_id, 77);
    for (t, c) in [
        (None, Some("1")),
        (Some("tok"), None),
        (Some("tok"), Some("x1")),
        (Some(""), Some("1")),
        (Some("tok"), Some("9223372036854775808")),
    ] {
        let e = provider_settings(t.map(|x| x.to_string()), c.map(|x| x.to_string())).err().unwrap();
        assert_eq!(e.0, "Mercado Pago não configurado");
    }
}

#[test]
fn payment_url_needs_a_numeric_reference() {
    assert_eq!(payment_url("123").unwrap(), "https://api.mercadopago.com/v1/payments/123");
    assert_eq!(payment_url("").unwrap(), "https://api.mercadopago.com/v1/payments/");
    assert_eq!(payment_url("12a").err().unwrap().0, "invalid provider reference");
    assert_eq!(payment_url("١٢").err().unwrap().0, "invalid provider reference");
    assert_eq!(charge_description("torg-1-k"), "Compra Torg torg-1-k");
}

#[test]
fn refusals_have_status_and_message() {
    assert_eq!(PaymentRefusal::AccessDenied.status_code(), 403);
    assert_eq!(PaymentRefusal::AccessDenied.message(), "Acesso negado");
    assert_eq!(PaymentRefusal::Unavailable.status_code(), 503);
    assert_eq!(
        PaymentRefusal::Unavailable.message(),
        "Pagamento indisponível. Verifique a configuração do Mercado Pago."
    );
    assert_eq!(PaymentRefusal::InconsistentProvider.status_code(), 502);
    assert_eq!(PaymentRefusal::ReferenceMismatch.status_code(), 409);
    assert_eq!(PaymentRefusal::SignatureInvalid.message(), "Assinatura inválida");
    assert_eq!(PaymentRefusal::Expired.message(), "Prazo para pagamento expirado. Faça um novo orçamento.");
}

#[test]
fn only_customers_pay_and_see_the_public_key() {
    assert!(require_customer(Role::Customer).is_ok());
    assert_eq!(require_customer(Role::TenantOwner), Err(PaymentRefusal::AccessDenied));
    let c = payment_config(Role::Customer, true, Some("pk".to_string())).unwrap();
    assert_eq!(c.public_key, "pk");
    assert_eq!(payment_config(Role::SysAdmin, true, Some("pk".to_string())).err(), Some(PaymentRefusal::AccessDenied));
    assert_eq!(payment_config(Role::Customer, false, Some("pk".to_string())).err(), Some(PaymentRefusal::Unavailable));
    assert_eq!(payment_config(Role::Customer, true, Some(String::new())).err(), Some(PaymentRefusal::Unavailable));
    assert_eq!(payment_config(Role::Customer, true, None).err(), Some(PaymentRefusal::Unavailable));
}

#[test]
fn purchase_lookup_failures_are_mapped() {
    assert_eq!(purchase_lookup_refusal(&PurchaseError::NotFound), PaymentRefusal::PurchaseNotFound);
    assert_eq!(purchase_lookup_refusal(&PurchaseError::Forbidden), PaymentRefusal::PurchaseNotFound);
    assert_eq!(purchase_lookup_refusal(&PurchaseError::Conflict), PaymentRefusal::PurchaseLookupFailed);
    assert_eq!(
        purchase_lookup_refusal(&PurchaseError::Persistence("db".to_string())),
        PaymentRefusal::PurchaseLookupFailed
    );
}

#[test]
fn provider_answer_must_match_the_charge() {
    let p = record("pending", None, Some("key"));
    assert!(validate_provider(&result(ProviderStatus::Captured, "1"), 7, &p, 99).is_ok());
    let mut wrong = result(ProviderStatus::Captured, "1");
    wrong.amount_cents = 1499;
    assert_eq!(validate_provider(&wrong, 7, &p, 99), Err(PaymentRefusal::InconsistentProvider));
    assert_eq!(
        validate_provider(&result(ProviderStatus::Captured, "1"), 8, &p, 99),
        Err(PaymentRefusal::InconsistentProvider)
    );
    assert_eq!(
        validate_provider(&result(ProviderStatus::Captured, "1"), 7, &p, 98),
        Err(PaymentRefusal::InconsistentProvider)
    );
    let mut usd = result(ProviderStatus::Captured, "1");
    usd.currency = "USD".to_string();
    assert_eq!(validate_provider(&usd, 7, &p, 99), Err(PaymentRefusal::InconsistentProvider));
    let mut pix = result(ProviderStatus::Captured, "1");
    pix.payment_type_id = "pix".to_string();
    assert_eq!(validate_provider(&pix, 7, &p, 99), Err(PaymentRefusal::InconsistentProvider));
    let mut keyless = result(ProviderStatus::Captured, "1");
    keyless.external_reference = "torg-7-".to_string();
    assert!(validate_provider(&keyless, 7, &record("pending", None, None), 99).is_ok());
}

#[test]
fn captured_payment_is_kept_whatever_the_provider_says() {
    for s in [ProviderStatus::Failed, ProviderStatus::Pending, ProviderStatus::Captured] {
        let d = decide_result(record("captured", Some("1"), Some("key")), &result(s, "2")).unwrap();
        assert!(matches!(d, ResultDecision::Keep));
    }
}

#[test]
fn failed_payment_moves_only_to_captured() {
    let d = decide_result(record("failed", None, Some("key")), &result(ProviderStatus::Pending, "1")).unwrap();
    assert!(matches!(d, ResultDecision::Keep));
    match decide_result(record("failed", None, Some("key")), &result(ProviderStatus::Captured, "31")).unwrap() {
        ResultDecision::Record { payment, transaction_key, settlement, card } => {
            assert!(card.is_none());
            assert_eq!(payment.status, "captured");
            assert_eq!(payment.gateway_reference.as_deref(), Some("31"));
            assert_eq!(payment.gateway_provider.as_deref(), Some("mercado_pago"));
            assert_eq!(payment.attempt_error, None);
            assert_eq!(transaction_key, "key");
            let s = settlement.unwrap();
            assert_eq!(s.purchase_status, "paid");
            assert_eq!(s.order_status, "paid");
            assert_eq!(s.order_payment_status, "captured");
            assert_eq!(s.reservation_status, "redeemed");
            assert_eq!(s.history_from_status, "pending_payment");
            assert_eq!(s.history_actor_type, "payment_gateway");
            assert_eq!(s.history_note, "mercado_pago:31");
            assert!(s.redeem_coupons);
        }
        ResultDecision::Keep => panic!("a captured answer moves a failed payment"),
    }
}

#[test]
fn failure_releases_and_pending_settles_nothing() {
    match decide_result(record("pending", None, None), &result(ProviderStatus::Failed, "4")).unwrap() {
        ResultDecision::Record { payment, transaction_key, settlement, .. } => {
            assert_eq!(payment.status, "failed");
            assert_eq!(transaction_key, "");
            let s = settlement.unwrap();
            assert_eq!(s.purchase_status, "payment_failed");
            assert_eq!(s.reservation_status, "released");
            assert!(!s.redeem_coupons);
        }
        ResultDecision::Keep => panic!("a failure is recorded"),
    }
    match decide_result(record("pending", Some("4"), Some("k")), &result(ProviderStatus::Authorized, "4")).unwrap() {
        ResultDecision::Record { payment, settlement, .. } => {
            assert_eq!(payment.status, "authorized");
            assert!(settlement.is_none());
        }
        ResultDecision::Keep => panic!("an authorization is recorded"),
    }
}

#[test]
fn another_provider_reference_is_a_conflict() {
    let d = decide_result(record("pending", Some("1"), Some("k")), &result(ProviderStatus::Captured, "2"));
    assert_eq!(d.err(), Some(PaymentRefusal::ReferenceMismatch));
}

#[test]
fn recording_the_same_answer_twice_is_recording_it_once() {
    let answer = result(ProviderStatus::Authorized, "77");
    let first = match decide_result(record("pending", None, Some("k")), &answer).unwrap() {
        ResultDecision::Record { payment, .. } => payment,
        ResultDecision::Keep => panic!("recorded"),
    };
    let second = match decide_result(first.clone(), &answer).unwrap() {
        ResultDecision::Record { payment, .. } => payment,
        ResultDecision::Keep => panic!("recorded again"),
    };
    assert_eq!(second.status, first.status);
    assert_eq!(second.gateway_reference, first.gateway_reference);
    assert_eq!(second.attempt_key, first.attempt_key);
    assert_eq!(second.attempt_error, first.attempt_error);
}

#[test]
fn charge_reference_reads_back_as_its_purchase() {
    let r = external_reference(1234, "a1b2-c3");
    assert_eq!(r, "torg-1234-a1b2-c3");
    assert_eq!(purchase_id_from_reference(&r), Some(1234));
    assert_eq!(purchase_id_from_reference("torg-0-"), Some(0));
    assert_eq!(purchase_id_from_reference("torg-12"), None);
    assert_eq!(purchase_id_from_reference("torg-x-1"), None);
    assert_eq!(purchase_id_from_reference("order-12-k"), None);
    assert_eq!(purchase_id_from_reference("torg--5-k"), None);
    assert_eq!(purchase_id_from_reference("torg-+5-k"), Some(5));
}

#[test]
fn card_data_is_checked() {
    let card = |token: &str, method: &str, installments: i32| SubmitCard {
        token: token.to_string(),
        payment_method_id: method.to_string(),
        issuer_id: None,
        installments,
    };
    assert!(validate_card(&card("tok", "visa", 1)).is_ok());
    assert!(validate_card(&card("tok", "master_2", 24)).is_ok());
    assert!(validate_card(&card(&"a".repeat(512), "visa", 3)).is_ok());
    assert_eq!(validate_card(&card(&"a".repeat(513), "visa", 3)), Err(PaymentRefusal::InvalidCard));
    assert_eq!(validate_card(&card(&"é".repeat(257), "visa", 3)), Err(PaymentRefusal::InvalidCard));
    assert!(validate_card(&card(&"é".repeat(256), "visa", 3)).is_ok());
    assert_eq!(validate_card(&card("", "visa", 1)), Err(PaymentRefusal::InvalidCard));
    assert_eq!(validate_card(&card("tok", "", 1)), Err(PaymentRefusal::InvalidCard));
    assert_eq!(validate_card(&card("tok", "Visa", 1)), Err(PaymentRefusal::InvalidCard));
    assert_eq!(validate_card(&card("tok", "vi-sa", 1)), Err(PaymentRefusal::InvalidCard));
    assert_eq!(validate_card(&card("tok", "visa", 0)), Err(PaymentRefusal::InvalidCard));
    assert_eq!(validate_card(&card("tok", "visa", 25)), Err(PaymentRefusal::InvalidCard));
}

#[test]
fn free_purchase_and_closed_window_are_decided_before_charging() {
    let p = record("pending_provider", None, None);
    let free = submit_precheck(7, 0, 0, 10_000_000_000, &p).unwrap().unwrap();
    assert_eq!(free.purchase_id, 7);
    assert_eq!(free.status, "pending_provider");
    assert_eq!(submit_precheck(7, 100, 0, 900_000_000, &p).err(), Some(PaymentRefusal::Expired));
    assert!(matches!(submit_precheck(7, 100, 0, 899_999_999, &p), Ok(None)));
    let started = record("failed", None, Some("k"));
    assert!(matches!(submit_precheck(7, 100, 0, 10_000_000_000, &started), Ok(None)));
    assert!(matches!(submit_precheck(7, 100, i64::MAX, i64::MIN, &p), Ok(None)));
    assert_eq!(require_quote(false), Err(PaymentRefusal::QuoteMissing));
    assert!(require_quote(true).is_ok());
}

#[test]
fn new_attempt_only_when_none_is_under_way() {
    for s in ["captured", "authorized", "pending"] {
        assert!(has_attempt_in_progress(&record(s, None, None)));
    }
    assert!(has_attempt_in_progress(&record("pending_provider", None, Some("k"))));
    assert!(!has_attempt_in_progress(&record("pending_provider", None, None)));
    assert!(!has_attempt_in_progress(&record("failed", None, Some("k"))));
    let started = start_attempt(record("failed", Some("9"), None), "new-key".to_string(), 3);
    assert_eq!(started.status, "pending");
    assert_eq!(started.attempt_key.as_deref(), Some("new-key"));
    assert_eq!(started.gateway_reference, None);
    assert_eq!(started.gateway_provider.as_deref(), Some("mercado_pago"));
    assert_eq!(started.attempt_error, None);
    assert_eq!(started.installments, 3);
    assert_eq!(started.amount_cents, 1500);
    let t = charge_transaction(&started, "new-key".to_string());
    assert_eq!((t.operation, t.status, t.currency, t.gateway_provider), ("charge", "pending", "BRL", "mercado_pago"));
    assert_eq!(t.amount_cents, 1500);
}

#[test]
fn charge_request_carries_the_attempt() {
    let saved = record("pending", None, Some("k1"));
    let card = SubmitCard {
        token: "tok".to_string(),
        payment_method_id: "visa".to_string(),
        issuer_id: Some("25".to_string()),
        installments: 2,
    };
    let c = charge_request(7, &saved, "k1".to_string(), card, None, Some("52998224725".to_string()));
    assert_eq!(c.external_reference, "torg-7-k1");
    assert_eq!(c.currency, "BRL");
    assert_eq!(c.payer_email, "");
    assert_eq!(c.idempotency_key, "k1");
    assert_eq!(c.issuer_id.as_deref(), Some("25"));
    assert_eq!(c.amount_cents, 1500);
}

#[test]
fn lookups_follow_the_payment() {
    assert!(matches!(status_lookup(7, &record("captured", Some("1"), None)), ProviderLookup::Settled));
    assert!(matches!(status_lookup(7, &record("pending_provider", None, None)), ProviderLookup::Settled));
    match status_lookup(7, &record("pending", Some("55"), Some("k"))) {
        ProviderLookup::ByReference(r) => assert_eq!(r, "55"),
        _ => panic!("by reference"),
    }
    match status_lookup(7, &record("pending", None, None)) {
        ProviderLookup::ByExternalReference(r) => assert_eq!(r, "torg-7-"),
        _ => panic!("by external reference"),
    }
    assert!(reconcile_lookup(7, &record("pending", None, None)).is_none());
    match reconcile_lookup(7, &record("pending", None, Some("k"))) {
        Some(ProviderLookup::ByExternalReference(r)) => assert_eq!(r, "torg-7-k"),
        _ => panic!("by external reference"),
    }
    assert!(needs_reconciliation(&record("pending", None, Some("k"))));
    assert!(!needs_reconciliation(&record("pending", None, None)));
    assert!(!needs_reconciliation(&record("failed", None, Some("k"))));
    let st = payment_state(7, &record("authorized", Some("3"), None));
    assert_eq!((st.purchase_id, st.status.as_str(), st.reference.as_deref()), (7, "authorized", Some("3")));
}

fn query(data_id: Option<&str>, id: Option<&str>) -> NotificationQuery {
    NotificationQuery { data_id: data_id.map(|s| s.to_string()), id: id.map(|s| s.to_string()) }
}

#[test]
fn notification_payment_id_sources_in_order() {
    assert_eq!(notification_payment_id(query(Some("1"), Some("2")), None).unwrap(), "1");
    assert_eq!(notification_payment_id(query(None, Some("2")), None).unwrap(), "2");
    let body = NotificationBody { data_id: Some(ProviderId::Integer(33)), id: Some(ProviderId::Text("44".to_string())) };
    assert_eq!(notification_payment_id(query(None, None), Some(body)).unwrap(), "33");
    let body = NotificationBody { data_id: Some(ProviderId::Other), id: Some(ProviderId::Text("44".to_string())) };
    assert_eq!(notification_payment_id(query(None, None), Some(body)).unwrap(), "44");
    assert_eq!(notification_payment_id(query(None, None), None), Err(PaymentRefusal::PaymentIdMissing));
    assert_eq!(notification_payment_id(query(Some("1a"), None), None), Err(PaymentRefusal::PaymentIdInvalid));
    assert_eq!(notification_payment_id(query(Some(""), None), None).unwrap(), "");
    let negative = NotificationBody { data_id: Some(ProviderId::Integer(-3)), id: None };
    assert_eq!(notification_payment_id(query(None, None), Some(negative)), Err(PaymentRefusal::PaymentIdInvalid));
}

#[test]
fn signature_is_checked_against_the_manifest() {
    let manifest = "id:123;request-id:req-1;ts:1700;";
    let good = hex(&tag("secret", manifest));
    let header = format!("ts=1700,v1={good}");
    assert!(verify_signature("secret", &header, "req-1", "123").is_ok());
    assert_eq!(verify_signature("other", &header, "req-1", "123"), Err("Assinatura inválida"));
    assert_eq!(verify_signature("secret", &header, "req-2", "123"), Err("Assinatura inválida"));
    let spaced = format!(" v1 ={good} , ts=1700 ");
    assert_eq!(verify_signature("secret", &spaced, "req-1", "123"), Err("Assinatura inválida"));
    let spaced = format!(" v1={good} ,  ts=1700 ");
    assert!(verify_signature("secret", &spaced, "req-1", "123").is_ok());
    let last_wins = format!("ts=1,v1=00,ts=1700,v1={good}");
    assert!(verify_signature("secret", &last_wins, "req-1", "123").is_ok());
    let upper = format!("ts=1700,v1={}", good.to_uppercase());
    assert!(verify_signature("secret", &upper, "req-1", "123").is_ok());
    assert_eq!(verify_signature("secret", "v1=00", "req-1", "123"), Err("Assinatura inválida"));
    assert_eq!(verify_signature("secret", "ts=1700", "req-1", "123"), Err("Assinatura inválida"));
    let odd = format!("ts=1700,v1={}0", good);
    assert_eq!(verify_signature("secret", &odd, "req-1", "123"), Err("Assinatura inválida"));
    let short = format!("ts=1700,v1={}", &good[..62]);
    assert_eq!(verify_signature("secret", &short, "req-1", "123"), Err("Assinatura inválida"));
}

#[test]
fn signature_pairs_may_carry_a_plus_sign() {
    let manifest = "id:9;request-id:r;ts:5;";
    let bytes = tag("k", manifest);
    let mut text = String::new();
    for b in &bytes {
        if *b < 16 {
            text.push('+');
            text.push(std::char::from_digit(*b as u32, 16).unwrap());
        } else {
            text.push_str(&hex(&[*b]));
        }
    }
    let header = format!("ts=5,v1={text}");
    assert!(verify_signature("k", &header, "r", "9").is_ok());
}

#[test]
fn notification_checks_come_in_order() {
    let manifest = "id:123;request-id:req-1;ts:1700;";
    let header = format!("ts=1700,v1={}", hex(&tag("secret", manifest)));
    let ok = check_notification(
        Some("secret".to_string()),
        Some(header.clone()),
        Some("req-1".to_string()),
        query(Some("123"), None),
        None,
    );
    assert_eq!(ok.unwrap(), "123");
    assert_eq!(
        check_notification(None, Some(header.clone()), Some("req-1".to_string()), query(Some("123"), None), None),
        Err(PaymentRefusal::Unavailable)
    );
    assert_eq!(
        check_notification(Some("secret".to_string()), None, None, query(None, None), None),
        Err(PaymentRefusal::SignatureMissing)
    );
    assert_eq!(
        check_notification(Some("secret".to_string()), Some(header.clone()), None, query(None, None), None),
        Err(PaymentRefusal::RequestIdMissing)
    );
    assert_eq!(
        check_notification(Some("secret".to_string()), Some(header.clone()), Some("r".to_string()), query(None, None), None),
        Err(PaymentRefusal::PaymentIdMissing)
    );
    assert_eq!(
        check_notification(Some("secret".to_string()), Some(header.clone()), Some("req-1".to_string()), query(Some("124"), None), None),
        Err(PaymentRefusal::SignatureInvalid)
    );
}

#[test]
fn a_begun_attempt_has_a_fresh_uuid_key() {
    let (p, key) = begin_attempt(record("failed", Some("1"), None), 2);
    assert_eq!(key.len(), 36);
    assert!(key.chars().all(|c| c.is_ascii_hexdigit() && !c.is_ascii_uppercase() || c == '-'));
    assert_eq!(p.attempt_key.as_deref(), Some(key.as_str()));
    assert_eq!(p.status, "pending");
    let (_, other) = begin_attempt(record("failed", None, None), 1);
    assert_ne!(key, other);
    let r = external_reference(42, &key);
    assert_eq!(purchase_id_from_reference(&r), Some(42));
    assert!(matches!(submit_precheck_now(1, 100, 0, &record("failed", None, Some("k"))), Ok(None)));
    assert_eq!(submit_precheck_now(1, 100, 0, &record("failed", None, None)).err(), Some(PaymentRefusal::Expired));
    assert!(matches!(submit_precheck_now(1, 0, 0, &record("failed", None, None)), Ok(Some(_))));
    assert!(matches!(submit_precheck_now(1, 100, i64::MAX - 1, &record("failed", None, None)), Ok(None)));
}

#[test]
fn card_details_the_provider_sends_are_stored() {
    let mut answer = result(ProviderStatus::Captured, "88");
    answer.card = Some(ProviderCardMetadata {
        brand: Some("visa".to_string()),
        last_four_digits: Some("4242".to_string()),
        expiration_month: Some(11),
        expiration_year: Some(2030),
        cardholder_name: Some("ANA SILVA".to_string()),
    });
    match decide_result(record("pending", None, Some("k")), &answer).unwrap() {
        ResultDecision::Record { card, .. } => {
            let c = card.unwrap();
            assert_eq!(c.brand.as_deref(), Some("visa"));
            assert_eq!(c.last_four_digits.as_deref(), Some("4242"));
            assert_eq!(c.expiration_month, Some(11));
            assert_eq!(c.expiration_year, Some(2030));
            assert_eq!(c.cardholder_name.as_deref(), Some("ANA SILVA"));
        }
        ResultDecision::Keep => panic!("recorded"),
    }
    let kept = decide_result(record("captured", Some("88"), Some("k")), &answer).unwrap();
    assert!(matches!(kept, ResultDecision::Keep));
}
