use std::collections::HashSet;

use ledger_core::auth::Caller;
use ledger_core::payment::{
    exchange_rates, CreatePaymentRequest, PaymentError, PaymentService, PaymentStatus, MICRO,
};

fn caller(id: &str) -> Caller {
    Caller { id: id.to_string(), display: "unknown".to_string() }
}

fn request(kind: &str, amount_micro: u64, crypto: Option<&str>) -> CreatePaymentRequest {
    CreatePaymentRequest {
        amount_micro,
        currency: "USD".to_string(),
        kind: kind.to_string(),
        crypto_address: None,
        crypto_currency: crypto.map(|s| s.to_string()),
        extra: None,
    }
}

#[test]
fn fiat_to_crypto_btc_prices_and_settles() {
    let mut svc = PaymentService::new();
    let alice = caller("alice");
    // 100 whole units at 50000 per BTC comes to 0.002 BTC, i.e. 2000 micro.
    let p = svc.create_payment(&alice, &request("fiat_to_crypto", 100 * MICRO, Some("BTC"))).unwrap();
    assert_eq!(p.crypto_amount_micro, Some(2000));
    assert_eq!(p.exchange_rate_micro, Some(50_000 * MICRO));
    assert_eq!(p.status, PaymentStatus::Pending);

    let before = svc.get_payment(&alice, &p.id).unwrap();
    assert_eq!(before.status, PaymentStatus::Pending);

    assert!(svc.settle_payment(&p.id));
    let after = svc.get_payment(&alice, &p.id).unwrap();
    assert_eq!(after.status, PaymentStatus::Completed);
    assert_eq!(after.crypto_amount_micro, Some(2000));
}

#[test]
fn crypto_to_fiat_multiplies_by_the_rate() {
    let mut svc = PaymentService::new();
    let alice = caller("alice");
    // 2 whole units at 3000 per ETH comes to 6000 whole units.
    let p = svc.create_payment(&alice, &request("crypto_to_fiat", 2 * MICRO, Some("ETH"))).unwrap();
    assert_eq!(p.crypto_amount_micro, Some(6_000 * MICRO));
    assert_eq!(p.exchange_rate_micro, Some(3_000 * MICRO));
}

#[test]
fn unknown_currency_defaults_to_unit_rate() {
    let mut svc = PaymentService::new();
    let alice = caller("alice");
    let p = svc.create_payment(&alice, &request("fiat_to_crypto", 7 * MICRO, Some("DOGE"))).unwrap();
    assert_eq!(p.exchange_rate_micro, Some(MICRO));
    assert_eq!(p.crypto_amount_micro, Some(7 * MICRO));

    let q = svc.create_payment(&alice, &request("fiat_to_crypto", 7 * MICRO, None)).unwrap();
    assert_eq!(q.exchange_rate_micro, Some(MICRO));
}

#[test]
fn invalid_kind_is_rejected_and_nothing_is_appended() {
    let mut svc = PaymentService::new();
    let alice = caller("alice");
    svc.create_payment(&alice, &request("fiat_to_crypto", MICRO, Some("BTC"))).unwrap();
    let count_before = svc.count();

    let err = svc.create_payment(&alice, &request("invalid", 100 * MICRO, Some("BTC"))).unwrap_err();
    assert_eq!(err, PaymentError::InvalidPaymentKind);
    assert_eq!(svc.count(), count_before);
    assert_eq!(svc.list_payments(&alice).len(), count_before);
}

#[test]
fn payments_are_scoped_to_their_owner() {
    let mut svc = PaymentService::new();
    let alice = caller("alice");
    let eve = caller("eve");
    let p = svc.create_payment(&alice, &request("fiat_to_crypto", MICRO, Some("BTC"))).unwrap();

    assert!(svc.get_payment(&eve, &p.id).is_none());
    assert!(svc.get_payment(&eve, "no-such-id").is_none());
    assert_eq!(svc.list_payments(&eve).len(), 0);
    assert!(svc.get_payment(&alice, &p.id).is_some());
}

#[test]
fn each_create_appends_one_record_with_a_distinct_id() {
    let mut svc = PaymentService::new();
    let alice = caller("alice");
    let mut ids: HashSet<String> = HashSet::new();
    for n in 0..25u64 {
        assert_eq!(svc.count(), n as usize);
        let p = svc.create_payment(&alice, &request("fiat_to_crypto", n * MICRO, Some("BTC"))).unwrap();
        assert_eq!(svc.count(), (n + 1) as usize);
        ids.insert(p.id);
    }
    assert_eq!(ids.len(), 25);
    assert_eq!(svc.list_payments(&alice).len(), 25);
}

#[test]
fn settling_a_missing_id_is_ignored() {
    let mut svc = PaymentService::new();
    let alice = caller("alice");
    svc.create_payment(&alice, &request("fiat_to_crypto", MICRO, Some("BTC"))).unwrap();
    assert!(!svc.settle_payment("no-such-id"));
    let listed = svc.list_payments(&alice);
    assert_eq!(listed[0].status, PaymentStatus::Pending);
}

#[test]
fn settlement_touches_only_the_named_record() {
    let mut svc = PaymentService::new();
    let alice = caller("alice");
    let p1 = svc.create_payment(&alice, &request("fiat_to_crypto", MICRO, Some("BTC"))).unwrap();
    let p2 = svc.create_payment(&alice, &request("fiat_to_crypto", 2 * MICRO, Some("ETH"))).unwrap();

    assert!(svc.settle_payment(&p2.id));
    assert_eq!(svc.get_payment(&alice, &p1.id).unwrap().status, PaymentStatus::Pending);
    assert_eq!(svc.get_payment(&alice, &p2.id).unwrap().status, PaymentStatus::Completed);
}

#[test]
fn oversized_conversion_saturates() {
    let mut svc = PaymentService::new();
    let alice = caller("alice");
    // Converting the largest representable amount out of BTC overflows the
    // representable range, so the result pins to the largest amount.
    let p = svc.create_payment(&alice, &request("crypto_to_fiat", u64::MAX, Some("BTC"))).unwrap();
    assert_eq!(p.crypto_amount_micro, Some(u64::MAX));
}

#[test]
fn published_rates_match_the_table() {
    let rates = exchange_rates();
    let as_pairs: Vec<(&str, u64)> = rates.iter().map(|(c, r)| (c.as_str(), *r)).collect();
    assert_eq!(
        as_pairs,
        vec![
            ("BTC", 50_000 * MICRO),
            ("ETH", 3_000 * MICRO),
            ("USDC", MICRO),
            ("USD", MICRO),
            ("EUR", 850_000),
            ("GBP", 750_000),
        ]
    );
}
