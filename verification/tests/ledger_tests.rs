use ledger_core::auth::Caller;
use ledger_core::ledger::{CreateTransactionRequest, LedgerService, TransactionStatus};

fn caller(id: &str) -> Caller {
    Caller { id: id.to_string(), display: "unknown".to_string() }
}

fn request(asset: &str, from: Option<&str>, to: Option<&str>) -> CreateTransactionRequest {
    CreateTransactionRequest {
        asset_id: asset.to_string(),
        asset_name: None,
        kind: "transfer".to_string(),
        from: from.map(|s| s.to_string()),
        to: to.map(|s| s.to_string()),
        extra: None,
    }
}

#[test]
fn create_defaults_sender_to_caller_and_completes() {
    let mut svc = LedgerService::new();
    let alice = caller("alice");
    let t = svc.create_transaction(&alice, &request("gold", None, Some("bob")));
    assert_eq!(t.from.as_deref(), Some("alice"));
    assert_eq!(t.to.as_deref(), Some("bob"));
    assert_eq!(t.status, TransactionStatus::Completed);
    assert_eq!(t.id.len(), 36);
    assert_eq!(svc.count(), 1);
}

#[test]
fn listing_is_scoped_to_sender_or_receiver() {
    let mut svc = LedgerService::new();
    let alice = caller("alice");
    let bob = caller("bob");
    let carol = caller("carol");
    svc.create_transaction(&alice, &request("gold", None, Some("bob")));
    svc.create_transaction(&bob, &request("oil", None, Some("carol")));
    svc.create_transaction(&carol, &request("gas", Some("carol"), None));

    let for_alice = svc.list_transactions(&alice);
    assert_eq!(for_alice.len(), 1);
    assert_eq!(for_alice[0].asset_id, "gold");

    let for_bob = svc.list_transactions(&bob);
    assert_eq!(for_bob.len(), 2);
    assert_eq!(for_bob[0].asset_id, "gold");
    assert_eq!(for_bob[1].asset_id, "oil");

    for t in svc.list_transactions(&carol) {
        let named = t.from.as_deref() == Some("carol") || t.to.as_deref() == Some("carol");
        assert!(named);
    }
}

#[test]
fn get_by_other_caller_is_indistinguishable_from_absence() {
    let mut svc = LedgerService::new();
    let alice = caller("alice");
    let eve = caller("eve");
    let t = svc.create_transaction(&alice, &request("gold", None, Some("bob")));

    assert!(svc.get_transaction(&eve, &t.id).is_none());
    assert!(svc.get_transaction(&eve, "no-such-id").is_none());
    assert!(svc.get_transaction(&alice, &t.id).is_some());
}

#[test]
fn reads_are_idempotent() {
    let mut svc = LedgerService::new();
    let alice = caller("alice");
    let t = svc.create_transaction(&alice, &request("gold", None, Some("bob")));

    let first = svc.list_transactions(&alice);
    let second = svc.list_transactions(&alice);
    assert_eq!(first.len(), second.len());
    for (a, b) in first.iter().zip(second.iter()) {
        assert_eq!(a.id, b.id);
        assert_eq!(a.asset_id, b.asset_id);
    }

    let g1 = svc.get_transaction(&alice, &t.id).unwrap();
    let g2 = svc.get_transaction(&alice, &t.id).unwrap();
    assert_eq!(g1.id, g2.id);
    assert_eq!(g1.asset_id, g2.asset_id);
    assert_eq!(g1.timestamp_millis, g2.timestamp_millis);
}

#[test]
fn explicit_sender_is_kept() {
    let mut svc = LedgerService::new();
    let alice = caller("alice");
    let t = svc.create_transaction(&alice, &request("gold", Some("dan"), Some("bob")));
    assert_eq!(t.from.as_deref(), Some("dan"));
}
