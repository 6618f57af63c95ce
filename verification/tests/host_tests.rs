use mockchain::account::AccountId;
use mockchain::context::VMContextBuilder;
use mockchain::host::{HostError, MockedHost, PromiseResult, TrieIdGenerator};

fn account(name: &str) -> AccountId {
    AccountId::new(name.as_bytes().to_vec()).unwrap()
}

fn fresh_host() -> MockedHost {
    let context = VMContextBuilder::new()
        .attached_deposit(10)
        .prepaid_gas(1_000_000)
        .build();
    MockedHost::new(context)
}

#[test]
fn storage_read_back_after_write() {
    let mut host = fresh_host();
    assert_eq!(host.read_storage(&b"k".to_vec()), None);
    let prev = host.write_storage(b"k".to_vec(), b"v1".to_vec());
    assert_eq!(prev, None);
    assert_eq!(host.read_storage(&b"k".to_vec()), Some(b"v1".to_vec()));
}

#[test]
fn storage_overwrite_returns_previous_value() {
    let mut host = fresh_host();
    host.write_storage(b"k".to_vec(), b"v1".to_vec());
    let prev = host.write_storage(b"k".to_vec(), b"v2".to_vec());
    assert_eq!(prev, Some(b"v1".to_vec()));
    assert_eq!(host.read_storage(&b"k".to_vec()), Some(b"v2".to_vec()));
}

#[test]
fn storage_keys_do_not_interfere() {
    let mut host = fresh_host();
    host.write_storage(b"a".to_vec(), b"1".to_vec());
    host.write_storage(b"b".to_vec(), b"2".to_vec());
    assert_eq!(host.read_storage(&b"a".to_vec()), Some(b"1".to_vec()));
    assert_eq!(host.read_storage(&b"b".to_vec()), Some(b"2".to_vec()));
    assert_eq!(host.read_storage(&b"c".to_vec()), None);
}

#[test]
fn take_storage_empties_the_table() {
    let mut host = fresh_host();
    host.write_storage(b"k".to_vec(), b"v".to_vec());
    let taken = host.take_storage();
    assert_eq!(taken.len(), 1);
    assert_eq!(host.read_storage(&b"k".to_vec()), None);
}

#[test]
fn install_carries_storage_but_discards_logs_and_receipts() {
    let mut host = fresh_host();
    host.write_storage(b"k".to_vec(), b"v".to_vec());
    host.log("before".to_string());
    let carried = host.take_storage();
    let context = VMContextBuilder::new().build();
    let next = MockedHost::install(context, carried);
    assert_eq!(next.read_storage(&b"k".to_vec()), Some(b"v".to_vec()));
    assert!(next.get_logs().is_empty());
    assert!(next.get_created_receipts().is_empty());
}

#[test]
fn logs_keep_call_order() {
    let mut host = fresh_host();
    host.log("first".to_string());
    host.log("second".to_string());
    let logs = host.get_logs();
    assert_eq!(logs, vec!["first".to_string(), "second".to_string()]);
}

#[test]
fn create_receipt_records_fields_and_budget() {
    let mut host = fresh_host();
    let id = host
        .create_receipt(account("bob"), "m".to_string(), b"args".to_vec(), 4, 100)
        .unwrap();
    assert_eq!(id, 0);
    assert_eq!(host.remaining_deposit, 6);
    assert_eq!(host.remaining_gas, 999_900);
    let receipts = host.get_created_receipts();
    assert_eq!(receipts.len(), 1);
    assert_eq!(receipts[0].receiver_id.bytes, b"bob".to_vec());
    assert_eq!(receipts[0].method_name, "m");
    assert_eq!(receipts[0].arguments, b"args".to_vec());
    assert_eq!(receipts[0].deposit, 4);
    assert_eq!(receipts[0].gas, 100);
    assert!(receipts[0].callbacks.is_empty());
    assert_eq!(receipts[0].parent, None);
    assert!(!receipts[0].resolved);
    assert!(matches!(receipts[0].result, PromiseResult::NotReady));
}

#[test]
fn create_receipt_rejects_empty_receiver() {
    let mut host = fresh_host();
    let bad = AccountId { bytes: Vec::new() };
    let r = host.create_receipt(bad, "m".to_string(), Vec::new(), 0, 0);
    assert!(matches!(r, Err(HostError::InvalidReceiver)));
    assert!(host.get_created_receipts().is_empty());
}

#[test]
fn create_receipt_rejects_deposit_over_budget() {
    let mut host = fresh_host();
    let r = host.create_receipt(account("bob"), "m".to_string(), Vec::new(), 11, 0);
    assert!(matches!(r, Err(HostError::DepositBudgetExceeded)));
}

#[test]
fn create_receipt_rejects_gas_over_budget() {
    let mut host = fresh_host();
    let r = host.create_receipt(account("bob"), "m".to_string(), Vec::new(), 0, 1_000_001);
    assert!(matches!(r, Err(HostError::GasBudgetExceeded)));
}

#[test]
fn callback_receipt_links_parent_and_child() {
    let mut host = fresh_host();
    let root = host
        .create_receipt(account("bob"), "m".to_string(), Vec::new(), 0, 0)
        .unwrap();
    let child = host
        .create_callback_receipt(root, account("carol"), "cb".to_string(), Vec::new(), 0, 0)
        .unwrap();
    let receipts = host.get_created_receipts();
    assert_eq!(receipts[root].callbacks, vec![child]);
    assert_eq!(receipts[child].parent, Some(root));
}

#[test]
fn callback_receipt_rejects_unknown_parent() {
    let mut host = fresh_host();
    let r = host.create_callback_receipt(7, account("bob"), "cb".to_string(), Vec::new(), 0, 0);
    assert!(matches!(r, Err(HostError::UnknownReceipt)));
}

#[test]
fn receipt_resolves_at_most_once() {
    let mut host = fresh_host();
    let id = host
        .create_receipt(account("bob"), "m".to_string(), Vec::new(), 0, 0)
        .unwrap();
    let first = host.resolve_receipt(id, PromiseResult::Successful(b"ok".to_vec()));
    assert!(first.is_ok());
    assert!(host.get_created_receipts()[id].resolved);
    let second = host.resolve_receipt(id, PromiseResult::Failed);
    assert!(matches!(second, Err(HostError::AlreadyResolved)));
    match &host.get_created_receipts()[id].result {
        PromiseResult::Successful(data) => assert_eq!(data, &b"ok".to_vec()),
        _ => panic!("receipt result should still be the first resolution"),
    }
}

#[test]
fn resolving_unknown_receipt_fails() {
    let mut host = fresh_host();
    let r = host.resolve_receipt(3, PromiseResult::Failed);
    assert!(matches!(r, Err(HostError::UnknownReceipt)));
}

#[test]
fn resolving_to_not_ready_fails() {
    let mut host = fresh_host();
    let id = host
        .create_receipt(account("bob"), "m".to_string(), Vec::new(), 0, 0)
        .unwrap();
    let r = host.resolve_receipt(id, PromiseResult::NotReady);
    assert!(matches!(r, Err(HostError::NotAResolution)));
    assert!(!host.get_created_receipts()[id].resolved);
}

#[test]
fn trie_ids_are_consecutive_little_endian_counters() {
    let mut gen = TrieIdGenerator::new();
    assert_eq!(gen.next_trie_id(), 0u64.to_le_bytes().to_vec());
    assert_eq!(gen.next_trie_id(), 1u64.to_le_bytes().to_vec());
    assert_eq!(gen.next_trie_id(), 2u64.to_le_bytes().to_vec());
}

#[test]
fn resolver_dispatches_in_creation_order_parents_first() {
    let mut host = fresh_host();
    let a = host
        .create_receipt(account("bob"), "a".to_string(), Vec::new(), 0, 0)
        .unwrap();
    let b = host
        .create_callback_receipt(a, account("carol"), "b".to_string(), Vec::new(), 0, 0)
        .unwrap();
    let c = host
        .create_receipt(account("dave"), "c".to_string(), Vec::new(), 0, 0)
        .unwrap();
    // the callback waits for its parent; roots go in creation order
    assert_eq!(mockchain::resolver::next_pending(&host), Some(a));
    host.resolve_receipt(a, PromiseResult::Successful(Vec::new())).unwrap();
    assert_eq!(mockchain::resolver::next_pending(&host), Some(b));
    host.resolve_receipt(b, PromiseResult::Failed).unwrap();
    assert_eq!(mockchain::resolver::next_pending(&host), Some(c));
    host.resolve_receipt(c, PromiseResult::Successful(Vec::new())).unwrap();
    assert_eq!(mockchain::resolver::next_pending(&host), None);
}
