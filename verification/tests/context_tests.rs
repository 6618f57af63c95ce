use mockchain::account::AccountId;
use mockchain::context::{accounts, VMContextBuilder};

#[test]
fn builder_baseline_is_deterministic() {
    let context = VMContextBuilder::new().build();
    assert_eq!(context.current_account_id.bytes, b"alice".to_vec());
    assert_eq!(context.signer_account_id.bytes, b"bob".to_vec());
    assert_eq!(context.predecessor_account_id.bytes, b"bob".to_vec());
    assert_eq!(context.attached_deposit, 0);
    assert_eq!(context.prepaid_gas, u64::MAX);
    assert_eq!(context.block_index, 0);
    assert_eq!(context.block_timestamp, 0);
    assert_eq!(context.epoch_height, 0);
    assert_eq!(context.storage_usage, 0);
    assert!(context.random_seed.is_empty());
    assert!(context.input.is_empty());
    assert!(!context.is_view);
}

#[test]
fn builder_setters_override_each_option() {
    let context = VMContextBuilder::new()
        .signer_account_id(accounts(0))
        .predecessor_account_id(accounts(1))
        .current_account_id(accounts(2))
        .attached_deposit(7)
        .prepaid_gas(42)
        .block_index(11)
        .block_timestamp(1_000_000_000)
        .epoch_height(3)
        .storage_usage(512)
        .random_seed(vec![1, 2, 3])
        .input(b"{}".to_vec())
        .is_view(true)
        .build();
    assert_eq!(context.signer_account_id.bytes, b"alice".to_vec());
    assert_eq!(context.predecessor_account_id.bytes, b"bob".to_vec());
    assert_eq!(context.current_account_id.bytes, b"charlie".to_vec());
    assert_eq!(context.attached_deposit, 7);
    assert_eq!(context.prepaid_gas, 42);
    assert_eq!(context.block_index, 11);
    assert_eq!(context.block_timestamp, 1_000_000_000);
    assert_eq!(context.epoch_height, 3);
    assert_eq!(context.storage_usage, 512);
    assert_eq!(context.random_seed, vec![1, 2, 3]);
    assert_eq!(context.input, b"{}".to_vec());
    assert!(context.is_view);
}

#[test]
fn fixed_test_identities_are_stable() {
    assert_eq!(accounts(0).bytes, b"alice".to_vec());
    assert_eq!(accounts(1).bytes, b"bob".to_vec());
    assert_eq!(accounts(2).bytes, b"charlie".to_vec());
    assert_eq!(accounts(3).bytes, b"danny".to_vec());
    assert_eq!(accounts(4).bytes, b"eugene".to_vec());
    assert_eq!(accounts(5).bytes, b"fargo".to_vec());
}

#[test]
fn account_id_rejects_only_the_empty_string() {
    assert!(AccountId::new(Vec::new()).is_none());
    let a = AccountId::new(b"a".to_vec()).unwrap();
    assert_eq!(a.bytes, b"a".to_vec());
    let b = AccountId::new(b"x.near".to_vec()).unwrap();
    assert!(a.eq_id(&a));
    assert!(!a.eq_id(&b));
    assert_eq!(a.clone_id().bytes, a.bytes);
}
