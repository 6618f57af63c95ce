use mockchain::account::AccountId;
use mockchain::context::VMContextBuilder;
use mockchain::host::MockedHost;
use mockchain::protocol::{
    execute_transfer_call, nft_transfer, ReceiverResponse, TransferError, TransferPhase,
    MINIMAL_DEPOSIT, RESOLVE_GAS_THRESHOLD,
};

const TOKEN: &[u8] = b"token-0";

fn account(name: &str) -> AccountId {
    AccountId::new(name.as_bytes().to_vec()).unwrap()
}

/// A host whose contract account is "nft", with the token owned by "nft".
fn host_with_token() -> MockedHost {
    let context = VMContextBuilder::new()
        .current_account_id(account("nft"))
        .signer_account_id(account("nft"))
        .predecessor_account_id(account("nft"))
        .attached_deposit(MINIMAL_DEPOSIT)
        .build();
    let mut host = MockedHost::new(context);
    host.write_storage(TOKEN.to_vec(), b"nft".to_vec());
    host
}

fn owner_of(host: &MockedHost) -> Vec<u8> {
    host.read_storage(&TOKEN.to_vec()).unwrap()
}

#[test]
fn simple_transfer_logs_once_and_moves_ownership() {
    let mut host = host_with_token();
    let r = nft_transfer(
        &mut host,
        TOKEN.to_vec(),
        &account("nft"),
        &account("alice"),
        MINIMAL_DEPOSIT,
    );
    assert!(r.is_ok());
    assert_eq!(host.get_logs().len(), 1);
    assert_eq!(host.get_logs()[0], "ownership changed");
    assert_eq!(owner_of(&host), b"alice".to_vec());
    assert!(host.get_created_receipts().is_empty());
}

#[test]
fn transfer_to_current_owner_fails_without_logs() {
    let mut host = host_with_token();
    let r = nft_transfer(
        &mut host,
        TOKEN.to_vec(),
        &account("nft"),
        &account("nft"),
        MINIMAL_DEPOSIT,
    );
    assert_eq!(r, Err(TransferError::SelfTransfer));
    assert!(host.get_logs().is_empty());
    assert_eq!(owner_of(&host), b"nft".to_vec());
}

#[test]
fn transfer_by_non_owner_fails_without_logs() {
    let mut host = host_with_token();
    let r = nft_transfer(
        &mut host,
        TOKEN.to_vec(),
        &account("mallory"),
        &account("alice"),
        MINIMAL_DEPOSIT,
    );
    assert_eq!(r, Err(TransferError::SenderNotOwner));
    assert!(host.get_logs().is_empty());
    assert_eq!(owner_of(&host), b"nft".to_vec());
}

#[test]
fn transfer_with_wrong_deposit_fails_without_logs() {
    let mut host = host_with_token();
    let r = nft_transfer(&mut host, TOKEN.to_vec(), &account("nft"), &account("alice"), 2);
    assert_eq!(r, Err(TransferError::WrongDeposit));
    let r0 = nft_transfer(&mut host, TOKEN.to_vec(), &account("nft"), &account("alice"), 0);
    assert_eq!(r0, Err(TransferError::WrongDeposit));
    assert!(host.get_logs().is_empty());
    assert_eq!(owner_of(&host), b"nft".to_vec());
}

#[test]
fn transfer_of_unknown_token_fails() {
    let mut host = host_with_token();
    let r = nft_transfer(
        &mut host,
        b"no-such-token".to_vec(),
        &account("nft"),
        &account("alice"),
        MINIMAL_DEPOSIT,
    );
    assert_eq!(r, Err(TransferError::UnknownToken));
    assert!(host.get_logs().is_empty());
}

#[test]
fn transfer_to_empty_receiver_fails() {
    let mut host = host_with_token();
    let empty = AccountId { bytes: Vec::new() };
    let r = nft_transfer(&mut host, TOKEN.to_vec(), &account("nft"), &empty, MINIMAL_DEPOSIT);
    assert_eq!(r, Err(TransferError::InvalidReceiver));
    assert!(host.get_logs().is_empty());
}

fn run_call(host: &mut MockedHost, gas: u64, response: ReceiverResponse) -> Result<TransferPhase, TransferError> {
    execute_transfer_call(
        host,
        TOKEN.to_vec(),
        &account("nft"),
        &account("receiver"),
        MINIMAL_DEPOSIT,
        gas,
        b"transfer and call".to_vec(),
        response,
    )
}

#[test]
fn transfer_call_fast_keep_logs_twice_and_receiver_owns() {
    let mut host = host_with_token();
    let r = run_call(&mut host, 100_000_000_000_000, ReceiverResponse::KeepNow);
    assert_eq!(r, Ok(TransferPhase::ResolvedKeep));
    let logs = host.get_logs();
    assert_eq!(logs.len(), 2);
    assert_eq!(logs[0], "ownership changed");
    assert_eq!(logs[1], "receiver acknowledged the token");
    assert_eq!(owner_of(&host), b"receiver".to_vec());
}

#[test]
fn transfer_call_slow_keep_converges_to_same_owner() {
    let mut host = host_with_token();
    let r = run_call(&mut host, 100_000_000_000_000, ReceiverResponse::KeepLater);
    assert_eq!(r, Ok(TransferPhase::ResolvedKeep));
    assert_eq!(host.get_logs().len(), 2);
    assert_eq!(owner_of(&host), b"receiver".to_vec());
    // the deferred step left one extra, unresolved receipt of the receiver's own
    assert_eq!(host.get_created_receipts().len(), 3);
}

#[test]
fn transfer_call_fast_return_restores_sender() {
    let mut host = host_with_token();
    let r = run_call(&mut host, 100_000_000_000_000, ReceiverResponse::ReturnNow);
    assert_eq!(r, Ok(TransferPhase::ResolvedReturn));
    let logs = host.get_logs();
    assert_eq!(logs.len(), 2);
    assert_eq!(logs[0], "ownership changed");
    assert_eq!(logs[1], "ownership changed");
    assert_eq!(owner_of(&host), b"nft".to_vec());
}

#[test]
fn transfer_call_slow_return_restores_sender() {
    let mut host = host_with_token();
    let r = run_call(&mut host, 100_000_000_000_000, ReceiverResponse::ReturnLater);
    assert_eq!(r, Ok(TransferPhase::ResolvedReturn));
    assert_eq!(host.get_logs().len(), 2);
    assert_eq!(owner_of(&host), b"nft".to_vec());
}

#[test]
fn transfer_call_receiver_abort_with_enough_gas_reverses() {
    let mut host = host_with_token();
    let r = run_call(&mut host, RESOLVE_GAS_THRESHOLD + 1, ReceiverResponse::Abort);
    assert_eq!(r, Ok(TransferPhase::ResolvedPanicKeep));
    let logs = host.get_logs();
    assert_eq!(logs.len(), 3);
    assert_eq!(logs[0], "ownership changed");
    assert_eq!(logs[1], "receiver aborted, returning the token");
    assert_eq!(logs[2], "ownership changed");
    assert_eq!(owner_of(&host), b"nft".to_vec());
}

#[test]
fn transfer_call_below_gas_threshold_fails_without_logs() {
    let mut host = host_with_token();
    let r = run_call(&mut host, 30_000_000_000_000, ReceiverResponse::Abort);
    assert_eq!(r, Err(TransferError::GasExhausted));
    assert!(host.get_logs().is_empty());
    assert!(host.get_created_receipts().is_empty());
    assert_eq!(owner_of(&host), b"nft".to_vec());
}

#[test]
fn transfer_call_over_remaining_gas_budget_fails() {
    let context = VMContextBuilder::new()
        .current_account_id(account("nft"))
        .attached_deposit(MINIMAL_DEPOSIT)
        .prepaid_gas(RESOLVE_GAS_THRESHOLD)
        .build();
    let mut host = MockedHost::new(context);
    host.write_storage(TOKEN.to_vec(), b"nft".to_vec());
    let r = run_call(&mut host, RESOLVE_GAS_THRESHOLD + 1, ReceiverResponse::KeepNow);
    assert_eq!(r, Err(TransferError::GasBudgetExceeded));
    assert!(host.get_logs().is_empty());
}

#[test]
fn transfer_call_validation_failure_creates_nothing() {
    let mut host = host_with_token();
    let r = execute_transfer_call(
        &mut host,
        TOKEN.to_vec(),
        &account("mallory"),
        &account("receiver"),
        MINIMAL_DEPOSIT,
        100_000_000_000_000,
        Vec::new(),
        ReceiverResponse::KeepNow,
    );
    assert_eq!(r, Err(TransferError::SenderNotOwner));
    assert!(host.get_logs().is_empty());
    assert!(host.get_created_receipts().is_empty());
}

#[test]
fn transfer_call_receipts_carry_methods_and_gas_split() {
    let mut host = host_with_token();
    let gas = 100_000_000_000_000;
    run_call(&mut host, gas, ReceiverResponse::KeepNow).unwrap();
    let receipts = host.get_created_receipts();
    assert_eq!(receipts.len(), 2);
    assert_eq!(receipts[0].receiver_id.bytes, b"receiver".to_vec());
    assert_eq!(receipts[0].method_name, "nft_on_transfer");
    assert_eq!(receipts[0].arguments, b"transfer and call".to_vec());
    assert_eq!(receipts[0].gas, gas - RESOLVE_GAS_THRESHOLD);
    assert_eq!(receipts[0].callbacks, vec![1]);
    assert!(receipts[0].resolved);
    assert_eq!(receipts[1].receiver_id.bytes, b"nft".to_vec());
    assert_eq!(receipts[1].method_name, "nft_resolve_transfer");
    assert_eq!(receipts[1].gas, RESOLVE_GAS_THRESHOLD);
    assert_eq!(receipts[1].parent, Some(0));
    assert!(receipts[1].resolved);
    assert_eq!(host.remaining_gas, u64::MAX - gas);
}
