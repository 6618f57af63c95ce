//! The token transfer-and-call protocol, layered on the mocked host: a
//! two-phase ownership transfer with receiver notification, modelled after
//! the flow a non-fungible-token contract runs during its unit tests.
//!
//! Ownership is durable state: the owner of a token is the byte string
//! stored under the token's key in the host's storage table. A committed
//! ownership change appends exactly one ownership-change log; a call that
//! fails validation changes nothing and logs nothing.

use vstd::prelude::*;
use crate::account::AccountId;
use crate::account::bytes_eq;
use crate::account::clone_bytes;
use crate::host::MockedHost;
use crate::host::PromiseResult;
use crate::host::slot_of;

verus! {

/// The smallest nonzero token amount; a transfer must attach exactly this
/// much as its security deposit.
pub const MINIMAL_DEPOSIT: u128 = 1;

/// Gas threshold for the resolve callback: below it the callback is
/// silently dropped, so a transfer-and-call refuses to start.
pub const RESOLVE_GAS_THRESHOLD: u64 = 35_000_000_000_000;

/// Errors a transfer can fail with, checked in this order.
#[derive(Debug, PartialEq, Eq, Structural)]
pub enum TransferError {
    /// The receiver account identifier is empty.
    InvalidReceiver,
    /// The attached deposit is not exactly one minimal unit.
    WrongDeposit,
    /// No owner is recorded under the token's key.
    UnknownToken,
    /// The stored owner differs from the sender.
    SenderNotOwner,
    /// The receiver already owns the token.
    SelfTransfer,
    /// The attached gas is below the resolve-callback threshold, so the
    /// two-phase flow could never finish; nothing is committed.
    GasExhausted,
    /// The attached gas exceeds what remains unspent in the context.
    GasBudgetExceeded,
}

/// The states of the transfer-and-call flow.
#[derive(Debug, PartialEq, Eq, Structural)]
pub enum TransferPhase {
    /// No transfer is underway.
    Idle,
    /// Validation passed; the ownership change is being committed.
    Transferring,
    /// The notification receipt is out; the receiver has not answered.
    AwaitingReceiverResponse,
    /// The receiver kept the token.
    ResolvedKeep,
    /// The receiver asked for the token back; ownership was reversed.
    ResolvedReturn,
    /// The receiver's handler aborted; ownership was reversed by the
    /// resolve callback.
    ResolvedPanicKeep,
}

/// How the simulated receiver answers its notification. "Later" variants
/// schedule a follow-up receipt of the receiver's own before answering,
/// showing the protocol is agnostic to call depth.
#[derive(Clone, Copy, Debug, PartialEq, Eq, Structural)]
pub enum ReceiverResponse {
    /// Keep the token, answering at once.
    KeepNow,
    /// Keep the token, after a deferred step.
    KeepLater,
    /// Return the token, answering at once.
    ReturnNow,
    /// Return the token, after a deferred step.
    ReturnLater,
    /// The notification handler aborts.
    Abort,
}

/// The owner recorded for `token` in the host's storage, if any.
pub open spec fn stored_owner(h: MockedHost, token: Seq<u8>) -> Option<Seq<u8>> {
    slot_of(h.storage@, token)
}

/// The ownership-change log entry, emitted once per committed transfer.
pub open spec fn transfer_log_message() -> Seq<char> {
    "ownership changed"@
}

/// The receiver's acknowledgment log entry, emitted when it keeps the token.
pub open spec fn ack_log_message() -> Seq<char> {
    "receiver acknowledged the token"@
}

/// The resolve callback's notice, emitted when the receiver aborted.
pub open spec fn notice_log_message() -> Seq<char> {
    "receiver aborted, returning the token"@
}

/// Why a direct transfer is rejected, if it is; `None` means it commits.
pub open spec fn transfer_validation_error(
    h: MockedHost,
    token: Seq<u8>,
    sender: Seq<u8>,
    receiver: Seq<u8>,
    deposit: u128,
) -> Option<TransferError> {
    if receiver.len() == 0 {
        Some(TransferError::InvalidReceiver)
    } else if deposit != MINIMAL_DEPOSIT {
        Some(TransferError::WrongDeposit)
    } else if stored_owner(h, token) is None {
        Some(TransferError::UnknownToken)
    } else if stored_owner(h, token) != Some(sender) {
        Some(TransferError::SenderNotOwner)
    } else if receiver == sender {
        Some(TransferError::SelfTransfer)
    } else {
        None
    }
}

/// Emits the ownership-change log entry.
fn log_ownership_change(host: &mut MockedHost)
    ensures
        final(host).logs@.len() == old(host).logs@.len() + 1,
        final(host).logs@ == old(host).logs@.push(final(host).logs@.last()),
        final(host).logs@.last()@ == transfer_log_message(),
        final(host).storage@ == old(host).storage@,
        final(host).receipts@ == old(host).receipts@,
        final(host).context == old(host).context,
        final(host).remaining_deposit == old(host).remaining_deposit,
        final(host).remaining_gas == old(host).remaining_gas,
{
    host.log("ownership changed".to_owned());
}

/// Transfers `token` from `sender` to `receiver` directly. On success the
/// stored owner becomes the receiver and exactly one ownership-change log
/// is appended; on any validation failure nothing changes and nothing is
/// logged.
pub fn nft_transfer(
    host: &mut MockedHost,
    token_id: Vec<u8>,
    sender_id: &AccountId,
    receiver_id: &AccountId,
    deposit: u128,
) -> (r: Result<(), TransferError>)
    requires
        old(host).wf(),
        !old(host).context.is_view,
    ensures
        final(host).wf(),
        r is Err <==> transfer_validation_error(
            *old(host),
            token_id@,
            sender_id.bytes@,
            receiver_id.bytes@,
            deposit,
        ) is Some,
        r matches Err(e) ==> Some(e) == transfer_validation_error(
            *old(host),
            token_id@,
            sender_id.bytes@,
            receiver_id.bytes@,
            deposit,
        ) && *final(host) == *old(host),
        r is Ok ==> stored_owner(*final(host), token_id@) == Some(receiver_id.bytes@),
        r is Ok ==> forall|k: Seq<u8>|
            k != token_id@ ==> slot_of(final(host).storage@, k) == slot_of(
                old(host).storage@,
                k,
            ),
        r is Ok ==> final(host).logs@.len() == old(host).logs@.len() + 1,
        r is Ok ==> final(host).logs@ == old(host).logs@.push(final(host).logs@.last()),
        r is Ok ==> final(host).logs@.last()@ == transfer_log_message(),
        r is Ok ==> final(host).receipts@ == old(host).receipts@,
        final(host).context == old(host).context,
        final(host).remaining_deposit == old(host).remaining_deposit,
        final(host).remaining_gas == old(host).remaining_gas,
{
    if receiver_id.bytes.len() == 0 {
        return Err(TransferError::InvalidReceiver);
    }
    if deposit != MINIMAL_DEPOSIT {
        return Err(TransferError::WrongDeposit);
    }
    let owner = host.read_storage(&token_id);
    match owner {
        None => Err(TransferError::UnknownToken),
        Some(owner_bytes) => {
            if !bytes_eq(&owner_bytes, &sender_id.bytes) {
                return Err(TransferError::SenderNotOwner);
            }
            if bytes_eq(&receiver_id.bytes, &sender_id.bytes) {
                return Err(TransferError::SelfTransfer);
            }
            host.write_storage(token_id, clone_bytes(&receiver_id.bytes));
            log_ownership_change(host);
            Ok(())
        },
    }
}

/// Name of the receiver's notification method.
pub open spec fn on_transfer_method() -> Seq<char> {
    "nft_on_transfer"@
}

/// Name of the resolve-callback method.
pub open spec fn resolve_method() -> Seq<char> {
    "nft_resolve_transfer"@
}

/// Name of the receiver's own deferred follow-up method.
pub open spec fn deferred_method() -> Seq<char> {
    "on_deferred_response"@
}

/// Why a transfer-and-call is rejected, if it is: as a direct transfer,
/// then the gas checks.
pub open spec fn transfer_call_validation_error(
    h: MockedHost,
    token: Seq<u8>,
    sender: Seq<u8>,
    receiver: Seq<u8>,
    deposit: u128,
    gas: u64,
) -> Option<TransferError> {
    match transfer_validation_error(h, token, sender, receiver, deposit) {
        Some(e) => Some(e),
        None => if gas < RESOLVE_GAS_THRESHOLD {
            Some(TransferError::GasExhausted)
        } else if gas > h.remaining_gas {
            Some(TransferError::GasBudgetExceeded)
        } else {
            None
        },
    }
}

/// The receiver answered "keep": a successful, empty (falsy) response.
pub open spec fn keep_signal(result: PromiseResult) -> bool {
    result matches PromiseResult::Successful(d) && d@.len() == 0
}

/// The receiver answered "return": a successful, non-empty response.
pub open spec fn return_signal(result: PromiseResult) -> bool {
    result matches PromiseResult::Successful(d) && d@.len() > 0
}

/// Starts a transfer-and-call: validates as a direct transfer plus the gas
/// checks, commits the ownership change with its single log, and registers
/// the notification receipt for the receiver together with its resolve
/// callback. Returns the arena indices of the notification receipt and of
/// the callback. The flow is then in the awaiting-receiver state.
pub fn nft_transfer_call(
    host: &mut MockedHost,
    token_id: Vec<u8>,
    sender_id: &AccountId,
    receiver_id: &AccountId,
    deposit: u128,
    gas: u64,
    msg: Vec<u8>,
) -> (r: Result<(usize, usize), TransferError>)
    requires
        old(host).wf(),
        !old(host).context.is_view,
        old(host).context.current_account_id.bytes@.len() > 0,
    ensures
        final(host).wf(),
        r is Err <==> transfer_call_validation_error(
            *old(host),
            token_id@,
            sender_id.bytes@,
            receiver_id.bytes@,
            deposit,
            gas,
        ) is Some,
        r matches Err(e) ==> Some(e) == transfer_call_validation_error(
            *old(host),
            token_id@,
            sender_id.bytes@,
            receiver_id.bytes@,
            deposit,
            gas,
        ) && *final(host) == *old(host),
        r matches Ok(ids) ==> ids.0 == old(host).receipts@.len() && ids.1 == old(host).receipts@.len() + 1,
        r is Ok ==> stored_owner(*final(host), token_id@) == Some(receiver_id.bytes@),
        r is Ok ==> forall|k: Seq<u8>|
            k != token_id@ ==> slot_of(final(host).storage@, k) == slot_of(
                old(host).storage@,
                k,
            ),
        r is Ok ==> final(host).logs@.len() == old(host).logs@.len() + 1,
        r is Ok ==> final(host).logs@.subrange(0, old(host).logs@.len() as int) == old(host).logs@,
        r is Ok ==> final(host).logs@.last()@ == transfer_log_message(),
        r is Ok ==> final(host).receipts@.len() == old(host).receipts@.len() + 2,
        r is Ok ==> forall|j: int|
            0 <= j < old(host).receipts@.len() ==> final(host).receipts@[j] == old(host).receipts@[j],
        r matches Ok(ids) ==> notification_receipt_shape(
            final(host).receipts@[ids.0 as int],
            *receiver_id,
            msg@,
            gas,
            ids.1,
        ),
        r matches Ok(ids) ==> callback_receipt_shape(
            final(host).receipts@[ids.1 as int],
            final(host).context.current_account_id.bytes@,
            token_id@,
            ids.0,
        ),
        r is Ok ==> final(host).remaining_gas == old(host).remaining_gas - gas,
        r is Ok ==> final(host).remaining_deposit == old(host).remaining_deposit,
        final(host).context == old(host).context,
{
    if receiver_id.bytes.len() == 0 {
        return Err(TransferError::InvalidReceiver);
    }
    if deposit != MINIMAL_DEPOSIT {
        return Err(TransferError::WrongDeposit);
    }
    let owner = match host.read_storage(&token_id) {
        None => {
            return Err(TransferError::UnknownToken);
        },
        Some(owner_bytes) => owner_bytes,
    };
    if !bytes_eq(&owner, &sender_id.bytes) {
        return Err(TransferError::SenderNotOwner);
    }
    if bytes_eq(&receiver_id.bytes, &sender_id.bytes) {
        return Err(TransferError::SelfTransfer);
    }
    if gas < RESOLVE_GAS_THRESHOLD {
        return Err(TransferError::GasExhausted);
    }
    if gas > host.remaining_gas {
        return Err(TransferError::GasBudgetExceeded);
    }
    let callback_args = clone_bytes(&token_id);
    host.write_storage(token_id, clone_bytes(&receiver_id.bytes));
    log_ownership_change(host);
    let root_id = match host.create_receipt(
        receiver_id.clone_id(),
        "nft_on_transfer".to_owned(),
        msg,
        0,
        gas - RESOLVE_GAS_THRESHOLD,
    ) {
        Ok(id) => id,
        Err(_) => unreached(),
    };
    let callback_id = match host.create_callback_receipt(
        root_id,
        host.context.current_account_id.clone_id(),
        "nft_resolve_transfer".to_owned(),
        callback_args,
        0,
        RESOLVE_GAS_THRESHOLD,
    ) {
        Ok(id) => id,
        Err(_) => unreached(),
    };
    Ok((root_id, callback_id))
}

/// The shape of the notification receipt the setup step registers.
pub open spec fn notification_receipt_shape(
    rec: crate::host::Receipt,
    receiver_id: AccountId,
    msg: Seq<u8>,
    gas: u64,
    callback_id: usize,
) -> bool {
    &&& rec.receiver_id.bytes@ == receiver_id.bytes@
    &&& rec.method_name@ == on_transfer_method()
    &&& rec.arguments@ == msg
    &&& rec.deposit == 0
    &&& rec.gas == gas - RESOLVE_GAS_THRESHOLD
    &&& rec.callbacks@ == Seq::<usize>::empty().push(callback_id)
    &&& rec.parent is None
    &&& !rec.resolved
    &&& rec.result is NotReady
}

/// The shape of the resolve-callback receipt the setup step registers.
pub open spec fn callback_receipt_shape(
    rec: crate::host::Receipt,
    current_account: Seq<u8>,
    token: Seq<u8>,
    root_id: usize,
) -> bool {
    &&& rec.receiver_id.bytes@ == current_account
    &&& rec.method_name@ == resolve_method()
    &&& rec.arguments@ == token
    &&& rec.deposit == 0
    &&& rec.gas == RESOLVE_GAS_THRESHOLD
    &&& rec.callbacks@ == Seq::<usize>::empty()
    &&& rec.parent == Some(root_id)
    &&& !rec.resolved
    &&& rec.result is NotReady
}

/// The receiver's answer keeps the token.
pub open spec fn keeps(response: ReceiverResponse) -> bool {
    response is KeepNow || response is KeepLater
}

/// The receiver's answer asks for the token back.
pub open spec fn returns_token(response: ReceiverResponse) -> bool {
    response is ReturnNow || response is ReturnLater
}

/// The receiver schedules a follow-up receipt before answering.
pub open spec fn deferred_response(response: ReceiverResponse) -> bool {
    response is KeepLater || response is ReturnLater
}

/// Runs the simulated receiver against its notification receipt and
/// resolves that receipt with the receiver's answer: a successful empty
/// response for "keep" (logging the receiver's acknowledgment), a
/// successful non-empty response for "return", or a failure when the
/// handler aborts (in which case the frame's own logs are discarded, so
/// nothing is logged). The deferred variants first schedule a follow-up
/// receipt of the receiver's own, showing the resolution path does not
/// depend on call depth.
pub fn run_receiver(host: &mut MockedHost, root_id: usize, response: ReceiverResponse)
    requires
        old(host).wf(),
        !old(host).context.is_view,
        root_id < old(host).receipts@.len(),
        !old(host).receipts@[root_id as int].resolved,
        old(host).receipts@[root_id as int].receiver_id.bytes@.len() > 0,
    ensures
        final(host).wf(),
        crate::host::same_but_resolution(
            old(host).receipts@[root_id as int],
            final(host).receipts@[root_id as int],
        ),
        final(host).receipts@[root_id as int].resolved,
        keeps(response) ==> keep_signal(final(host).receipts@[root_id as int].result),
        returns_token(response) ==> return_signal(final(host).receipts@[root_id as int].result),
        response is Abort ==> final(host).receipts@[root_id as int].result is Failed,
        keeps(response) ==> final(host).logs@.len() == old(host).logs@.len() + 1 && final(host).logs@.subrange(
            0,
            old(host).logs@.len() as int,
        ) == old(host).logs@ && final(host).logs@.last()@ == ack_log_message(),
        !keeps(response) ==> final(host).logs@ == old(host).logs@,
        deferred_response(response) ==> final(host).receipts@.len() == old(host).receipts@.len() + 1,
        deferred_response(response) ==> final(host).receipts@.last().receiver_id.bytes@ == old(host).receipts@[root_id as int].receiver_id.bytes@ && final(host).receipts@.last().method_name@
            == deferred_method() && final(host).receipts@.last().parent is None && !final(host).receipts@.last().resolved,
        !deferred_response(response) ==> final(host).receipts@.len() == old(host).receipts@.len(),
        forall|j: int|
            0 <= j < old(host).receipts@.len() && j != root_id as int ==> final(host).receipts@[j] == old(host).receipts@[j],
        final(host).storage@ == old(host).storage@,
        final(host).context == old(host).context,
        final(host).remaining_deposit == old(host).remaining_deposit,
        final(host).remaining_gas == old(host).remaining_gas,
{
    let deferred = match response {
        ReceiverResponse::KeepLater | ReceiverResponse::ReturnLater => true,
        _ => false,
    };
    if deferred {
        let target = host.receipts[root_id].receiver_id.clone_id();
        match host.create_receipt(target, "on_deferred_response".to_owned(), Vec::new(), 0, 0) {
            Ok(_) => {},
            Err(_) => unreached(),
        }
    }
    let answer = match response {
        ReceiverResponse::KeepNow | ReceiverResponse::KeepLater => {
            host.log("receiver acknowledged the token".to_owned());
            PromiseResult::Successful(Vec::new())
        },
        ReceiverResponse::ReturnNow | ReceiverResponse::ReturnLater => {
            let mut payload: Vec<u8> = Vec::new();
            payload.push(1u8);
            PromiseResult::Successful(payload)
        },
        ReceiverResponse::Abort => PromiseResult::Failed,
    };
    match host.resolve_receipt(root_id, answer) {
        Ok(_) => {},
        Err(_) => unreached(),
    }
}

/// The resolve callback: reads the outcome its parent (the notification
/// receipt) reported and finalizes the transfer. A "keep" answer leaves
/// ownership with the receiver and logs nothing further. A "return" answer
/// reverses ownership to `original_owner`, logging one reversal — an
/// ownership-change log of the same shape as the original transfer's. An
/// aborted receiver is treated as "return", with one further notice log
/// first. Returns whether ownership was reversed, and resolves the
/// callback receipt itself, so it too fires at most once.
pub fn nft_resolve_transfer(
    host: &mut MockedHost,
    token_id: Vec<u8>,
    original_owner: &AccountId,
    callback_id: usize,
) -> (returned: bool)
    requires
        old(host).wf(),
        !old(host).context.is_view,
        callback_id < old(host).receipts@.len(),
        !old(host).receipts@[callback_id as int].resolved,
        old(host).receipts@[callback_id as int].parent matches Some(p)
            && old(host).receipts@[p as int].resolved
            && !(old(host).receipts@[p as int].result is NotReady),
    ensures
        final(host).wf(),
        ({
            let parent = old(host).receipts@[callback_id as int].parent.unwrap() as int;
            let outcome = old(host).receipts@[parent].result;
            &&& (keep_signal(outcome) ==> !returned && final(host).storage@ == old(host).storage@
                && final(host).logs@ == old(host).logs@)
            &&& (return_signal(outcome) ==> returned && stored_owner(*final(host), token_id@)
                == Some(original_owner.bytes@) && final(host).logs@.len() == old(host).logs@.len() + 1 && final(host).logs@.subrange(0, old(host).logs@.len() as int)
                == old(host).logs@ && final(host).logs@.last()@ == transfer_log_message())
            &&& (outcome is Failed ==> returned && stored_owner(*final(host), token_id@)
                == Some(original_owner.bytes@) && final(host).logs@.len() == old(host).logs@.len() + 2 && final(host).logs@.subrange(0, old(host).logs@.len() as int)
                == old(host).logs@ && final(host).logs@[old(host).logs@.len() as int]@
                == notice_log_message() && final(host).logs@.last()@ == transfer_log_message())
            &&& (returned ==> forall|k: Seq<u8>|
                k != token_id@ ==> slot_of(final(host).storage@, k) == slot_of(
                    old(host).storage@,
                    k,
                ))
        }),
        final(host).receipts@.len() == old(host).receipts@.len(),
        crate::host::same_but_resolution(
            old(host).receipts@[callback_id as int],
            final(host).receipts@[callback_id as int],
        ),
        final(host).receipts@[callback_id as int].resolved,
        forall|j: int|
            0 <= j < old(host).receipts@.len() && j != callback_id as int ==> final(host).receipts@[j] == old(host).receipts@[j],
        final(host).context == old(host).context,
        final(host).remaining_deposit == old(host).remaining_deposit,
        final(host).remaining_gas == old(host).remaining_gas,
{
    let parent_id: usize = match host.receipts[callback_id].parent {
        Some(p) => p,
        None => unreached(),
    };
    proof {
        assert(crate::host::receipt_wf_at(host.receipts@, callback_id as int));
    }
    let (keep, failed): (bool, bool) = match &host.receipts[parent_id].result {
        PromiseResult::NotReady => unreached(),
        PromiseResult::Successful(d) => (d.len() == 0, false),
        PromiseResult::Failed => (false, true),
    };
    if failed {
        host.log("receiver aborted, returning the token".to_owned());
    }
    if !keep {
        host.write_storage(token_id, clone_bytes(&original_owner.bytes));
        log_ownership_change(host);
    }
    match host.resolve_receipt(callback_id, PromiseResult::Successful(Vec::new())) {
        Ok(_) => {},
        Err(_) => unreached(),
    }
    !keep
}

/// Runs one whole transfer-and-call flow: validation and commit, the
/// receiver's notification, and the resolve callback, in order. The
/// returned phase says how the flow ended:
///
/// - a "keep" answer ends in `ResolvedKeep` — ownership stays with the
///   receiver, and the logs grew by the ownership change plus the
///   receiver's acknowledgment;
/// - a "return" answer, immediate or deferred, ends in `ResolvedReturn` —
///   ownership is back with the sender, and the logs grew by the ownership
///   change plus its reversal;
/// - an aborting receiver ends in `ResolvedPanicKeep` — ownership is back
///   with the sender, and the logs grew by the ownership change, the
///   abort notice, and the reversal.
///
/// Any validation failure — including gas below the resolve-callback
/// threshold, with which the flow could never finish — reports an error
/// with nothing committed and nothing logged.
pub fn execute_transfer_call(
    host: &mut MockedHost,
    token_id: Vec<u8>,
    sender_id: &AccountId,
    receiver_id: &AccountId,
    deposit: u128,
    gas: u64,
    msg: Vec<u8>,
    response: ReceiverResponse,
) -> (r: Result<TransferPhase, TransferError>)
    requires
        old(host).wf(),
        !old(host).context.is_view,
        old(host).context.current_account_id.bytes@.len() > 0,
    ensures
        final(host).wf(),
        r is Err <==> transfer_call_validation_error(
            *old(host),
            token_id@,
            sender_id.bytes@,
            receiver_id.bytes@,
            deposit,
            gas,
        ) is Some,
        r matches Err(e) ==> Some(e) == transfer_call_validation_error(
            *old(host),
            token_id@,
            sender_id.bytes@,
            receiver_id.bytes@,
            deposit,
            gas,
        ) && *final(host) == *old(host),
        r matches Ok(phase) ==> (phase is ResolvedKeep <==> keeps(response)) && (
        phase is ResolvedReturn <==> returns_token(response)) && (
        phase is ResolvedPanicKeep <==> response is Abort),
        r is Ok && keeps(response) ==> stored_owner(*final(host), token_id@) == Some(
            receiver_id.bytes@,
        ),
        r is Ok && !keeps(response) ==> stored_owner(*final(host), token_id@) == Some(
            sender_id.bytes@,
        ),
        r is Ok ==> forall|k: Seq<u8>|
            k != token_id@ ==> slot_of(final(host).storage@, k) == slot_of(
                old(host).storage@,
                k,
            ),
        r is Ok ==> final(host).logs@.subrange(0, old(host).logs@.len() as int) == old(host).logs@,
        r is Ok && response is Abort ==> final(host).logs@.len() == old(host).logs@.len() + 3,
        r is Ok && !(response is Abort) ==> final(host).logs@.len() == old(host).logs@.len() + 2,
        r is Ok ==> final(host).logs@[old(host).logs@.len() as int]@ == transfer_log_message(),
        r is Ok && keeps(response) ==> final(host).logs@[old(host).logs@.len() as int + 1]@
            == ack_log_message(),
        r is Ok && returns_token(response) ==> final(host).logs@[old(host).logs@.len() as int + 1]@
            == transfer_log_message(),
        r is Ok && response is Abort ==> final(host).logs@[old(host).logs@.len() as int + 1]@
            == notice_log_message() && final(host).logs@[old(host).logs@.len() as int + 2]@
            == transfer_log_message(),
        r is Ok && deferred_response(response) ==> final(host).receipts@.len() == old(host).receipts@.len() + 3,
        r is Ok && !deferred_response(response) ==> final(host).receipts@.len() == old(host).receipts@.len() + 2,
        r is Ok ==> final(host).receipts@[old(host).receipts@.len() as int].resolved && final(host).receipts@[old(host).receipts@.len() as int + 1].resolved,
        r is Ok ==> forall|j: int|
            0 <= j < old(host).receipts@.len() ==> final(host).receipts@[j] == old(host).receipts@[j],
        final(host).context == old(host).context,
        r is Ok ==> final(host).remaining_gas == old(host).remaining_gas - gas,
        final(host).remaining_deposit == old(host).remaining_deposit,
{
    let ghost logs0 = host.logs@;
    let resolve_token = clone_bytes(&token_id);
    let ids = match nft_transfer_call(host, token_id, sender_id, receiver_id, deposit, gas, msg) {
        Err(e) => {
            return Err(e);
        },
        Ok(ids) => ids,
    };
    let ghost host1 = *host;
    run_receiver(host, ids.0, response);
    proof {
        assert(host.receipts@[ids.1 as int] == host1.receipts@[ids.1 as int]);
    }
    let returned = nft_resolve_transfer(host, resolve_token, sender_id, ids.1);
    let phase = match response {
        ReceiverResponse::KeepNow | ReceiverResponse::KeepLater => TransferPhase::ResolvedKeep,
        ReceiverResponse::ReturnNow | ReceiverResponse::ReturnLater => TransferPhase::ResolvedReturn,
        ReceiverResponse::Abort => TransferPhase::ResolvedPanicKeep,
    };
    proof {
        assert(host.logs@.subrange(0, logs0.len() as int) =~= logs0);
    }
    Ok(phase)
}

} // verus!
