//! The mocked execution host: the mutable state a contract call can observe
//! and change. One host instance stands in for the validator's execution
//! environment during a single simulated invocation. It owns
//!
//! - a key/value storage table emulating the contract's durable trie,
//! - an append-only buffer of log strings,
//! - an arena of receipts (deferred cross-contract calls) forming a forest,
//!   each with its single-resolution mark, and
//! - the remaining deposit and gas budget of the installed context.

use vstd::prelude::*;
use crate::account::AccountId;
use crate::account::bytes_eq;
use crate::account::clone_bytes;
use crate::context::ExecutionContext;

verus! {

/// One key/value pair of the storage table.
pub struct StorageEntry {
    pub key: Vec<u8>,
    pub value: Vec<u8>,
}

/// The value stored under `key`, reading `entries` front to back.
pub open spec fn slot_of(entries: Seq<StorageEntry>, key: Seq<u8>) -> Option<Seq<u8>>
    decreases entries.len(),
{
    if entries.len() == 0 {
        None
    } else if entries[0].key@ == key {
        Some(entries[0].value@)
    } else {
        slot_of(entries.drop_first(), key)
    }
}

/// No two entries share a key, so the table is a mapping.
pub open spec fn keys_unique(entries: Seq<StorageEntry>) -> bool {
    forall|i: int, j: int|
        0 <= i < j < entries.len() ==> entries[i].key@ != entries[j].key@
}

/// Skipping a prefix of entries none of which holds `key` does not change
/// the lookup result.
proof fn lemma_slot_of_skip(entries: Seq<StorageEntry>, key: Seq<u8>, n: int)
    requires
        0 <= n <= entries.len(),
        forall|j: int| 0 <= j < n ==> entries[j].key@ != key,
    ensures
        slot_of(entries, key) == slot_of(entries.skip(n), key),
    decreases n,
{
    if n > 0 {
        lemma_slot_of_skip(entries, key, n - 1);
        assert(entries.skip(n - 1)[0] == entries[n - 1]);
        assert(entries.skip(n - 1).drop_first() =~= entries.skip(n));
    } else {
        assert(entries.skip(0) =~= entries);
    }
}

/// Replacing the first entry that holds a key rebinds that key and no other.
proof fn lemma_slot_of_update(entries: Seq<StorageEntry>, i: int, e: StorageEntry, key: Seq<u8>)
    requires
        0 <= i < entries.len(),
        e.key@ == entries[i].key@,
        forall|j: int| 0 <= j < i ==> entries[j].key@ != e.key@,
    ensures
        slot_of(entries.update(i, e), key) == (if key == e.key@ {
            Some(e.value@)
        } else {
            slot_of(entries, key)
        }),
    decreases i,
{
    let updated = entries.update(i, e);
    if i == 0 {
        assert(updated[0] == e);
        assert(updated.drop_first() =~= entries.drop_first());
    } else {
        assert(updated[0] == entries[0]);
        assert(updated.drop_first() =~= entries.drop_first().update(i - 1, e));
        lemma_slot_of_update(entries.drop_first(), i - 1, e, key);
    }
}

/// Appending an entry under a fresh key binds that key and no other.
proof fn lemma_slot_of_push(entries: Seq<StorageEntry>, e: StorageEntry, key: Seq<u8>)
    requires
        forall|j: int| 0 <= j < entries.len() ==> entries[j].key@ != e.key@,
    ensures
        slot_of(entries.push(e), key) == (if key == e.key@ {
            Some(e.value@)
        } else {
            slot_of(entries, key)
        }),
    decreases entries.len(),
{
    let pushed = entries.push(e);
    assert(pushed.len() == entries.len() + 1);
    if entries.len() == 0 {
        assert(pushed[0] == e);
        assert(pushed.drop_first() =~= Seq::<StorageEntry>::empty());
        if key == e.key@ {
            assert(slot_of(pushed, key) == Some(e.value@));
        } else {
            assert(slot_of(pushed, key) == slot_of(pushed.drop_first(), key));
            assert(slot_of(pushed, key) is None);
            assert(slot_of(entries, key) is None);
        }
    } else {
        assert(pushed[0] == entries[0]);
        assert(pushed.drop_first() =~= entries.drop_first().push(e));
        lemma_slot_of_push(entries.drop_first(), e, key);
        if pushed[0].key@ == key {
            assert(slot_of(pushed, key) == Some(entries[0].value@));
            assert(slot_of(entries, key) == Some(entries[0].value@));
            assert(entries[0].key@ != e.key@);
        } else {
            assert(slot_of(pushed, key) == slot_of(entries.drop_first().push(e), key));
            assert(slot_of(entries, key) == slot_of(entries.drop_first(), key));
        }
    }
}

/// The outcome of a resolved receipt, as seen by its callback receipts.
pub enum PromiseResult {
    /// The receipt has not reported an outcome yet.
    NotReady,
    /// The receipt finished and returned the given payload.
    Successful(Vec<u8>),
    /// The receipt's execution aborted.
    Failed,
}

/// A deferred cross-contract call recorded by the host. Receipts form a
/// forest: a root receipt owns an ordered list of callback receipts, each of
/// which runs only after its parent has reported a [`PromiseResult`].
pub struct Receipt {
    /// Account the call is addressed to.
    pub receiver_id: AccountId,
    /// Method to invoke on the receiver.
    pub method_name: String,
    /// Serialized call arguments.
    pub arguments: Vec<u8>,
    /// Token amount carried by the call, in minimal units.
    pub deposit: u128,
    /// Gas budget carried by the call.
    pub gas: u64,
    /// Arena indices of the callback receipts owned by this receipt, in
    /// creation order.
    pub callbacks: Vec<usize>,
    /// Arena index of the owning receipt, if this is a callback.
    pub parent: Option<usize>,
    /// Whether this receipt has already reported its outcome. A receipt
    /// resolves at most once.
    pub resolved: bool,
    /// The reported outcome; `NotReady` until `resolved` is set.
    pub result: PromiseResult,
}

/// Errors the host surfaces to the contract under test.
#[derive(Debug)]
pub enum HostError {
    /// A receipt named an empty receiver account.
    InvalidReceiver,
    /// A receipt asked for more deposit than remains unspent.
    DepositBudgetExceeded,
    /// A receipt asked for more gas than remains unspent.
    GasBudgetExceeded,
    /// A receipt index that the arena does not contain.
    UnknownReceipt,
    /// An attempt to resolve a receipt that has already resolved.
    AlreadyResolved,
    /// An attempt to resolve a receipt to the `NotReady` placeholder.
    NotAResolution,
}

/// The receipt at index `i` is well-formed within the arena: its parent
/// stands before it and its callbacks stand after it, all in bounds.
pub open spec fn receipt_wf_at(rs: Seq<Receipt>, i: int) -> bool {
    &&& (rs[i].parent matches Some(p) ==> p < i)
    &&& forall|c: int|
        0 <= c < rs[i].callbacks@.len() ==> i < #[trigger] rs[i].callbacks@[c] < rs.len()
}

/// Every receipt of the arena is well-formed, so the arena is a forest.
pub open spec fn receipts_wf(rs: Seq<Receipt>) -> bool {
    forall|i: int| 0 <= i < rs.len() ==> #[trigger] receipt_wf_at(rs, i)
}

/// Why a receipt request is rejected, if it is: empty receiver first, then
/// the deposit budget, then the gas budget.
pub open spec fn receipt_request_error(
    h: MockedHost,
    receiver: Seq<u8>,
    deposit: u128,
    gas: u64,
) -> Option<HostError> {
    if receiver.len() == 0 {
        Some(HostError::InvalidReceiver)
    } else if deposit > h.remaining_deposit {
        Some(HostError::DepositBudgetExceeded)
    } else if gas > h.remaining_gas {
        Some(HostError::GasBudgetExceeded)
    } else {
        None
    }
}

/// Why a callback request is rejected, if it is: an unknown parent first,
/// then as for a root receipt.
pub open spec fn callback_request_error(
    h: MockedHost,
    parent_id: usize,
    receiver: Seq<u8>,
    deposit: u128,
    gas: u64,
) -> Option<HostError> {
    if parent_id >= h.receipts@.len() {
        Some(HostError::UnknownReceipt)
    } else {
        receipt_request_error(h, receiver, deposit, gas)
    }
}

/// The shape of a freshly created root receipt.
pub open spec fn new_root_receipt(
    nr: Receipt,
    receiver_id: AccountId,
    method_name: String,
    arguments: Vec<u8>,
    deposit: u128,
    gas: u64,
) -> bool {
    &&& nr.receiver_id == receiver_id
    &&& nr.method_name == method_name
    &&& nr.arguments == arguments
    &&& nr.deposit == deposit
    &&& nr.gas == gas
    &&& nr.callbacks@ == Seq::<usize>::empty()
    &&& nr.parent is None
    &&& !nr.resolved
    &&& nr.result is NotReady
}

/// The shape of a freshly created callback receipt.
pub open spec fn new_callback_receipt(
    nr: Receipt,
    parent_id: usize,
    receiver_id: AccountId,
    method_name: String,
    arguments: Vec<u8>,
    deposit: u128,
    gas: u64,
) -> bool {
    &&& nr.receiver_id == receiver_id
    &&& nr.method_name == method_name
    &&& nr.arguments == arguments
    &&& nr.deposit == deposit
    &&& nr.gas == gas
    &&& nr.callbacks@ == Seq::<usize>::empty()
    &&& nr.parent == Some(parent_id)
    &&& !nr.resolved
    &&& nr.result is NotReady
}

/// The two receipts agree on everything but their callback list.
pub open spec fn same_but_callbacks(a: Receipt, b: Receipt) -> bool {
    &&& a.receiver_id == b.receiver_id
    &&& a.method_name == b.method_name
    &&& a.arguments == b.arguments
    &&& a.deposit == b.deposit
    &&& a.gas == b.gas
    &&& a.parent == b.parent
    &&& a.resolved == b.resolved
    &&& a.result == b.result
}

/// The two receipts agree on everything but their resolution state.
pub open spec fn same_but_resolution(a: Receipt, b: Receipt) -> bool {
    &&& a.receiver_id == b.receiver_id
    &&& a.method_name == b.method_name
    &&& a.arguments == b.arguments
    &&& a.deposit == b.deposit
    &&& a.gas == b.gas
    &&& a.callbacks@ == b.callbacks@
    &&& a.parent == b.parent
}

/// Resolving receipt `id` of `h` is still permitted: the receipt exists and
/// has not resolved yet.
pub open spec fn resolution_permitted(h: MockedHost, id: int) -> bool {
    &&& 0 <= id < h.receipts@.len()
    &&& !h.receipts@[id].resolved
}

/// The state change a successful resolution of receipt `id` makes: that
/// receipt is marked resolved, carrying `result`, and nothing else of the
/// host changes.
pub open spec fn resolve_transition(
    pre: MockedHost,
    post: MockedHost,
    id: int,
    result: PromiseResult,
) -> bool {
    &&& 0 <= id < pre.receipts@.len()
    &&& post.receipts@.len() == pre.receipts@.len()
    &&& same_but_resolution(pre.receipts@[id], post.receipts@[id])
    &&& post.receipts@[id].resolved
    &&& post.receipts@[id].result == result
    &&& forall|j: int|
        0 <= j < pre.receipts@.len() && j != id ==> post.receipts@[j] == pre.receipts@[j]
    &&& post.storage@ == pre.storage@
    &&& post.logs@ == pre.logs@
    &&& post.context == pre.context
    &&& post.remaining_deposit == pre.remaining_deposit
    &&& post.remaining_gas == pre.remaining_gas
}

/// Single-resolution invariant: a resolution that succeeds leaves its
/// receipt marked resolved, so the state it produces no longer permits
/// resolving that receipt. Together with `resolve_receipt`'s contract —
/// `Ok` exactly when resolution is still permitted — each receipt fires at
/// most once.
pub proof fn lemma_single_resolution(
    pre: MockedHost,
    post: MockedHost,
    id: int,
    result: PromiseResult,
)
    requires
        resolve_transition(pre, post, id, result),
    ensures
        !resolution_permitted(post, id),
{
}

/// The two promise results agree, comparing payloads by content.
pub open spec fn promise_result_like(a: PromiseResult, b: PromiseResult) -> bool {
    match (a, b) {
        (PromiseResult::NotReady, PromiseResult::NotReady) => true,
        (PromiseResult::Successful(x), PromiseResult::Successful(y)) => x@ == y@,
        (PromiseResult::Failed, PromiseResult::Failed) => true,
        _ => false,
    }
}

/// The two receipts agree on every field, comparing buffers by content.
pub open spec fn receipt_like(a: Receipt, b: Receipt) -> bool {
    &&& a.receiver_id.bytes@ == b.receiver_id.bytes@
    &&& a.method_name@ == b.method_name@
    &&& a.arguments@ == b.arguments@
    &&& a.deposit == b.deposit
    &&& a.gas == b.gas
    &&& a.callbacks@ == b.callbacks@
    &&& a.parent == b.parent
    &&& a.resolved == b.resolved
    &&& promise_result_like(a.result, b.result)
}

/// Returns a copy of a promise result.
pub fn clone_promise_result(p: &PromiseResult) -> (r: PromiseResult)
    ensures
        promise_result_like(*p, r),
{
    match p {
        PromiseResult::NotReady => PromiseResult::NotReady,
        PromiseResult::Successful(data) => PromiseResult::Successful(clone_bytes(data)),
        PromiseResult::Failed => PromiseResult::Failed,
    }
}

/// Returns a copy of a receipt.
pub fn clone_receipt(r: &Receipt) -> (c: Receipt)
    ensures
        receipt_like(*r, c),
{
    Receipt {
        receiver_id: r.receiver_id.clone_id(),
        method_name: r.method_name.clone(),
        arguments: clone_bytes(&r.arguments),
        deposit: r.deposit,
        gas: r.gas,
        callbacks: vstd::slice::slice_to_vec(r.callbacks.as_slice()),
        parent: r.parent,
        resolved: r.resolved,
        result: clone_promise_result(&r.result),
    }
}

/// The mocked execution host for one simulated invocation.
pub struct MockedHost {
    /// The installed execution context.
    pub context: ExecutionContext,
    /// The contract's durable key/value table.
    pub storage: Vec<StorageEntry>,
    /// Log strings emitted so far, in call order.
    pub logs: Vec<String>,
    /// Receipts created so far, in creation order.
    pub receipts: Vec<Receipt>,
    /// Deposit from the context not yet attached to a receipt.
    pub remaining_deposit: u128,
    /// Gas from the context not yet attached to a receipt.
    pub remaining_gas: u64,
}

impl MockedHost {
    /// The host invariant: the storage table is a mapping and the receipt
    /// arena is a forest.
    pub open spec fn wf(self) -> bool {
        &&& keys_unique(self.storage@)
        &&& receipts_wf(self.receipts@)
    }

    /// Installs a context, starting a fresh simulated invocation. Log and
    /// receipt state of any earlier invocation is discarded; `storage` is
    /// carried in (pass an empty table for an independent instance).
    pub fn install(context: ExecutionContext, storage: Vec<StorageEntry>) -> (h: MockedHost)
        requires
            keys_unique(storage@),
        ensures
            h.wf(),
            h.context == context,
            h.storage@ == storage@,
            h.logs@ == Seq::<String>::empty(),
            h.receipts@ == Seq::<Receipt>::empty(),
            h.remaining_deposit == context.attached_deposit,
            h.remaining_gas == context.prepaid_gas,
    {
        let remaining_deposit = context.attached_deposit;
        let remaining_gas = context.prepaid_gas;
        MockedHost {
            context,
            storage,
            logs: Vec::new(),
            receipts: Vec::new(),
            remaining_deposit,
            remaining_gas,
        }
    }

    /// Installs a context over an empty storage table.
    pub fn new(context: ExecutionContext) -> (h: MockedHost)
        ensures
            h.wf(),
            h.context == context,
            h.storage@ == Seq::<StorageEntry>::empty(),
            h.logs@ == Seq::<String>::empty(),
            h.receipts@ == Seq::<Receipt>::empty(),
            h.remaining_deposit == context.attached_deposit,
            h.remaining_gas == context.prepaid_gas,
    {
        Self::install(context, Vec::new())
    }

    /// Returns the value stored under `key`, or `None` if the key is absent.
    /// No side effect.
    pub fn read_storage(&self, key: &Vec<u8>) -> (r: Option<Vec<u8>>)
        ensures
            match r {
                Some(v) => slot_of(self.storage@, key@) == Some(v@),
                None => slot_of(self.storage@, key@) is None,
            },
    {
        let mut i: usize = 0;
        while i < self.storage.len()
            invariant
                i <= self.storage@.len(),
                forall|j: int| 0 <= j < i ==> self.storage@[j].key@ != key@,
            decreases self.storage@.len() - i,
        {
            if bytes_eq(&self.storage[i].key, key) {
                let v = clone_bytes(&self.storage[i].value);
                proof {
                    lemma_slot_of_skip(self.storage@, key@, i as int);
                    assert(self.storage@.skip(i as int)[0] == self.storage@[i as int]);
                }
                return Some(v);
            }
            i += 1;
        }
        proof {
            lemma_slot_of_skip(self.storage@, key@, self.storage@.len() as int);
            assert(self.storage@.skip(self.storage@.len() as int) =~= Seq::<StorageEntry>::empty());
        }
        None
    }

    /// Binds `key` to `value`, returning the previous value if the key was
    /// bound. Every other key keeps its binding. Prohibited in view calls.
    pub fn write_storage(&mut self, key: Vec<u8>, value: Vec<u8>) -> (prev: Option<Vec<u8>>)
        requires
            old(self).wf(),
            !old(self).context.is_view,
        ensures
            final(self).wf(),
            slot_of(final(self).storage@, key@) == Some(value@),
            forall|k: Seq<u8>|
                k != key@ ==> slot_of(final(self).storage@, k) == slot_of(old(self).storage@, k),
            match prev {
                Some(v) => slot_of(old(self).storage@, key@) == Some(v@),
                None => slot_of(old(self).storage@, key@) is None,
            },
            final(self).logs@ == old(self).logs@,
            final(self).receipts@ == old(self).receipts@,
            final(self).context == old(self).context,
            final(self).remaining_deposit == old(self).remaining_deposit,
            final(self).remaining_gas == old(self).remaining_gas,
    {
        let ghost key_view = key@;
        let ghost old_entries = self.storage@;
        let mut i: usize = 0;
        while i < self.storage.len()
            invariant
                i <= self.storage@.len(),
                *self == *old(self),
                old(self).wf(),
                !old(self).context.is_view,
                old_entries == self.storage@,
                forall|j: int| 0 <= j < i ==> old_entries[j].key@ != key_view,
                key@ == key_view,
            decreases self.storage@.len() - i,
        {
            if bytes_eq(&self.storage[i].key, &key) {
                let prev = clone_bytes(&self.storage[i].value);
                let entry = StorageEntry { key, value };
                self.storage[i] = entry;
                proof {
                    lemma_slot_of_skip(old_entries, key_view, i as int);
                    assert(old_entries.skip(i as int)[0] == old_entries[i as int]);
                    assert(self.storage@ == old_entries.update(i as int, entry));
                    assert(entry.key@ == old_entries[i as int].key@);
                    lemma_slot_of_update(old_entries, i as int, entry, key_view);
                    assert forall|k: Seq<u8>| k != key_view implies slot_of(
                        self.storage@,
                        k,
                    ) == slot_of(old_entries, k) by {
                        lemma_slot_of_update(old_entries, i as int, entry, k);
                    }
                    assert forall|m: int, n: int|
                        0 <= m < n < self.storage@.len() implies self.storage@[m].key@
                        != self.storage@[n].key@ by {
                        assert(keys_unique(old_entries));
                        assert(old_entries[m].key@ != old_entries[n].key@);
                        if m == i as int {
                            assert(self.storage@[m] == entry);
                        }
                        if n == i as int {
                            assert(self.storage@[n] == entry);
                        }
                        assert(self.storage@[m].key@ == old_entries[m].key@);
                        assert(self.storage@[n].key@ == old_entries[n].key@);
                    }
                }
                return Some(prev);
            }
            i += 1;
        }
        proof {
            lemma_slot_of_skip(old_entries, key_view, old_entries.len() as int);
            assert(old_entries.skip(old_entries.len() as int) =~= Seq::<StorageEntry>::empty());
        }
        let entry = StorageEntry { key, value };
        self.storage.push(entry);
        proof {
            lemma_slot_of_push(old_entries, entry, key_view);
            assert forall|k: Seq<u8>| k != key_view implies slot_of(self.storage@, k) == slot_of(
                old_entries,
                k,
            ) by {
                lemma_slot_of_push(old_entries, entry, k);
            }
            assert forall|m: int, n: int|
                0 <= m < n < self.storage@.len() implies self.storage@[m].key@
                != self.storage@[n].key@ by {
                if n < old_entries.len() {
                    assert(self.storage@[m].key@ == old_entries[m].key@);
                    assert(self.storage@[n].key@ == old_entries[n].key@);
                } else {
                    assert(self.storage@[m].key@ == old_entries[m].key@);
                    assert(self.storage@[n].key@ == entry.key@);
                }
            }
        }
        None
    }

    /// Appends a message to the log buffer. Logs are never reordered or
    /// dropped within one invocation.
    pub fn log(&mut self, message: String)
        ensures
            final(self).logs@ == old(self).logs@.push(message),
            final(self).storage@ == old(self).storage@,
            final(self).receipts@ == old(self).receipts@,
            final(self).context == old(self).context,
            final(self).remaining_deposit == old(self).remaining_deposit,
            final(self).remaining_gas == old(self).remaining_gas,
    {
        self.logs.push(message);
    }

    /// Registers a new root receipt and returns its arena index. Fails if
    /// the receiver is empty or the receipt asks for more deposit or gas
    /// than remains unspent in the installed context's budget. Prohibited in
    /// view calls.
    pub fn create_receipt(
        &mut self,
        receiver_id: AccountId,
        method_name: String,
        arguments: Vec<u8>,
        deposit: u128,
        gas: u64,
    ) -> (r: Result<usize, HostError>)
        requires
            old(self).wf(),
            !old(self).context.is_view,
        ensures
            final(self).wf(),
            r is Err <==> receipt_request_error(
                *old(self),
                receiver_id.bytes@,
                deposit,
                gas,
            ) is Some,
            r matches Err(e) ==> receipt_request_error(*old(self), receiver_id.bytes@, deposit, gas)
                == Some(e) && *final(self) == *old(self),
            r matches Ok(id) ==> id == old(self).receipts@.len(),
            r is Ok ==> final(self).receipts@.len() == old(self).receipts@.len() + 1,
            r is Ok ==> new_root_receipt(
                final(self).receipts@.last(),
                receiver_id,
                method_name,
                arguments,
                deposit,
                gas,
            ),
            r is Ok ==> forall|j: int|
                0 <= j < old(self).receipts@.len() ==> final(self).receipts@[j] == old(self).receipts@[j],
            r is Ok ==> final(self).remaining_deposit == old(self).remaining_deposit - deposit,
            r is Ok ==> final(self).remaining_gas == old(self).remaining_gas - gas,
            final(self).storage@ == old(self).storage@,
            final(self).logs@ == old(self).logs@,
            final(self).context == old(self).context,
    {
        if receiver_id.bytes.len() == 0 {
            return Err(HostError::InvalidReceiver);
        }
        if deposit > self.remaining_deposit {
            return Err(HostError::DepositBudgetExceeded);
        }
        if gas > self.remaining_gas {
            return Err(HostError::GasBudgetExceeded);
        }
        let id = self.receipts.len();
        self.remaining_deposit = self.remaining_deposit - deposit;
        self.remaining_gas = self.remaining_gas - gas;
        self.receipts.push(
            Receipt {
                receiver_id,
                method_name,
                arguments,
                deposit,
                gas,
                callbacks: Vec::new(),
                parent: None,
                resolved: false,
                result: PromiseResult::NotReady,
            },
        );
        proof {
            assert forall|i2: int| 0 <= i2 < self.receipts@.len() implies receipt_wf_at(
                self.receipts@,
                i2,
            ) by {
                if i2 < old(self).receipts@.len() {
                    assert(receipt_wf_at(old(self).receipts@, i2));
                    assert(self.receipts@[i2] == old(self).receipts@[i2]);
                    assert forall|c: int|
                        0 <= c < self.receipts@[i2].callbacks@.len() implies i2 < #[trigger] self.receipts@[i2].callbacks@[c] < self.receipts@.len() by {
                        assert(i2 < old(self).receipts@[i2].callbacks@[c] < old(self).receipts@.len());
                    }
                }
            }
        }
        Ok(id)
    }

    /// Registers a callback receipt owned by `parent_id`: it will run only
    /// after its parent has reported a [`PromiseResult`]. Fails like
    /// [`Self::create_receipt`], and also when `parent_id` names no receipt.
    /// Prohibited in view calls.
    pub fn create_callback_receipt(
        &mut self,
        parent_id: usize,
        receiver_id: AccountId,
        method_name: String,
        arguments: Vec<u8>,
        deposit: u128,
        gas: u64,
    ) -> (r: Result<usize, HostError>)
        requires
            old(self).wf(),
            !old(self).context.is_view,
        ensures
            final(self).wf(),
            r is Err <==> callback_request_error(
                *old(self),
                parent_id,
                receiver_id.bytes@,
                deposit,
                gas,
            ) is Some,
            r matches Err(e) ==> callback_request_error(
                *old(self),
                parent_id,
                receiver_id.bytes@,
                deposit,
                gas,
            ) == Some(e) && *final(self) == *old(self),
            r matches Ok(id) ==> id == old(self).receipts@.len(),
            r is Ok ==> final(self).receipts@.len() == old(self).receipts@.len() + 1,
            r is Ok ==> new_callback_receipt(
                final(self).receipts@.last(),
                parent_id,
                receiver_id,
                method_name,
                arguments,
                deposit,
                gas,
            ),
            r is Ok ==> same_but_callbacks(
                old(self).receipts@[parent_id as int],
                final(self).receipts@[parent_id as int],
            ),
            r is Ok ==> final(self).receipts@[parent_id as int].callbacks@ == old(self).receipts@[parent_id as int].callbacks@.push(old(self).receipts@.len() as usize),
            r is Ok ==> forall|j: int|
                0 <= j < old(self).receipts@.len() && j != parent_id as int ==> final(self).receipts@[j] == old(self).receipts@[j],
            r is Ok ==> final(self).remaining_deposit == old(self).remaining_deposit - deposit,
            r is Ok ==> final(self).remaining_gas == old(self).remaining_gas - gas,
            final(self).storage@ == old(self).storage@,
            final(self).logs@ == old(self).logs@,
            final(self).context == old(self).context,
    {
        if parent_id >= self.receipts.len() {
            return Err(HostError::UnknownReceipt);
        }
        if receiver_id.bytes.len() == 0 {
            return Err(HostError::InvalidReceiver);
        }
        if deposit > self.remaining_deposit {
            return Err(HostError::DepositBudgetExceeded);
        }
        if gas > self.remaining_gas {
            return Err(HostError::GasBudgetExceeded);
        }
        let id = self.receipts.len();
        self.remaining_deposit = self.remaining_deposit - deposit;
        self.remaining_gas = self.remaining_gas - gas;
        self.receipts.push(
            Receipt {
                receiver_id,
                method_name,
                arguments,
                deposit,
                gas,
                callbacks: Vec::new(),
                parent: Some(parent_id),
                resolved: false,
                result: PromiseResult::NotReady,
            },
        );
        let ghost mid = self.receipts@;
        let parent_ref = &mut self.receipts[parent_id];
        parent_ref.callbacks.push(id);
        proof {
            let rs = self.receipts@;
            let olds = old(self).receipts@;
            assert(rs == mid.update(parent_id as int, rs[parent_id as int]));
            assert forall|i2: int| 0 <= i2 < rs.len() implies receipt_wf_at(rs, i2) by {
                if i2 == parent_id as int {
                    assert(receipt_wf_at(olds, i2));
                    assert(rs[i2].callbacks@ == olds[i2].callbacks@.push(id));
                    assert forall|c: int| 0 <= c < rs[i2].callbacks@.len() implies i2
                        < #[trigger] rs[i2].callbacks@[c] < rs.len() by {
                        if c < olds[i2].callbacks@.len() {
                            assert(rs[i2].callbacks@[c] == olds[i2].callbacks@[c]);
                            assert(i2 < olds[i2].callbacks@[c] < olds.len());
                        } else {
                            assert(rs[i2].callbacks@[c] == id);
                        }
                    }
                } else if i2 == id as int {
                    assert(rs[i2] == mid[i2]);
                    assert(rs[i2].callbacks@.len() == 0);
                    assert(rs[i2].parent == Some(parent_id));
                } else {
                    assert(receipt_wf_at(olds, i2));
                    assert(rs[i2] == olds[i2]);
                    assert forall|c: int|
                        0 <= c < rs[i2].callbacks@.len() implies i2 < #[trigger] rs[i2].callbacks@[c]
                        < rs.len() by {
                        assert(i2 < olds[i2].callbacks@[c] < olds.len());
                    }
                }
            }
        }
        Ok(id)
    }

    /// Records the outcome of receipt `id`. A receipt resolves at most once:
    /// resolving an already-resolved receipt is rejected and changes
    /// nothing. `NotReady` is not an outcome and is likewise rejected.
    pub fn resolve_receipt(&mut self, id: usize, result: PromiseResult) -> (r: Result<
        (),
        HostError,
    >)
        requires
            old(self).wf(),
        ensures
            final(self).wf(),
            r is Ok <==> resolution_permitted(*old(self), id as int) && !(result is NotReady),
            r is Ok ==> resolve_transition(*old(self), *final(self), id as int, result),
            r is Err ==> *final(self) == *old(self),
            r matches Err(e) ==> (if id >= old(self).receipts@.len() {
                e is UnknownReceipt
            } else if old(self).receipts@[id as int].resolved {
                e is AlreadyResolved
            } else {
                e is NotAResolution
            }),
    {
        if id >= self.receipts.len() {
            return Err(HostError::UnknownReceipt);
        }
        if self.receipts[id].resolved {
            return Err(HostError::AlreadyResolved);
        }
        match &result {
            PromiseResult::NotReady => {
                return Err(HostError::NotAResolution);
            },
            _ => {},
        }
        let ghost olds = self.receipts@;
        let rec = &mut self.receipts[id];
        rec.resolved = true;
        rec.result = result;
        proof {
            let rs = self.receipts@;
            assert(rs == olds.update(id as int, rs[id as int]));
            assert forall|i2: int| 0 <= i2 < rs.len() implies receipt_wf_at(rs, i2) by {
                assert(receipt_wf_at(olds, i2));
                assert(rs[i2].callbacks@ == olds[i2].callbacks@);
                assert(rs[i2].parent == olds[i2].parent);
                assert forall|c: int|
                    0 <= c < rs[i2].callbacks@.len() implies i2 < #[trigger] rs[i2].callbacks@[c]
                    < rs.len() by {
                    assert(i2 < olds[i2].callbacks@[c] < olds.len());
                }
            }
        }
        Ok(())
    }

    /// Returns a copy of the log buffer.
    pub fn get_logs(&self) -> (r: Vec<String>)
        ensures
            r.deep_view() == self.logs.deep_view(),
    {
        let mut r: Vec<String> = Vec::new();
        let mut i: usize = 0;
        while i < self.logs.len()
            invariant
                i <= self.logs@.len(),
                r@.len() == i,
                forall|j: int| 0 <= j < i ==> #[trigger] r@[j]@ == self.logs@[j]@,
            decreases self.logs@.len() - i,
        {
            r.push(self.logs[i].clone());
            i += 1;
        }
        proof {
            assert(r.deep_view() =~= self.logs.deep_view());
        }
        r
    }

    /// Returns a copy of the receipts created so far, in creation order.
    pub fn get_created_receipts(&self) -> (r: Vec<Receipt>)
        ensures
            r@.len() == self.receipts@.len(),
            forall|i: int| 0 <= i < r@.len() ==> receipt_like(self.receipts@[i], #[trigger] r@[i]),
    {
        let mut r: Vec<Receipt> = Vec::new();
        let mut i: usize = 0;
        while i < self.receipts.len()
            invariant
                i <= self.receipts@.len(),
                r@.len() == i,
                forall|j: int|
                    0 <= j < i ==> receipt_like(self.receipts@[j], #[trigger] r@[j]),
            decreases self.receipts@.len() - i,
        {
            r.push(clone_receipt(&self.receipts[i]));
            i += 1;
        }
        r
    }

    /// Extracts the storage table, leaving the host's own table empty; used
    /// to carry state into the next installed context, or to reset it.
    pub fn take_storage(&mut self) -> (s: Vec<StorageEntry>)
        ensures
            s@ == old(self).storage@,
            final(self).storage@ == Seq::<StorageEntry>::empty(),
            final(self).logs@ == old(self).logs@,
            final(self).receipts@ == old(self).receipts@,
            final(self).context == old(self).context,
            final(self).remaining_deposit == old(self).remaining_deposit,
            final(self).remaining_gas == old(self).remaining_gas,
    {
        let mut s: Vec<StorageEntry> = Vec::new();
        core::mem::swap(&mut self.storage, &mut s);
        s
    }
}

/// Hands out identifiers for objects stored directly on the trie: the
/// little-endian bytes of a counter that starts at zero.
pub struct TrieIdGenerator {
    pub next_index: u64,
}

impl TrieIdGenerator {
    /// A fresh generator, starting at index zero.
    pub fn new() -> (g: TrieIdGenerator)
        ensures
            g.next_index == 0,
    {
        TrieIdGenerator { next_index: 0 }
    }

    /// Returns the next trie object identifier and advances the counter.
    pub fn next_trie_id(&mut self) -> (id: Vec<u8>)
        requires
            old(self).next_index < u64::MAX,
        ensures
            id@ == vstd::bytes::spec_u64_to_le_bytes(old(self).next_index),
            id@.len() == 8,
            final(self).next_index == old(self).next_index + 1,
    {
        let id = vstd::bytes::u64_to_le_bytes(self.next_index);
        self.next_index = self.next_index + 1;
        id
    }
}

} // verus!
