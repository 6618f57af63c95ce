//! Execution contexts and their builder. A context carries the per-call
//! information a contract can observe: caller identities, attached deposit
//! and gas, block information, the input bytes and the view-call flag. It is
//! immutable once built; a fresh one is installed for every simulated call.

use vstd::prelude::*;
use vstd::string::StringSliceAdditionalSpecFns;
use vstd::string::StrSliceExecFns;
use crate::account::AccountId;

verus! {

/// The information fixed for the duration of one simulated contract call.
pub struct ExecutionContext {
    /// Account that signed the original transaction.
    pub signer_account_id: AccountId,
    /// Account that made the immediate call (the signer, or an intermediate
    /// contract in a cross-contract chain).
    pub predecessor_account_id: AccountId,
    /// Account of the contract under execution.
    pub current_account_id: AccountId,
    /// Token amount attached to the call, in minimal units.
    pub attached_deposit: u128,
    /// Gas budget attached to the call.
    pub prepaid_gas: u64,
    /// Height of the block the call executes in.
    pub block_index: u64,
    /// Timestamp of that block, in nanoseconds.
    pub block_timestamp: u64,
    /// Epoch the block belongs to.
    pub epoch_height: u64,
    /// Storage bytes the account is charged for before this call.
    pub storage_usage: u64,
    /// Seed for host-provided randomness.
    pub random_seed: Vec<u8>,
    /// Serialized call arguments.
    pub input: Vec<u8>,
    /// True for a read-only (view) call, which must not mutate storage or
    /// emit receipts.
    pub is_view: bool,
}

/// Fluent builder for [`ExecutionContext`]. Every option has a deterministic
/// baseline: zero deposit, maximal gas, block zero, no input, not a view
/// call, and fixed default identities.
pub struct VMContextBuilder {
    pub context: ExecutionContext,
}

impl VMContextBuilder {
    /// Starts from the deterministic baseline context.
    pub fn new() -> (r: VMContextBuilder)
        ensures
            r.context.current_account_id.bytes@ == "alice".spec_bytes(),
            r.context.signer_account_id.bytes@ == "bob".spec_bytes(),
            r.context.predecessor_account_id.bytes@ == "bob".spec_bytes(),
            r.context.attached_deposit == 0,
            r.context.prepaid_gas == u64::MAX,
            r.context.block_index == 0,
            r.context.block_timestamp == 0,
            r.context.epoch_height == 0,
            r.context.storage_usage == 0,
            r.context.random_seed@ == Seq::<u8>::empty(),
            r.context.input@ == Seq::<u8>::empty(),
            !r.context.is_view,
    {
        VMContextBuilder {
            context: ExecutionContext {
                signer_account_id: AccountId { bytes: "bob".as_bytes_vec() },
                predecessor_account_id: AccountId { bytes: "bob".as_bytes_vec() },
                current_account_id: AccountId { bytes: "alice".as_bytes_vec() },
                attached_deposit: 0,
                prepaid_gas: u64::MAX,
                block_index: 0,
                block_timestamp: 0,
                epoch_height: 0,
                storage_usage: 0,
                random_seed: Vec::new(),
                input: Vec::new(),
                is_view: false,
            },
        }
    }

    pub fn signer_account_id(self, id: AccountId) -> (r: Self)
        ensures
            r.context == (ExecutionContext { signer_account_id: id, ..self.context }),
    {
        VMContextBuilder { context: ExecutionContext { signer_account_id: id, ..self.context } }
    }

    pub fn predecessor_account_id(self, id: AccountId) -> (r: Self)
        ensures
            r.context == (ExecutionContext { predecessor_account_id: id, ..self.context }),
    {
        VMContextBuilder {
            context: ExecutionContext { predecessor_account_id: id, ..self.context },
        }
    }

    pub fn current_account_id(self, id: AccountId) -> (r: Self)
        ensures
            r.context == (ExecutionContext { current_account_id: id, ..self.context }),
    {
        VMContextBuilder { context: ExecutionContext { current_account_id: id, ..self.context } }
    }

    pub fn attached_deposit(self, deposit: u128) -> (r: Self)
        ensures
            r.context == (ExecutionContext { attached_deposit: deposit, ..self.context }),
    {
        VMContextBuilder {
            context: ExecutionContext { attached_deposit: deposit, ..self.context },
        }
    }

    pub fn prepaid_gas(self, gas: u64) -> (r: Self)
        ensures
            r.context == (ExecutionContext { prepaid_gas: gas, ..self.context }),
    {
        VMContextBuilder { context: ExecutionContext { prepaid_gas: gas, ..self.context } }
    }

    pub fn block_index(self, index: u64) -> (r: Self)
        ensures
            r.context == (ExecutionContext { block_index: index, ..self.context }),
    {
        VMContextBuilder { context: ExecutionContext { block_index: index, ..self.context } }
    }

    pub fn block_timestamp(self, timestamp: u64) -> (r: Self)
        ensures
            r.context == (ExecutionContext { block_timestamp: timestamp, ..self.context }),
    {
        VMContextBuilder {
            context: ExecutionContext { block_timestamp: timestamp, ..self.context },
        }
    }

    pub fn epoch_height(self, epoch: u64) -> (r: Self)
        ensures
            r.context == (ExecutionContext { epoch_height: epoch, ..self.context }),
    {
        VMContextBuilder { context: ExecutionContext { epoch_height: epoch, ..self.context } }
    }

    pub fn storage_usage(self, usage: u64) -> (r: Self)
        ensures
            r.context == (ExecutionContext { storage_usage: usage, ..self.context }),
    {
        VMContextBuilder { context: ExecutionContext { storage_usage: usage, ..self.context } }
    }

    pub fn random_seed(self, seed: Vec<u8>) -> (r: Self)
        ensures
            r.context == (ExecutionContext { random_seed: seed, ..self.context }),
    {
        VMContextBuilder { context: ExecutionContext { random_seed: seed, ..self.context } }
    }

    pub fn input(self, input: Vec<u8>) -> (r: Self)
        ensures
            r.context == (ExecutionContext { input: input, ..self.context }),
    {
        VMContextBuilder { context: ExecutionContext { input: input, ..self.context } }
    }

    pub fn is_view(self, is_view: bool) -> (r: Self)
        ensures
            r.context == (ExecutionContext { is_view: is_view, ..self.context }),
    {
        VMContextBuilder { context: ExecutionContext { is_view: is_view, ..self.context } }
    }

    /// Finishes the builder, yielding the configured context.
    pub fn build(self) -> (r: ExecutionContext)
        ensures
            r == self.context,
    {
        self.context
    }
}

/// The fixed identities available to tests, indexed in a stable order.
pub fn accounts(id: usize) -> (r: AccountId)
    requires
        id < 6,
    ensures
        id == 0 ==> r.bytes@ == "alice".spec_bytes(),
        id == 1 ==> r.bytes@ == "bob".spec_bytes(),
        id == 2 ==> r.bytes@ == "charlie".spec_bytes(),
        id == 3 ==> r.bytes@ == "danny".spec_bytes(),
        id == 4 ==> r.bytes@ == "eugene".spec_bytes(),
        id == 5 ==> r.bytes@ == "fargo".spec_bytes(),
{
    let name: &str = if id == 0 {
        "alice"
    } else if id == 1 {
        "bob"
    } else if id == 2 {
        "charlie"
    } else if id == 3 {
        "danny"
    } else if id == 4 {
        "eugene"
    } else {
        "fargo"
    };
    AccountId { bytes: name.as_bytes_vec() }
}

} // verus!
