//! The receipt resolver's scheduling rule. Resolution is synchronous and
//! single-threaded: the forest of pending receipts is executed
//! deterministically in creation order, with one constraint — a callback
//! receipt may run only after its parent has reported its outcome. This
//! module states that rule and computes which receipt is dispatched next;
//! reporting an outcome itself goes through
//! [`MockedHost::resolve_receipt`](crate::host::MockedHost::resolve_receipt),
//! which enforces the single-resolution invariant.

use vstd::prelude::*;
use crate::host::MockedHost;
use crate::host::Receipt;
use crate::host::receipt_wf_at;

verus! {

/// Receipt `i` may be dispatched: it exists, has not resolved, and its
/// parent — if it is a callback — has already resolved.
pub open spec fn eligible(rs: Seq<Receipt>, i: int) -> bool {
    &&& 0 <= i < rs.len()
    &&& !rs[i].resolved
    &&& match rs[i].parent {
        Some(p) => 0 <= p < rs.len() && rs[p as int].resolved,
        None => true,
    }
}

/// The receipt the resolver dispatches next: the first eligible one in
/// creation order, or `None` when no receipt is eligible — every receipt
/// is resolved, or waits on an unresolved parent.
pub fn next_pending(host: &MockedHost) -> (r: Option<usize>)
    requires
        host.wf(),
    ensures
        match r {
            Some(i) => eligible(host.receipts@, i as int) && forall|j: int|
                0 <= j < i ==> !eligible(host.receipts@, j),
            None => forall|j: int| 0 <= j < host.receipts@.len() ==> !eligible(host.receipts@, j),
        },
{
    let mut i: usize = 0;
    while i < host.receipts.len()
        invariant
            host.wf(),
            i <= host.receipts@.len(),
            forall|j: int| 0 <= j < i ==> !eligible(host.receipts@, j),
        decreases host.receipts@.len() - i,
    {
        proof {
            assert(receipt_wf_at(host.receipts@, i as int));
        }
        if !host.receipts[i].resolved {
            let parent_resolved = match host.receipts[i].parent {
                None => true,
                Some(p) => host.receipts[p].resolved,
            };
            if parent_resolved {
                return Some(i);
            }
        }
        proof {
            assert(!eligible(host.receipts@, i as int));
        }
        i += 1;
    }
    None
}

} // verus!
