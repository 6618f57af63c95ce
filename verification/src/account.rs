//! Account identifiers: opaque, validated byte strings. The host and the
//! protocol check nothing about them beyond non-emptiness.

use vstd::prelude::*;

verus! {

/// An account identifier. The identifier's semantics (naming rules, account
/// existence) belong to the network layer; here it is an opaque byte string
/// whose only validity requirement is non-emptiness.
pub struct AccountId {
    pub bytes: Vec<u8>,
}

impl AccountId {
    /// A well-formed account identifier is non-empty.
    pub open spec fn wf(self) -> bool {
        self.bytes@.len() > 0
    }

    /// Builds an account identifier, rejecting the empty string.
    pub fn new(bytes: Vec<u8>) -> (r: Option<AccountId>)
        ensures
            bytes@.len() > 0 ==> (r matches Some(a) && a.bytes@ == bytes@),
            bytes@.len() == 0 ==> r is None,
    {
        if bytes.len() > 0 {
            Some(AccountId { bytes })
        } else {
            None
        }
    }

    /// Returns a copy of this identifier.
    pub fn clone_id(&self) -> (r: AccountId)
        ensures
            r.bytes@ == self.bytes@,
    {
        AccountId { bytes: clone_bytes(&self.bytes) }
    }

    /// Compares two identifiers byte for byte.
    pub fn eq_id(&self, other: &AccountId) -> (r: bool)
        ensures
            r == (self.bytes@ == other.bytes@),
    {
        bytes_eq(&self.bytes, &other.bytes)
    }
}

/// Byte-string equality, stated over the sequence views.
pub fn bytes_eq(a: &Vec<u8>, b: &Vec<u8>) -> (r: bool)
    ensures
        r == (a@ == b@),
{
    let r = a == b;
    proof {
        if r {
            assert(a@ =~= b@);
        }
    }
    r
}

/// Returns a copy of a byte string.
pub fn clone_bytes(a: &Vec<u8>) -> (r: Vec<u8>)
    ensures
        r@ == a@,
{
    vstd::slice::slice_to_vec(a.as_slice())
}

} // verus!
