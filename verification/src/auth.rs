//! The authorization model. The hosting environment verifies that a principal
//! approved the current call; the contract consumes that verdict through an
//! explicit capability context passed into each operation.

use vstd::prelude::*;

use crate::errors::ContractError;

verus! {

/// A malformed principal address is modeled as the zero address; every other
/// address is well formed.
pub open spec fn valid_address(a: u64) -> bool {
    a != 0
}

/// The address sanity check run before funds leave custody.
pub fn validate_address(a: u64) -> (r: Result<(), ContractError>)
    ensures
        r is Ok <==> valid_address(a),
        r is Err ==> r == Err::<(), ContractError>(ContractError::InvalidAddress),
{
    if a != 0 {
        Ok(())
    } else {
        Err(ContractError::InvalidAddress)
    }
}

/// The set of principals that have authorized the current call, as
/// established by the host before the operation runs.
pub struct AuthContext {
    pub grants: Vec<u64>,
}

impl AuthContext {
    /// Whether principal `p` authorized the current call.
    pub open spec fn permits(self, p: u64) -> bool {
        self.grants@.contains(p)
    }

    /// A context in which no principal has authorized anything.
    pub fn new() -> (r: Self)
        ensures
            forall|p: u64| !r.permits(p),
    {
        AuthContext { grants: Vec::new() }
    }

    /// Records that principal `p` authorized the current call.
    pub fn grant(&mut self, p: u64)
        ensures
            forall|q: u64| final(self).permits(q) == (old(self).permits(q) || q == p),
    {
        self.grants.push(p);
        proof {
            assert forall|q: u64|
                self.permits(q) == (old(self).permits(q) || q == p) by {
                if old(self).permits(q) {
                    let i = choose|i: int|
                        0 <= i < old(self).grants@.len() && old(self).grants@[i] == q;
                    assert(self.grants@[i] == q);
                }
                if q == p {
                    assert(self.grants@.last() == p);
                }
                if self.permits(q) {
                    let i = choose|i: int| 0 <= i < self.grants@.len() && self.grants@[i] == q;
                    if i < old(self).grants@.len() {
                        assert(old(self).grants@[i] == q);
                    }
                }
            }
        }
    }

    /// Whether principal `p` authorized the current call.
    pub fn allows(&self, p: u64) -> (r: bool)
        ensures
            r == self.permits(p),
    {
        let n = self.grants.len();
        let mut i: usize = 0;
        while i < n
            invariant
                n == self.grants@.len(),
                0 <= i <= n,
                forall|k: int| 0 <= k < i ==> self.grants@[k] != p,
            decreases n - i,
        {
            if self.grants[i] == p {
                return true;
            }
            i = i + 1;
        }
        false
    }
}

} // verus!
