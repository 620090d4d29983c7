//! Authorization capability injected into the ledger operations.
//!
//! The host that runs the ledger is responsible for cryptographically
//! verifying which account identities the caller of an operation controls.
//! The engine itself only needs the outcome of that verification, so it is
//! handed an [`AuthVerifier`]: the set of account identities the current
//! caller has proven control of. An operation that demands authority over an
//! identity asks the verifier and fails with `Unauthorized` when the identity
//! is not in the set.

use vstd::prelude::*;

verus! {

/// The identities the current caller has proven control of.
pub struct AuthVerifier {
    proven: Vec<u64>,
}

impl View for AuthVerifier {
    type V = Seq<u64>;

    closed spec fn view(&self) -> Seq<u64> {
        self.proven@
    }
}

impl AuthVerifier {
    /// Whether the caller has proven control of `id`.
    pub open spec fn authorizes(self, id: u64) -> bool {
        self@.contains(id)
    }

    /// A verifier for a caller that has proven nothing.
    pub fn new() -> (v: AuthVerifier)
        ensures
            v@ == Seq::<u64>::empty(),
    {
        AuthVerifier { proven: Vec::new() }
    }

    /// Record that the caller has proven control of `id`.
    pub fn grant(&mut self, id: u64)
        ensures
            final(self)@ == old(self)@.push(id),
            forall|a: u64| final(self).authorizes(a) <==> old(self).authorizes(a) || a == id,
    {
        self.proven.push(id);
        proof {
            assert forall|a: u64| self.authorizes(a) <==> old(self).authorizes(a) || a == id by {
                if old(self).authorizes(a) {
                    let j = choose|j: int| 0 <= j < old(self)@.len() && old(self)@[j] == a;
                    assert(self@[j] == a);
                }
                if a == id {
                    assert(self@[self@.len() - 1] == a);
                }
                if self.authorizes(a) {
                    let j = choose|j: int| 0 <= j < self@.len() && self@[j] == a;
                    if j < self@.len() - 1 {
                        assert(old(self)@[j] == a);
                    }
                }
            }
        }
    }

    /// Whether the caller has proven control of `id`.
    pub fn check(&self, id: u64) -> (r: bool)
        ensures
            r == self.authorizes(id),
    {
        let mut i: usize = 0;
        while i < self.proven.len()
            invariant
                0 <= i <= self.proven.len(),
                forall|j: int| 0 <= j < i ==> self.proven@[j] != id,
            decreases self.proven.len() - i,
        {
            if self.proven[i] == id {
                return true;
            }
            i = i + 1;
        }
        false
    }
}

} // verus!
