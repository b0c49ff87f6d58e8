//! Authorization proofs for the current invocation.
//!
//! The hosting environment proves that a principal authorized the current
//! call before the engine may move that principal's funds.  The engine takes
//! that proof as an explicit value: an [`AuthContext`] lists the principals
//! that have authorized the invocation, and the entry points that move funds
//! require the relevant principal to be in it.

use vstd::prelude::*;

verus! {

/// The set of principals that have authorized the current invocation.
pub struct AuthContext {
    granted: Vec<u64>,
}

impl AuthContext {
    /// Whether `who` has authorized the current invocation.
    pub closed spec fn spec_authorized(self, who: u64) -> bool {
        self.granted@.contains(who)
    }

    /// An invocation that nobody has authorized yet.
    pub fn new() -> (r: AuthContext)
        ensures
            forall|x: u64| !r.spec_authorized(x),
    {
        AuthContext { granted: Vec::new() }
    }

    /// Records that `who` has authorized the current invocation.
    pub fn grant(&mut self, who: u64)
        ensures
            forall|x: u64|
                final(self).spec_authorized(x) == (old(self).spec_authorized(x) || x == who),
    {
        let ghost s0 = self.granted@;
        self.granted.push(who);
        proof {
            assert forall|x: u64|
                self.granted@.contains(x) == (s0.contains(x) || x == who) by {
                let s1 = self.granted@;
                if s0.contains(x) {
                    let i = choose|i: int| 0 <= i < s0.len() && s0[i] == x;
                    assert(s1[i] == x);
                }
                if x == who {
                    assert(s1[s0.len() as int] == x);
                }
                if s1.contains(x) && x != who {
                    let i = choose|i: int| 0 <= i < s1.len() && s1[i] == x;
                    assert(i < s0.len());
                    assert(s0[i] == x);
                }
            }
        }
    }

    /// Returns whether `who` has authorized the current invocation.
    pub fn is_authorized(&self, who: u64) -> (r: bool)
        ensures
            r == self.spec_authorized(who),
    {
        let mut i: usize = 0;
        while i < self.granted.len()
            invariant
                i <= self.granted.len(),
                forall|j: int| 0 <= j < i ==> self.granted@[j] != who,
            decreases self.granted.len() - i,
        {
            if self.granted[i] == who {
                return true;
            }
            i += 1;
        }
        false
    }
}

} // verus!
