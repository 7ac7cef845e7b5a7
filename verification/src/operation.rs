//! Fallible operations whose invocations can be counted and related, one by
//! one, to their results.
//!
//! The coalescer and the retry combinator are generic over [`FetchOperation`]:
//! an operation knows how often it was invoked and what each numbered
//! invocation returns, so their contracts can state exactly how many times an
//! operation runs and which attempt produced the value handed back.

use vstd::prelude::*;

verus! {

/// A fallible operation invoked attempt by attempt.
///
/// `outcome(n)` is what the `n`-th invocation (counting from 1) returns;
/// `calls()` how many invocations have happened; `limit()` how many the
/// operation supports in all.  Invoking advances the count by one and returns
/// the outcome numbered by the new count, leaving the planned outcomes and
/// the limit unchanged.
pub trait FetchOperation<T, E>: Sized {
    /// Internal consistency of the operation's state.
    spec fn inv(&self) -> bool;

    /// How many invocations this operation supports in all.
    spec fn limit(&self) -> nat;

    /// How many times the operation has been invoked.
    spec fn calls(&self) -> nat;

    /// What the `n`-th invocation, counting from 1, returns.
    spec fn outcome(&self, n: nat) -> Result<T, E>;

    /// Runs one attempt.
    fn invoke(&mut self) -> (r: Result<T, E>)
        requires
            old(self).inv(),
            old(self).calls() < old(self).limit(),
        ensures
            final(self).inv(),
            final(self).limit() == old(self).limit(),
            final(self).calls() == old(self).calls() + 1,
            forall|n: nat| final(self).outcome(n) == old(self).outcome(n),
            r == old(self).outcome(old(self).calls() + 1),
    ;
}

/// An operation that hands out a fixed script of outcomes, one per
/// invocation, and counts how often it was invoked.
pub struct ScriptedOperation<T, E> {
    remaining: Vec<Result<T, E>>,
    used: usize,
    full: Ghost<Seq<Result<T, E>>>,
}

impl<T, E> ScriptedOperation<T, E> {
    /// Builds an operation whose `n`-th invocation returns `script[n - 1]`.
    pub fn new(script: Vec<Result<T, E>>) -> (op: Self)
        ensures
            op.inv(),
            op.calls() == 0,
            op.limit() == script@.len(),
            forall|n: nat| 1 <= n <= script@.len() ==> op.outcome(n) == script@[n - 1],
    {
        let ghost full = script@;
        let n = script.len();
        proof {
            assert(full.skip(0) =~= full);
        }
        ScriptedOperation { remaining: script, used: 0, full: Ghost(full) }
    }

    /// How many times the operation has been invoked.
    pub fn calls_made(&self) -> (n: usize)
        ensures
            n as nat == self.calls(),
    {
        self.used
    }
}

impl<T, E> FetchOperation<T, E> for ScriptedOperation<T, E> {
    closed spec fn inv(&self) -> bool {
        &&& self.used as nat + self.remaining@.len() == self.full@.len()
        &&& self.full@.len() <= usize::MAX
        &&& self.remaining@ == self.full@.skip(self.used as int)
    }

    closed spec fn limit(&self) -> nat {
        self.full@.len()
    }

    closed spec fn calls(&self) -> nat {
        self.used as nat
    }

    closed spec fn outcome(&self, n: nat) -> Result<T, E> {
        self.full@[n - 1]
    }

    fn invoke(&mut self) -> (r: Result<T, E>) {
        let r = self.remaining.remove(0);
        self.used = self.used + 1;
        proof {
            assert(self.remaining@ =~= self.full@.skip(self.used as int));
        }
        r
    }
}

} // verus!
