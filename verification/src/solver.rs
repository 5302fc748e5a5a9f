//! The adapter's own solver state: the variable allocator.
//!
//! The native handle is opaque and lives outside this crate; what the adapter
//! itself tracks is the count of declared variables.  Variables are dense,
//! zero-based, and handed out in strictly increasing order with no gaps and
//! no reuse.

use vstd::prelude::*;

use crate::codec::Var;

verus! {

/// Verified core state of one solver instance.  It allocates variables; the
/// ghost `allocation` records every variable handed out, in order.
pub struct Solver {
    num_var: usize,
    allocation: Ghost<Seq<Var>>,
}

impl Solver {
    /// How many variables have been allocated so far.
    pub closed spec fn count(self) -> nat {
        self.num_var as nat
    }

    /// The variables handed out so far, in allocation order.
    pub closed spec fn allocation(self) -> Seq<Var> {
        self.allocation@
    }

    /// Allocation is dense: the `i`-th variable handed out has index `i`, so
    /// after `n` allocations the variables are exactly `0 .. n`, in order.
    pub open spec fn wf(self) -> bool {
        &&& self.allocation().len() == self.count()
        &&& forall|i: int|
            0 <= i < self.allocation().len() ==> (#[trigger] self.allocation()[i]).index == i
    }

    /// A fresh solver core with no variables allocated.
    pub fn new() -> (s: Solver)
        ensures
            s.count() == 0,
            s.wf(),
    {
        Solver { num_var: 0, allocation: Ghost(Seq::empty()) }
    }

    /// Allocate the next variable: its index is the old count, and the count
    /// grows by one.
    pub fn new_var(&mut self) -> (v: Var)
        requires
            old(self).wf(),
            old(self).count() < usize::MAX,
        ensures
            final(self).wf(),
            v.index == old(self).count(),
            final(self).count() == old(self).count() + 1,
            final(self).allocation() == old(self).allocation().push(v),
    {
        let v = Var { index: self.num_var };
        self.num_var = self.num_var + 1;
        proof {
            self.allocation@ = self.allocation@.push(v);
        }
        v
    }

    /// The number of variables allocated so far; a pure query.
    pub fn num_var(&self) -> (n: usize)
        ensures
            n == self.count(),
    {
        self.num_var
    }
}

impl Default for Solver {
    /// Same as a fresh solver core: no variables allocated.
    fn default() -> (s: Solver)
        ensures
            s.count() == 0,
            s.wf(),
    {
        Solver::new()
    }
}

/// Monotonic allocation: after `n` calls to `new_var` the count is `n`, and
/// the variables returned were exactly those with indices `0 .. n`, in
/// allocation order.
pub proof fn lemma_dense_allocation(s: Solver)
    requires
        s.wf(),
    ensures
        s.allocation().len() == s.count(),
        forall|i: int| 0 <= i < s.count() ==> (#[trigger] s.allocation()[i]).index == i,
{
}

} // verus!
