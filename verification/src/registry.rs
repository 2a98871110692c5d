//! The traversal capability: visit every unit of a stack, outermost first.
//!
//! Any cross-cutting operation over the heterogeneous stack must follow the
//! same recursive-structural pattern: implemented once for the root (a no-op)
//! and once for a node (process the head, then recurse into the tail).  The
//! contract pins the result down: a traversal appends exactly the visited
//! values' contributions, in outermost-to-innermost order, after whatever the
//! output vector already held.

use vstd::prelude::*;
use crate::Context;
use crate::ContextStack;

verus! {

/// A value that a traversal can visit: it announces its contributions as
/// labels, and `register` appends exactly those labels, in order.
pub trait Registry {
    /// The labels this value contributes to a traversal, in visit order.
    /// A unit typically contributes one label; the root contributes none; a
    /// node contributes its head's labels followed by its tail's.
    spec fn contributions(&self) -> Seq<Seq<char>>;

    /// Append this value's contributions to `units`, leaving what was
    /// already there untouched.
    fn register(&self, units: &mut Vec<String>)
        ensures
            final(units)@.len() == old(units)@.len() + self.contributions().len(),
            forall|i: int|
                0 <= i < old(units)@.len() ==> final(units)@[i] == old(units)@[i],
            forall|i: int|
                0 <= i < self.contributions().len()
                    ==> (#[trigger] final(units)@[old(units)@.len() + i])@
                    == self.contributions()[i],
    ;
}

impl Registry for () {
    /// The empty stack contributes nothing: traversing it visits zero units.
    open spec fn contributions(&self) -> Seq<Seq<char>> {
        Seq::empty()
    }

    fn register(&self, units: &mut Vec<String>) {
    }
}

impl<Stack: Registry> Registry for Context<Stack> {
    /// The opaque handle is transparent to traversal.
    open spec fn contributions(&self) -> Seq<Seq<char>> {
        self.0.contributions()
    }

    fn register(&self, units: &mut Vec<String>) {
        self.stack().register(units);
    }
}

impl<Head: Registry, Tail: Registry> Registry for ContextStack<Head, Tail> {
    /// Outermost first: the head's contributions precede the tail's.
    open spec fn contributions(&self) -> Seq<Seq<char>> {
        self.head.contributions() + self.tail.contributions()
    }

    fn register(&self, units: &mut Vec<String>) {
        let ghost orig = units@;
        self.head.register(units);
        let ghost mid = units@;
        self.tail.register(units);
        proof {
            let hc = self.head.contributions();
            let tc = self.tail.contributions();
            assert forall|i: int|
                0 <= i < self.contributions().len() implies (#[trigger] units@[orig.len()
                + i])@ == self.contributions()[i] by {
                if i < hc.len() {
                    assert((mid[orig.len() + i])@ == hc[i]);
                    assert(units@[orig.len() + i] == mid[orig.len() + i]);
                } else {
                    assert((units@[mid.len() + (i - hc.len())])@ == tc[i - hc.len()]);
                }
            }
        }
    }
}

/// Traversing a node visits the head's contributions, then the tail's: a
/// stack of N units each contributing one label yields exactly N labels,
/// outermost to innermost.
pub proof fn lemma_traversal_order<Head, Tail>(s: ContextStack<Head, Tail>) where
    Head: Registry,
    Tail: Registry,

    ensures
        s.contributions() == s.head.contributions() + s.tail.contributions(),
{
}

/// Traversing the empty stack visits nothing.
pub proof fn lemma_traversal_empty(root: ())
    ensures
        root.contributions() == Seq::<Seq<char>>::empty(),
{
}

} // verus!
