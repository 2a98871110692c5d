//! A strongly typed, extensible context stack.
//!
//! Independent pieces of code attach typed units of data onto a growing
//! heterogeneous stack and later retrieve any previously attached unit purely
//! by its type.  The stack's shape is part of its static type, so lookup is
//! resolved entirely at compile time: a lookup that cannot be satisfied is a
//! type error, never a runtime failure.

use vstd::prelude::*;

pub mod laws;
pub mod names;
pub mod registry;

verus! {

/// An opaque handle around a finished stack.  Sealing hides the stack's
/// concrete shape from downstream code while still allowing lookup through it.
pub struct Context<Stack>(pub Stack);

impl Context<()> {
    /// The empty stack: the base of every composition chain.
    pub fn root() -> (r: ())
        ensures
            r == (),
    {
        ()
    }
}

impl<Stack> Context<Stack> {
    /// Expose the wrapped stack, for generic code (such as traversal) that
    /// must remain polymorphic over the stack's shape.
    pub fn stack(&self) -> (r: &Stack)
        ensures
            *r == self.0,
    {
        &self.0
    }
}

/// A stack that can grow: either the root or a node.  Composition only ever
/// adds a new outermost node; the previous stack value is consumed, so no two
/// live stacks can share a tail.
pub trait ContextParent: Sized {
    /// Attach `next` as the new outermost unit, taking ownership of the stack.
    fn add<Next>(self, next: Next) -> (r: ContextStack<Next, Self>)
        ensures
            r.head == next,
            r.tail == self,
    ;

    /// Wrap the finished stack in an opaque [`Context`] handle.
    fn seal(self) -> (r: Context<Self>)
        ensures
            r.0 == self,
    ;
}

impl ContextParent for () {
    fn add<Next>(self, next: Next) -> (r: ContextStack<Next, Self>) {
        ContextStack { head: next, tail: self }
    }

    fn seal(self) -> (r: Context<Self>) {
        Context(self)
    }
}

impl<H, T> ContextParent for ContextStack<H, T> {
    fn add<Next>(self, next: Next) -> (r: ContextStack<Next, Self>) {
        ContextStack { head: next, tail: self }
    }

    fn seal(self) -> (r: Context<Self>) {
        Context(self)
    }
}

/// One node of the stack: this slot's value plus the rest of the stack.
/// The tail is another stack *type*, so the chain is strictly nested and
/// cycle-free by construction.
pub struct ContextStack<Head, Tail> {
    pub head: Head,
    pub tail: Tail,
}

/// A proof token naming "one more hop down the stack than proof `T`".
/// Zero-sized and compile-time only: it exists purely to select which lookup
/// rule applies.  The token for "found at the current node" is `()`.
pub struct Next<T>(core::marker::PhantomData<T>);

/// The lookup capability: a stack satisfying `Has<Unit, Proof>` holds a unit
/// of type `Unit` at the slot named by the proof token `Proof`.
///
/// Exactly two resolution rules exist: the base rule (the outermost node's
/// head is the requested unit; proof `()`) and the recursive rule (the tail
/// satisfies the lookup with proof `P`; proof `Next<P>`).  For a given stack
/// type and proof token the resolved slot is unique, so lookup never fails at
/// runtime: if no proof token type exists, the call does not compile.
pub trait Has<Unit, Proof>: Sized {
    /// The value held at the slot this capability resolves to.
    spec fn unit_view(&self) -> Unit;

    /// The whole stack as it would be after overwriting the resolved slot
    /// with `unit`, every other slot left as it was.
    spec fn with_unit(&self, unit: Unit) -> Self;

    /// Read access to the resolved unit.
    fn get_unit(&self) -> (r: &Unit)
        ensures
            *r == self.unit_view(),
    ;

    /// Exclusive mutable access to the resolved unit.  Whatever the caller
    /// leaves behind the returned reference becomes the resolved slot's
    /// value; every other slot is untouched.
    fn get_unit_mut(&mut self) -> (r: &mut Unit)
        ensures
            *r == old(self).unit_view(),
            *final(self) == old(self).with_unit(*final(r)),
    ;

    /// Overwriting the resolved slot is observed by the very next lookup.
    proof fn lemma_view_of_with(s: &Self, unit: Unit)
        ensures
            Self::with_unit(s, unit).unit_view() == unit,
    ;

    /// Writing back the value a lookup returned leaves the stack unchanged.
    proof fn lemma_with_view_identity(s: &Self)
        ensures
            Self::with_unit(s, s.unit_view()) == *s,
    ;
}

impl<Stack, Unit, Proof> Has<Unit, Proof> for Context<Stack> where
    Stack: Has<Unit, Proof>,
 {
    open spec fn unit_view(&self) -> Unit {
        self.0.unit_view()
    }

    open spec fn with_unit(&self, unit: Unit) -> Self {
        Context(self.0.with_unit(unit))
    }

    fn get_unit(&self) -> (r: &Unit) {
        self.0.get_unit()
    }

    fn get_unit_mut(&mut self) -> (r: &mut Unit) {
        self.0.get_unit_mut()
    }

    proof fn lemma_view_of_with(s: &Self, unit: Unit) {
        Stack::lemma_view_of_with(&s.0, unit);
    }

    proof fn lemma_with_view_identity(s: &Self) {
        Stack::lemma_with_view_identity(&s.0);
    }
}

impl<Unit, Tail> Has<Unit, ()> for ContextStack<Unit, Tail> {
    open spec fn unit_view(&self) -> Unit {
        self.head
    }

    open spec fn with_unit(&self, unit: Unit) -> Self {
        ContextStack { head: unit, tail: self.tail }
    }

    fn get_unit(&self) -> (r: &Unit) {
        &self.head
    }

    fn get_unit_mut(&mut self) -> (r: &mut Unit) {
        &mut self.head
    }

    proof fn lemma_view_of_with(s: &Self, unit: Unit) {
    }

    proof fn lemma_with_view_identity(s: &Self) {
    }
}

impl<Unit, Head, Tail, TailProof> Has<Unit, Next<TailProof>> for ContextStack<Head, Tail> where
    Tail: Has<Unit, TailProof>,
 {
    open spec fn unit_view(&self) -> Unit {
        self.tail.unit_view()
    }

    open spec fn with_unit(&self, unit: Unit) -> Self {
        ContextStack { head: self.head, tail: self.tail.with_unit(unit) }
    }

    fn get_unit(&self) -> (r: &Unit) {
        self.tail.get_unit()
    }

    fn get_unit_mut(&mut self) -> (r: &mut Unit) {
        self.tail.get_unit_mut()
    }

    proof fn lemma_view_of_with(s: &Self, unit: Unit) {
        Tail::lemma_view_of_with(&s.tail, unit);
    }

    proof fn lemma_with_view_identity(s: &Self) {
        Tail::lemma_with_view_identity(&s.tail);
    }
}

} // verus!
