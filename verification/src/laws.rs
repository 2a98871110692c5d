//! Laws relating composition, sealing and lookup.
//!
//! Each law is stated over the spec-level model of the stack: `unit_view`
//! (what a lookup resolves to) and `with_unit` (the stack after overwriting
//! the resolved slot).  A node built by `ContextParent::add` is, by that
//! function's contract, exactly `ContextStack { head, tail }`, so the laws
//! below quantify over such nodes directly.

use vstd::prelude::*;
use crate::Context;
use crate::ContextStack;
use crate::Has;
use crate::Next;

verus! {

/// Identity round trip: immediately after attaching `unit` onto `tail`, the
/// base resolution rule (proof token `()`) returns that exact unit.
pub proof fn lemma_attach_then_get<Unit, Tail>(tail: Tail, unit: Unit)
    ensures
        <ContextStack<Unit, Tail> as Has<Unit, ()>>::unit_view(
            &(ContextStack { head: unit, tail }),
        ) == unit,
{
}

/// Non-interference: attaching an unrelated `head` on top of `tail` does not
/// change what a lookup into the tail resolves to — the value is the same as
/// if `head` had never been attached.
pub proof fn lemma_attach_unrelated<Head, Tail, Unit, TailProof>(tail: Tail, head: Head) where
    Tail: Has<Unit, TailProof>,

    ensures
        <ContextStack<Head, Tail> as Has<Unit, Next<TailProof>>>::unit_view(
            &(ContextStack { head, tail }),
        ) == tail.unit_view(),
{
}

/// Mutation isolation, outward: overwriting the outermost unit leaves every
/// unit resolved through the tail unchanged.
pub proof fn lemma_mutate_head_isolated<Head, Tail, Unit, TailProof>(
    s: ContextStack<Head, Tail>,
    unit: Head,
) where Tail: Has<Unit, TailProof>
    ensures
        <ContextStack<Head, Tail> as Has<Unit, Next<TailProof>>>::unit_view(
            &<ContextStack<Head, Tail> as Has<Head, ()>>::with_unit(&s, unit),
        ) == <ContextStack<Head, Tail> as Has<Unit, Next<TailProof>>>::unit_view(&s),
{
}

/// Mutation isolation, inward: overwriting a unit resolved through the tail
/// leaves the outermost unit unchanged.
pub proof fn lemma_mutate_tail_isolated<Head, Tail, Unit, TailProof>(
    s: ContextStack<Head, Tail>,
    unit: Unit,
) where Tail: Has<Unit, TailProof>
    ensures
        <ContextStack<Head, Tail> as Has<Head, ()>>::unit_view(
            &<ContextStack<Head, Tail> as Has<Unit, Next<TailProof>>>::with_unit(&s, unit),
        ) == s.head,
{
}

/// Sealing is transparent to lookup: a lookup through the opaque handle
/// resolves to exactly what the same lookup on the wrapped stack resolves to.
pub proof fn lemma_seal_transparent<Stack, Unit, Proof>(c: Context<Stack>) where
    Stack: Has<Unit, Proof>,

    ensures
        <Context<Stack> as Has<Unit, Proof>>::unit_view(&c) == c.0.unit_view(),
{
}

/// Shadowing (documented limitation): when the tail already holds a unit of
/// the same type, the base resolution rule still reads the outermost — that
/// is, most recently attached — one; the deeper match is not consulted.
pub proof fn lemma_shadowing_outermost_wins<Unit, Tail, TailProof>(
    s: ContextStack<Unit, Tail>,
) where Tail: Has<Unit, TailProof>
    ensures
        <ContextStack<Unit, Tail> as Has<Unit, ()>>::unit_view(&s) == s.head,
{
}

} // verus!
