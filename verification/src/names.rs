//! Example consumers of the context stack: person-name units.
//!
//! These types are not part of the core mechanism.  They show how a consumer
//! defines its own unit types, attaches them, and layers derived capabilities
//! (here, a full name needing two units at once) on top of type-directed
//! lookup.

use vstd::prelude::*;
use vstd::string::StringExecFns;
use crate::ContextParent;
use crate::ContextStack;
use crate::Has;
use crate::registry::Registry;

verus! {

/// A person's first name, as one attachable unit.
pub struct FirstName {
    pub name: String,
}

impl FirstName {
    /// Attach a first name onto `ctx`.
    pub fn new<C: ContextParent>(ctx: C, name: String) -> (r: ContextStack<FirstName, C>)
        ensures
            r.head.name == name,
            r.tail == ctx,
    {
        ctx.add(FirstName { name })
    }
}

impl Registry for FirstName {
    /// A first name contributes one label to a traversal.
    open spec fn contributions(&self) -> Seq<Seq<char>> {
        seq!["FirstName"@]
    }

    fn register(&self, units: &mut Vec<String>) {
        units.push(String::from_str("FirstName"));
    }
}

/// A person's last name, as one attachable unit.
pub struct LastName {
    pub name: String,
}

impl LastName {
    /// Attach a last name onto `ctx`.
    pub fn new<C: ContextParent>(ctx: C, name: String) -> (r: ContextStack<LastName, C>)
        ensures
            r.head.name == name,
            r.tail == ctx,
    {
        ctx.add(LastName { name })
    }
}

impl Registry for LastName {
    /// A last name contributes one label to a traversal.
    open spec fn contributions(&self) -> Seq<Seq<char>> {
        seq!["LastName"@]
    }

    fn register(&self, units: &mut Vec<String>) {
        units.push(String::from_str("LastName"));
    }
}

/// A derived capability over two independently resolved units: the full name
/// is the first name, a space, and the last name.
pub fn full_name<T, FirstProof, LastProof>(ctx: &T) -> (r: String) where
    T: Has<FirstName, FirstProof>,
    T: Has<LastName, LastProof>,

    ensures
        r@ == <T as Has<FirstName, FirstProof>>::unit_view(ctx).name@ + " "@
            + <T as Has<LastName, LastProof>>::unit_view(ctx).name@,
{
    let first = <T as Has<FirstName, FirstProof>>::get_unit(ctx);
    let last = <T as Has<LastName, LastProof>>::get_unit(ctx);
    let mut r = first.name.clone();
    r.append(" ");
    r.append(last.name.as_str());
    r
}

} // verus!
