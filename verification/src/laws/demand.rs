//! The demand of a module.

use vstd::prelude::*;
use crate::abi::Bundle;
use crate::ast::Module;
use crate::demand::{CoreDemand, Wanted, lit, want_declarations, want_module, wanted_name};

verus! {

/// A demand only grows.
pub proof fn law_demand_grows(before: CoreDemand, after: CoreDemand, more: Wanted)
    requires
        after.grew(before, more),
    ensures
        before.wanted().within(after.wanted()),
        more.within(after.wanted()),
{
}

/// Demanding the same again demands nothing more.
pub proof fn law_demand_again(a: Wanted, b: Wanted)
    ensures
        a.plus(b).plus(b) == a.plus(b),
{
    assert(a.plus(b).plus(b) =~= a.plus(b));
}

/// The order of two demands is irrelevant.
pub proof fn law_demand_order(a: Wanted, b: Wanted)
    ensures
        a.plus(b) == b.plus(a),
{
    assert(a.plus(b) =~= b.plus(a));
}

/// Every module demands the two interfaces of fixed role.
pub proof fn law_demand_roles(module: &Module, bundle: Bundle)
    ensures
        want_module(module, bundle).names.contains(lit("PartialEq")),
        want_module(module, bundle).names.contains(lit("Hashable")),
{
    let partial_eq = wanted_name(lit("PartialEq"));
    let hashable = wanted_name(lit("Hashable"));
    assert(partial_eq.names.contains(lit("PartialEq")));
    assert(hashable.names.contains(lit("Hashable")));
}

} // verus!
