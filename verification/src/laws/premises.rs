//! Premises and bounds as sets of interface applications.

use vstd::prelude::*;
use crate::chain::Chain;
use crate::context::{ConformancePremise, InterfaceUse};
use crate::laws::lists::law_append;
use crate::model::lists::append;
use crate::model::premises::{bounds_imply, holds_use, holds_uses, merge_at, merge_premises, merge_uses, premise_on, premises_imply};

verus! {

/// A bound is held exactly when it is an element.
pub proof fn law_holds_use(bounds: &Chain<InterfaceUse>, bound: &InterfaceUse)
    ensures
        holds_use(bounds, bound) == bounds@.contains(*bound),
    decreases bounds,
{
    match bounds {
        Chain::Nil => {},
        Chain::Cons(head, tail) => {
            law_holds_use(tail, bound);
            assert(bounds@[0] == **head);
            if tail@.contains(*bound) {
                let i = tail@.index_of(*bound);
                assert(bounds@[i + 1] == *bound);
            }
            if bounds@.contains(*bound) && **head != *bound {
                let i = bounds@.index_of(*bound);
                assert(tail@[i - 1] == *bound);
            }
        },
    }
}

/// Every bound is held exactly when each one is.
pub proof fn law_holds_uses(bounds: &Chain<InterfaceUse>, required: &Chain<InterfaceUse>)
    ensures
        holds_uses(bounds, required) == (forall|u: InterfaceUse| required@.contains(u) ==> bounds@.contains(u)),
    decreases required,
{
    match required {
        Chain::Nil => {},
        Chain::Cons(head, tail) => {
            law_holds_use(bounds, head);
            law_holds_uses(bounds, tail);
            assert(required@[0] == **head);
            assert forall|u: InterfaceUse| required@.contains(u) == (u == **head || tail@.contains(u)) by {
                law_holds_use(required, &u);
                law_holds_use(tail, &u);
            }
            assert(required@.contains(**head));
        },
    }
}

/// Bounds hold themselves.
pub proof fn law_holds_uses_same(bounds: &Chain<InterfaceUse>)
    ensures
        holds_uses(bounds, bounds),
{
    law_holds_uses(bounds, bounds);
}

/// Bounds that hold bounds hold what those hold.
pub proof fn law_holds_uses_further(a: &Chain<InterfaceUse>, b: &Chain<InterfaceUse>, c: &Chain<InterfaceUse>)
    requires
        holds_uses(a, b),
        holds_uses(b, c),
    ensures
        holds_uses(a, c),
{
    law_holds_uses(a, b);
    law_holds_uses(b, c);
    law_holds_uses(a, c);
}

proof fn lemma_premise_on(left: &Chain<ConformancePremise>, right: &Chain<ConformancePremise>, param: u32)
    requires
        premises_imply(left, right),
        premise_on(right, param) is Some,
    ensures
        premise_on(left, param) is Some,
        holds_uses(&premise_on(left, param)->0.bounds, &premise_on(right, param)->0.bounds),
    decreases right,
{
    match right {
        Chain::Nil => {},
        Chain::Cons(head, tail) => {
            if head.param != param {
                lemma_premise_on(left, tail, param);
            }
        },
    }
}

/// Implication of premises is transitive.
pub proof fn law_premises_imply_further(a: &Chain<ConformancePremise>, b: &Chain<ConformancePremise>, c: &Chain<ConformancePremise>)
    requires
        premises_imply(a, b),
        premises_imply(b, c),
    ensures
        premises_imply(a, c),
    decreases c,
{
    match c {
        Chain::Nil => {},
        Chain::Cons(head, tail) => {
            law_premises_imply_further(a, b, tail);
            lemma_premise_on(a, b, head.param);
            law_holds_uses_further(&premise_on(a, head.param)->0.bounds, &premise_on(b, head.param)->0.bounds, &head.bounds);
        },
    }
}

/// Whether each parameter has one premise at most.
pub open spec fn one_each(premises: &Chain<ConformancePremise>) -> bool
    decreases premises,
{
    match premises {
        Chain::Nil => true,
        Chain::Cons(head, tail) => premise_on(tail, head.param) is None && one_each(tail),
    }
}

proof fn lemma_premises_imply_more(head: ConformancePremise, tail: &Chain<ConformancePremise>, right: &Chain<ConformancePremise>)
    requires
        premises_imply(tail, right),
        premise_on(tail, head.param) is None,
    ensures
        premises_imply(&Chain::Cons(Box::new(head), Box::new(*tail)), right),
    decreases right,
{
    match right {
        Chain::Nil => {},
        Chain::Cons(_, rest) => lemma_premises_imply_more(head, tail, rest),
    }
}

/// Premises imply themselves, where each parameter has one at most.
pub proof fn law_premises_imply_same(premises: &Chain<ConformancePremise>)
    requires
        one_each(premises),
    ensures
        premises_imply(premises, premises),
    decreases premises,
{
    match premises {
        Chain::Nil => {},
        Chain::Cons(head, tail) => {
            law_premises_imply_same(tail);
            lemma_premises_imply_more(**head, tail, tail);
            law_holds_uses_same(&head.bounds);
        },
    }
}

/// A bound table provides its own bounds.
pub proof fn law_bounds_imply_same(table: &Chain<Chain<InterfaceUse>>)
    ensures
        bounds_imply(table, table),
    decreases table,
{
    match table {
        Chain::Nil => {},
        Chain::Cons(head, tail) => {
            law_holds_uses_same(head);
            law_bounds_imply_same(tail);
        },
    }
}

/// Providing bounds is transitive.
pub proof fn law_bounds_imply_further(a: &Chain<Chain<InterfaceUse>>, b: &Chain<Chain<InterfaceUse>>, c: &Chain<Chain<InterfaceUse>>)
    requires
        bounds_imply(a, b),
        bounds_imply(b, c),
    ensures
        bounds_imply(a, c),
    decreases c,
{
    match (a, b, c) {
        (Chain::Cons(x, xs), Chain::Cons(y, ys), Chain::Cons(z, zs)) => {
            law_holds_uses_further(x, y, z);
            law_bounds_imply_further(xs, ys, zs);
        },
        _ => {},
    }
}

/// Merging bounds holds the bounds of both sides.
pub proof fn law_merge_uses(bounds: Chain<InterfaceUse>, more: &Chain<InterfaceUse>)
    ensures
        holds_uses(&merge_uses(bounds, more), &bounds),
        holds_uses(&merge_uses(bounds, more), more),
    decreases more,
{
    match more {
        Chain::Nil => {
            law_holds_uses_same(&bounds);
        },
        Chain::Cons(head, tail) => {
            if holds_use(&bounds, head) {
                law_merge_uses(bounds, tail);
                law_holds_use(&bounds, head);
                law_holds_uses(&merge_uses(bounds, tail), &bounds);
                law_holds_use(&merge_uses(bounds, tail), head);
            } else {
                let longer = append(bounds, **head);
                law_merge_uses(longer, tail);
                law_append(bounds, **head);
                law_holds_uses(&merge_uses(longer, tail), &longer);
                assert(longer@[bounds@.len() as int] == **head);
                assert(longer@.contains(**head));
                law_holds_use(&merge_uses(longer, tail), head);
                law_holds_uses(&merge_uses(longer, tail), &bounds);
                assert forall|u: InterfaceUse| bounds@.contains(u) implies merge_uses(longer, tail)@.contains(u) by {
                    let i = bounds@.index_of(u);
                    assert(longer@[i] == u);
                    assert(longer@.contains(u));
                }
            }
        },
    }
}

/// Merging at one position only adds bounds.
pub proof fn law_merge_at(table: Chain<Chain<InterfaceUse>>, at: u32, more: &Chain<InterfaceUse>)
    ensures
        bounds_imply(&merge_at(table, at, more), &table),
    decreases table,
{
    match table {
        Chain::Nil => {},
        Chain::Cons(head, tail) => {
            if at == 0 {
                law_merge_uses(*head, more);
                law_bounds_imply_same(&*tail);
            } else {
                law_holds_uses_same(&*head);
                law_merge_at(*tail, (at - 1) as u32, more);
            }
        },
    }
}

/// Under premises, a scope provides every bound that it provided without
/// them.
pub proof fn law_merge_premises(table: Chain<Chain<InterfaceUse>>, premises: &Chain<ConformancePremise>)
    ensures
        bounds_imply(&merge_premises(table, premises), &table),
    decreases premises,
{
    match premises {
        Chain::Nil => law_bounds_imply_same(&table),
        Chain::Cons(head, tail) => {
            let next = merge_at(table, head.param, &head.bounds);
            law_merge_at(table, head.param, &head.bounds);
            law_merge_premises(next, tail);
            law_bounds_imply_further(&merge_premises(next, tail), &next, &table);
        },
    }
}

} // verus!
