//! Premises: the bounds that a conformance or a method adds to the type
//! parameters of its class.
//!
//! The functions here state what the functions of the same name compute.

use vstd::prelude::*;
use crate::ast::GenericParam;
use crate::chain::Chain;
use crate::context::{ConformancePremise, Ctx, Decl, InterfaceUse, TyEnv};
use crate::model::lists::{append, cons, nth, one, position};
use crate::model::resolve::{expand_interface_bounds, named, resolve_interface_bounds};
use crate::problem::{Problem, Stop};
use crate::text::Text;
use crate::types::Ty;

verus! {

/// Whether a bound list holds one application.
pub open spec fn holds_use(bounds: &Chain<InterfaceUse>, bound: &InterfaceUse) -> bool
    decreases bounds,
{
    match bounds {
        Chain::Nil => false,
        Chain::Cons(head, tail) => (**head == *bound) || holds_use(tail, bound),
    }
}

/// Whether a bound list holds every application of a second one.
pub open spec fn holds_uses(bounds: &Chain<InterfaceUse>, required: &Chain<InterfaceUse>) -> bool
    decreases required,
{
    match required {
        Chain::Nil => true,
        Chain::Cons(head, tail) => holds_use(bounds, head) && holds_uses(bounds, tail),
    }
}

/// The premise on one type parameter.
pub open spec fn premise_on<'a>(premises: &'a Chain<ConformancePremise>, param: u32) -> Option<&'a ConformancePremise>
    decreases premises,
{
    match premises {
        Chain::Nil => None,
        Chain::Cons(head, tail) => {
            if head.param == param {
                Some(&**head)
            } else {
                premise_on(tail, param)
            }
        },
    }
}

/// Test whether one premise set provides every bound in another set.
pub open spec fn premises_imply(left: &Chain<ConformancePremise>, right: &Chain<ConformancePremise>) -> bool
    decreases right,
{
    match right {
        Chain::Nil => true,
        Chain::Cons(head, tail) => {
            match premise_on(left, head.param) {
                None => false,
                Some(candidate) => holds_uses(&candidate.bounds, &head.bounds) && premises_imply(left, tail),
            }
        },
    }
}

/// Test whether one bound table provides every required bound.
pub open spec fn bounds_imply(
    available: &Chain<Chain<InterfaceUse>>,
    required: &Chain<Chain<InterfaceUse>>,
) -> bool
    decreases required,
{
    match (available, required) {
        (_, Chain::Nil) => true,
        (Chain::Nil, Chain::Cons(_, _)) => false,
        (Chain::Cons(actual, more), Chain::Cons(bounds, rest)) => holds_uses(actual, bounds) && bounds_imply(more, rest),
    }
}

/// A bound list with the applications of a second one that it lacks.
pub open spec fn merge_uses(bounds: Chain<InterfaceUse>, more: &Chain<InterfaceUse>) -> Chain<InterfaceUse>
    decreases more,
{
    match more {
        Chain::Nil => bounds,
        Chain::Cons(head, tail) => {
            if holds_use(&bounds, head) {
                merge_uses(bounds, tail)
            } else {
                merge_uses(append(bounds, **head), tail)
            }
        },
    }
}

/// A bound table with more bounds at one position. A position outside
/// the table changes nothing.
pub open spec fn merge_at(
    table: Chain<Chain<InterfaceUse>>,
    at: u32,
    more: &Chain<InterfaceUse>,
) -> Chain<Chain<InterfaceUse>>
    decreases table,
{
    match table {
        Chain::Nil => Chain::Nil,
        Chain::Cons(head, tail) => {
            if at == 0 {
                cons(merge_uses(*head, more), *tail)
            } else {
                Chain::Cons(head, Box::new(merge_at(*tail, (at - 1) as u32, more)))
            }
        },
    }
}

/// A bound table with the bounds of premises.
pub open spec fn merge_premises(
    table: Chain<Chain<InterfaceUse>>,
    premises: &Chain<ConformancePremise>,
) -> Chain<Chain<InterfaceUse>>
    decreases premises,
{
    match premises {
        Chain::Nil => table,
        Chain::Cons(head, tail) => merge_premises(merge_at(table, head.param, &head.bounds), tail),
    }
}

/// A scope with the bounds of premises.
pub open spec fn add_premises(env: TyEnv, premises: &Chain<ConformancePremise>) -> TyEnv
{
    TyEnv { type_bounds: merge_premises(env.type_bounds, premises), ..env }
}

/// The parameter that a premise names: the one behind the previous
/// premise where the name fits, the first of the name otherwise.
pub open spec fn premise_param(names: &Chain<Text>, name: &Text, next: u32) -> Option<u32>
{
    match nth(names, next) {
        None => position(names, name),
        Some(found) => {
            if (*found == *name) {
                Some(next)
            } else {
                position(names, name)
            }
        },
    }
}

/// A premise list in parameter order with one more premise, behind those
/// on the same parameter.
pub open spec fn insert_premise(premises: Chain<ConformancePremise>, premise: ConformancePremise) -> Chain<ConformancePremise>
    decreases premises,
{
    match premises {
        Chain::Nil => one(premise),
        Chain::Cons(head, tail) => {
            if premise.param < head.param {
                cons(premise, Chain::Cons(head, tail))
            } else {
                Chain::Cons(head, Box::new(insert_premise(*tail, premise)))
            }
        },
    }
}

/// Resolve premises behind the resolved ones.
pub open spec fn premises_after(
    cx: &Ctx,
    env: &TyEnv,
    st: Decl,
    declarations: &Chain<GenericParam>,
    next: u32,
    premises: Chain<ConformancePremise>,
) -> (Decl, Result<Chain<ConformancePremise>, Stop>)
    decreases declarations,
{
    match declarations {
        Chain::Nil => (st, Ok(premises)),
        Chain::Cons(head, tail) => {
            match premise_param(&env.type_names, &head.name, next) {
                None => (st, Err(named(Problem::PremiseUnknown, &head.name, head.span))),
                Some(param) => {
                    match resolve_interface_bounds(cx, env, st, &head.bounds) {
                        (st, Err(stop)) => (st, Err(stop)),
                        (st, Ok(direct)) => {
                            match expand_interface_bounds(cx, &Ty::Var(env.type_offset.wrapping_add(param)), direct, head.span) {
                                Err(stop) => (st, Err(stop)),
                                Ok(bounds) => {
                                    premises_after(cx, env, st, tail, param.wrapping_add(1), insert_premise(premises, ConformancePremise { param: param, bounds: bounds }))
                                },
                            }
                        },
                    }
                },
            }
        },
    }
}

/// Resolve class type parameter premises and their inherited bounds. The
/// premises come out in parameter order.
pub open spec fn resolve_conformance_premises(cx: &Ctx, env: &TyEnv, st: Decl, declarations: &Chain<GenericParam>) -> (Decl, Result<Chain<ConformancePremise>, Stop>)
{
    premises_after(cx, env, st, declarations, 0u32, Chain::Nil)
}

} // verus!
