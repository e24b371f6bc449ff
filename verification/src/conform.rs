//! Conformance of types to interfaces, associated types, and the methods
//! that a class or an interface answers.

use vstd::prelude::*;
use crate::ast::{Span, clone_opt_text};
use crate::chain::{Chain, copy_chain};
use crate::context::{AssocValue, BoundMethod, ConformanceFound, ConformanceInfo, ConformancePremise, Ctx, DefaultEntry, InterfaceMethodSig, InterfaceUse, MethodFound, MethodSig, TyEnv, TypePremise, clone_interface_uses, clone_rows, clone_texts, same_interface_method_sig, same_opt_text, same_rows};
use crate::lists::{concat, cons, count, find_literal, nth, one};
use crate::lookup::{associated_position, class_at, find_method, interface_at, meta_at, nominal_class, own_method, parent_arguments};
use crate::problem::{Diag, Problem, Stop};
use crate::rows::{row_has_var, substitute_row};
use crate::subst::{contains_effect_var, contains_var, has_projection, substitute, substitute_all, substitute_bounds, substitute_interface_use, substitute_uses, variables};
use crate::text::{Text, same_text, text};
use crate::types::{Row, Ty, clone_tys, same_ty, same_tys};
use crate::model;

verus! {

/// The conformance of a class to one interface, as declared.
pub fn find_conformance<'a>(items: &'a Chain<ConformanceInfo>, interface: u32) -> (r: Option<&'a ConformanceInfo>)
    ensures
        r == model::conform::find_conformance(items, interface),
    decreases items,
{
    match items {
        Chain::Nil => None,
        Chain::Cons(head, tail) => {
            if head.application.interface == interface {
                Some(&**head)
            } else {
                find_conformance(tail, interface)
            }
        },
    }
}

/// The bound of a list that names one interface.
pub fn find_bound<'a>(bounds: &'a Chain<InterfaceUse>, interface: u32) -> (r: Option<&'a InterfaceUse>)
    ensures
        r == model::conform::find_bound(bounds, interface),
    decreases bounds,
{
    match bounds {
        Chain::Nil => None,
        Chain::Cons(head, tail) => {
            if head.interface == interface {
                Some(&**head)
            } else {
                find_bound(tail, interface)
            }
        },
    }
}

/// The first premise on one type.
pub fn find_premise<'a>(premises: &'a Chain<TypePremise>, subject: &Ty) -> (r: Option<&'a TypePremise>)
    ensures
        r == model::conform::find_premise(premises, subject),
    decreases premises,
{
    match premises {
        Chain::Nil => None,
        Chain::Cons(head, tail) => {
            if same_ty(&head.subject, &*subject) {
                Some(&**head)
            } else {
                find_premise(tail, subject)
            }
        },
    }
}

/// The bounds of one type variable in a scope.
pub fn variable_bounds<'a>(env: &'a TyEnv, index: u32) -> (r: Option<&'a Chain<InterfaceUse>>)
    ensures
        r == model::conform::variable_bounds(env, index),
{
    if index >= env.type_offset {
        nth(&env.type_bounds, (index - env.type_offset) as u32)
    } else {
        None
    }
}

/// The bounds of one associated type.
pub fn associated_bounds<'a>(cx: &'a Ctx, interface: u32, assoc: u32) -> (r: Option<&'a Chain<InterfaceUse>>)
    ensures
        r == model::conform::associated_bounds(cx, interface, assoc),
{
    match nth(&interface_at(cx, interface).associated, assoc) {
        Some(info) => Some(&info.bounds),
        None => None,
    }
}

/// Whether a type conforms to each bound.
pub fn bounds_hold(
    cx: &Ctx,
    env: &TyEnv,
    actual: &Ty,
    bounds: &Chain<InterfaceUse>,
    args: &Chain<Ty>,
    depth: u32,
) -> (r: bool)
    ensures
        r == model::conform::bounds_hold(cx, env, actual, bounds, args, depth),
    decreases 128 - depth, 0int, 0int, 0int, bounds,
{
    if depth >= 128 {
        return false;
    }
    match bounds {
        Chain::Nil => true,
        Chain::Cons(head, tail) => {
            let required = substitute_interface_use(head, args, &Chain::Nil);
            type_conforms_depth(cx, env, actual, &required, (depth + 1) as u32) && bounds_hold(cx, env, actual, tail, args, depth)
        },
    }
}

/// Whether the type arguments of a class meet the premises of one of its
/// conformances. `None` when a premise names no argument.
pub fn premises_hold(
    cx: &Ctx,
    env: &TyEnv,
    premises: &Chain<ConformancePremise>,
    args: &Chain<Ty>,
    depth: u32,
) -> (r: Option<bool>)
    ensures
        r == model::conform::premises_hold(cx, env, premises, args, depth),
    decreases 128 - depth, 1int, 0int, 0int, premises,
{
    match premises {
        Chain::Nil => Some(true),
        Chain::Cons(head, tail) => {
            let actual = match nth(args, head.param) {
                Some(found) => found,
                None => {
                    return None;
                },
            };
            if bounds_hold(cx, env, actual, &head.bounds, args, depth) {
                premises_hold(cx, env, tail, args, depth)
            } else {
                Some(false)
            }
        },
    }
}

/// The conformance of the parent of a class, or of an ancestor above it.
pub fn conformance_above(
    cx: &Ctx,
    env: &TyEnv,
    class: u32,
    args: &Chain<Ty>,
    interface: u32,
    depth: u32,
) -> (r: Option<ConformanceFound>)
    ensures
        r == model::conform::conformance_above(cx, env, class, args, interface, depth),
    decreases 128 - depth, 2int, class as int, 0int, Chain::<u32>::Nil,
{
    let parent = match meta_at(cx, class).parent {
        Some(found) => found,
        None => {
            return None;
        },
    };
    if parent >= class {
        return None;
    }
    let above = parent_arguments(cx, class, args);
    conformance_from(cx, env, parent, &above, interface, depth)
}

/// The satisfied conformance of a class or of its nearest ancestor.
pub fn conformance_from(
    cx: &Ctx,
    env: &TyEnv,
    class: u32,
    args: &Chain<Ty>,
    interface: u32,
    depth: u32,
) -> (r: Option<ConformanceFound>)
    ensures
        r == model::conform::conformance_from(cx, env, class, args, interface, depth),
    decreases 128 - depth, 2int, class as int, 1int, Chain::<u32>::Nil,
{
    let info = match nth(&cx.classes, class) {
        Some(found) => found,
        None => {
            return None;
        },
    };
    match find_conformance(&info.conformances, interface) {
        None => conformance_above(cx, env, class, args, interface, depth),
        Some(conformance) => {
            match premises_hold(cx, env, &conformance.premises, args, depth) {
                None => None,
                Some(true) => Some(ConformanceFound { info: (*conformance).clone(), args: clone_tys(&*args) }),
                Some(false) => conformance_above(cx, env, class, args, interface, depth),
            }
        },
    }
}

/// Find a satisfied conformance and its declaring type arguments.
pub fn conformance_entry(cx: &Ctx, env: &TyEnv, ty: &Ty, interface: u32, depth: u32) -> (r: Option<ConformanceFound>)
    ensures
        r == model::conform::conformance_entry(cx, env, ty, interface, depth),
    decreases 128 - depth, 3int, 0int, 0int, Chain::<u32>::Nil,
{
    if depth >= 128 {
        return None;
    }
    let start = match nominal_class(cx, ty) {
        Some(found) => found,
        None => {
            return None;
        },
    };
    conformance_from(cx, env, start.class, &start.args, interface, depth)
}

/// Find a concrete or inherited conformance for one nominal type.
pub fn conformance_use(cx: &Ctx, env: &TyEnv, ty: &Ty, interface: u32, depth: u32) -> (r: Option<InterfaceUse>)
    ensures
        r == model::conform::conformance_use(cx, env, ty, interface, depth),
    decreases 128 - depth, 4int, 0int, 0int, Chain::<u32>::Nil,
{
    let found = match conformance_entry(cx, env, ty, interface, depth) {
        Some(found) => found,
        None => {
            return None;
        },
    };
    Some(substitute_interface_use(&found.info.application, &found.args, &Chain::Nil))
}

/// Resolve one associated type through a satisfied conformance.
pub fn conformance_associated(cx: &Ctx, env: &TyEnv, ty: &Ty, interface: u32, assoc: u32) -> (r: Option<Ty>)
    ensures
        r == model::conform::conformance_associated(cx, env, ty, interface, assoc),
{
    let found = match conformance_entry(cx, env, ty, interface, 0u32) {
        Some(found) => found,
        None => {
            return None;
        },
    };
    match nth(&found.info.associated, assoc) {
        Some(value) => Some(substitute(value, &found.args, &Chain::Nil)),
        None => None,
    }
}

/// The copy of a bound.
pub fn copied(bound: Option<&InterfaceUse>) -> (r: Option<InterfaceUse>)
    ensures
        r == model::conform::copied(bound),
{
    match bound {
        Some(found) => Some((*found).clone()),
        None => None,
    }
}

/// The application under which a type conforms to an interface.
pub fn declared_conformance(cx: &Ctx, env: &TyEnv, ty: &Ty, interface: u32, depth: u32) -> (r: Option<InterfaceUse>)
    ensures
        r == model::conform::declared_conformance(cx, env, ty, interface, depth),
    decreases 128 - depth, 5int, 0int, 0int, Chain::<u32>::Nil,
{
    match ty {
        Ty::Var(index) => {
            if *index >= env.type_offset {
                match variable_bounds(env, *index) {
                    Some(bounds) => copied(find_bound(bounds, interface)),
                    None => None,
                }
            } else {
                conformance_use(cx, env, ty, interface, depth)
            }
        },
        Ty::Projection(_, owner, assoc) => {
            match associated_bounds(cx, *owner, *assoc) {
                Some(bounds) => copied(find_bound(bounds, interface)),
                None => None,
            }
        },
        _ => conformance_use(cx, env, ty, interface, depth),
    }
}

/// Find one interface application with bounded premise recursion.
pub fn type_conformance_depth(cx: &Ctx, env: &TyEnv, ty: &Ty, interface: u32, depth: u32) -> (r: Option<InterfaceUse>)
    ensures
        r == model::conform::type_conformance_depth(cx, env, ty, interface, depth),
    decreases 128 - depth, 6int, 0int, 0int, Chain::<u32>::Nil,
{
    if depth >= 128 {
        return None;
    }
    match find_premise(&env.extra_bounds, ty) {
        None => declared_conformance(cx, env, ty, interface, depth),
        Some(premise) => {
            match find_bound(&premise.bounds, interface) {
                Some(bound) => Some((*bound).clone()),
                None => declared_conformance(cx, env, ty, interface, depth),
            }
        },
    }
}

/// Test one type against one application with bounded recursion.
pub fn type_conforms_depth(cx: &Ctx, env: &TyEnv, ty: &Ty, required: &InterfaceUse, depth: u32) -> (r: bool)
    ensures
        r == model::conform::type_conforms_depth(cx, env, ty, required, depth),
    decreases 128 - depth, 7int, 0int, 0int, Chain::<u32>::Nil,
{
    match type_conformance_depth(cx, env, ty, required.interface, depth) {
        None => false,
        Some(found) => same_tys(&found.type_args, &required.type_args) && same_rows(&found.row_args, &required.row_args),
    }
}

/// Find one interface application for a type in this scope.
pub fn type_conformance(cx: &Ctx, env: &TyEnv, ty: &Ty, interface: u32) -> (r: Option<InterfaceUse>)
    ensures
        r == model::conform::type_conformance(cx, env, ty, interface),
{
    type_conformance_depth(cx, env, ty, interface, 0u32)
}

/// Test one type against one required interface application.
pub fn type_conforms(cx: &Ctx, env: &TyEnv, ty: &Ty, required: &InterfaceUse) -> (r: bool)
    ensures
        r == model::conform::type_conforms(cx, env, ty, required),
{
    type_conforms_depth(cx, env, ty, required, 0u32)
}

/// The first bound of a premise that a type argument does not meet.
pub fn failed_bound(
    cx: &Ctx,
    env: &TyEnv,
    actual: &Ty,
    bounds: &Chain<InterfaceUse>,
    args: &Chain<Ty>,
) -> (r: Option<InterfaceUse>)
    ensures
        r == model::conform::failed_bound(cx, env, actual, bounds, args),
    decreases bounds,
{
    match bounds {
        Chain::Nil => None,
        Chain::Cons(head, tail) => {
            let required = substitute_interface_use(head, args, &Chain::Nil);
            if type_conforms(cx, env, actual, &required) {
                failed_bound(cx, env, actual, tail, args)
            } else {
                Some(required)
            }
        },
    }
}

/// The first failed premise: `Err` when a premise names no argument.
pub fn failed_premise(
    cx: &Ctx,
    env: &TyEnv,
    premises: &Chain<ConformancePremise>,
    args: &Chain<Ty>,
) -> (r: Result<Option<TypePremise>, ()>)
    ensures
        r == model::conform::failed_premise(cx, env, premises, args),
    decreases premises,
{
    match premises {
        Chain::Nil => Ok(None),
        Chain::Cons(head, tail) => {
            let actual = match nth(args, head.param) {
                Some(found) => found,
                None => {
                    return Err(());
                },
            };
            match failed_bound(cx, env, actual, &head.bounds, args) {
                Some(required) => Ok(Some(TypePremise { subject: (*actual).clone(), bounds: one(required) })),
                None => failed_premise(cx, env, tail, args),
            }
        },
    }
}

/// The premise that fails above a class.
pub fn failure_above(cx: &Ctx, env: &TyEnv, class: u32, args: &Chain<Ty>, interface: u32) -> (r: Option<TypePremise>)
    ensures
        r == model::conform::failure_above(cx, env, class, args, interface),
    decreases class, 0int,
{
    let parent = match meta_at(cx, class).parent {
        Some(found) => found,
        None => {
            return None;
        },
    };
    if parent >= class {
        return None;
    }
    let above = parent_arguments(cx, class, args);
    failure_from(cx, env, parent, &above, interface)
}

/// The premise that fails at a class or above it.
pub fn failure_from(cx: &Ctx, env: &TyEnv, class: u32, args: &Chain<Ty>, interface: u32) -> (r: Option<TypePremise>)
    ensures
        r == model::conform::failure_from(cx, env, class, args, interface),
    decreases class, 1int,
{
    let info = match nth(&cx.classes, class) {
        Some(found) => found,
        None => {
            return None;
        },
    };
    match find_conformance(&info.conformances, interface) {
        None => failure_above(cx, env, class, args, interface),
        Some(conformance) => {
            match failed_premise(cx, env, &conformance.premises, args) {
                Err(_) => None,
                Ok(Some(failed)) => Some(failed),
                Ok(None) => failure_above(cx, env, class, args, interface),
            }
        },
    }
}

/// Find the first failed premise of one conditional conformance: the
/// type argument and the bound that it does not meet.
pub fn conformance_failure(cx: &Ctx, env: &TyEnv, ty: &Ty, interface: u32) -> (r: Option<TypePremise>)
    ensures
        r == model::conform::conformance_failure(cx, env, ty, interface),
{
    let start = match nominal_class(cx, ty) {
        Some(found) => found,
        None => {
            return None;
        },
    };
    failure_from(cx, env, start.class, &start.args, interface)
}

/// Whether one argument meets its bounds.
pub fn argument_meets(
    cx: &Ctx,
    env: &TyEnv,
    actual: &Ty,
    bounds: &Chain<InterfaceUse>,
    types: &Chain<Ty>,
    rows: &Chain<Row>,
) -> (r: bool)
    ensures
        r == model::conform::argument_meets(cx, env, actual, bounds, types, rows),
    decreases bounds,
{
    match bounds {
        Chain::Nil => true,
        Chain::Cons(head, tail) => {
            let required = substitute_interface_use(head, types, rows);
            type_conforms(cx, env, actual, &required) && argument_meets(cx, env, actual, tail, types, rows)
        },
    }
}

/// Whether each argument meets its bounds.
pub fn arguments_meet(
    cx: &Ctx,
    env: &TyEnv,
    args: &Chain<Ty>,
    bounds: &Chain<Chain<InterfaceUse>>,
    types: &Chain<Ty>,
    rows: &Chain<Row>,
) -> (r: bool)
    ensures
        r == model::conform::arguments_meet(cx, env, args, bounds, types, rows),
    decreases args,
{
    match (args, bounds) {
        (Chain::Cons(arg, more), Chain::Cons(own, rest)) => argument_meets(cx, env, arg, own, types, rows) && arguments_meet(cx, env, more, rest, types, rows),
        _ => true,
    }
}

/// Test the type arguments of one interface application.
pub fn interface_arguments_meet_bounds(cx: &Ctx, env: &TyEnv, receiver: &Ty, application: &InterfaceUse) -> (r: bool)
    ensures
        r == model::conform::interface_arguments_meet_bounds(cx, env, receiver, application),
{
    let contract = match nth(&cx.interfaces, application.interface) {
        Some(found) => found,
        None => {
            return false;
        },
    };
    let types = cons((*receiver).clone(), clone_tys(&application.type_args));
    arguments_meet(cx, env, &application.type_args, &contract.type_bounds, &types, &application.row_args)
}

/// The values that a class gives the associated types of an interface.
pub fn assoc_values<'a>(items: &'a Chain<AssocValue>, class: u32, interface: u32) -> (r: Option<&'a Chain<Ty>>)
    ensures
        r == model::conform::assoc_values(items, class, interface),
    decreases items,
{
    match items {
        Chain::Nil => None,
        Chain::Cons(head, tail) => {
            if head.class == class && head.interface == interface {
                Some(&head.values)
            } else {
                assoc_values(tail, class, interface)
            }
        },
    }
}

/// An associated type of a type: the declared value for a class that
/// gives one, the bare projection for any other.
pub fn project(cx: &Ctx, base: Ty, interface: u32, assoc: u32) -> (r: Ty)
    ensures
        r == model::conform::project(cx, base, interface, assoc),
{
    let start = match nominal_class(cx, &base) {
        Some(found) => found,
        None => {
            return Ty::Projection(Box::new(base), interface, assoc);
        },
    };
    let values = match assoc_values(&cx.assoc_values, start.class, interface) {
        Some(found) => found,
        None => {
            return Ty::Projection(Box::new(base), interface, assoc);
        },
    };
    match nth(values, assoc) {
        Some(value) => substitute(value, &start.args, &Chain::Nil),
        None => Ty::Projection(Box::new(base), interface, assoc),
    }
}

/// The checked item equality of the core iteration interfaces: the item
/// of the iterator of a source is the item of the source.
pub fn iterable_item_alias(cx: &Ctx, base: &Ty, interface: u32, assoc: u32) -> (r: Option<Ty>)
    ensures
        r == model::conform::iterable_item_alias(cx, base, interface, assoc),
{
    let iterable = match find_literal(&cx.core_interfaces, "Iterable") {
        Some(found) => found,
        None => {
            return None;
        },
    };
    let iterator = match find_literal(&cx.core_interfaces, "Iterator") {
        Some(found) => found,
        None => {
            return None;
        },
    };
    if interface != iterator {
        return None;
    }
    let item = text("Item");
    let iter = text("Iter");
    let iterator_item = match associated_position(&interface_at(cx, iterator).associated, &item) {
        Some(found) => found,
        None => {
            return None;
        },
    };
    if assoc != iterator_item {
        return None;
    }
    match base {
        Ty::Projection(source, owner, iter_assoc) => {
            let iterable_iter = match associated_position(&interface_at(cx, iterable).associated, &iter) {
                Some(found) => found,
                None => {
                    return None;
                },
            };
            if *owner != iterable || *iter_assoc != iterable_iter {
                return None;
            }
            let iterable_item = match associated_position(&interface_at(cx, iterable).associated, &item) {
                Some(found) => found,
                None => {
                    return None;
                },
            };
            Some(project(cx, (**source).clone(), iterable, iterable_item))
        },
        _ => None,
    }
}

/// Resolve the projections of each type.
pub fn normalize_all(cx: &Ctx, env: &TyEnv, items: &Chain<Ty>, depth: u32) -> (r: Chain<Ty>)
    ensures
        r == model::conform::normalize_all(cx, env, items, depth),
    decreases 128 - depth, items,
{
    match items {
        Chain::Nil => Chain::Nil,
        Chain::Cons(head, tail) => cons(normalize_depth(cx, env, head, depth), normalize_all(cx, env, tail, depth)),
    }
}

/// Resolve projections up to the depth limit.
pub fn normalize_depth(cx: &Ctx, env: &TyEnv, ty: &Ty, depth: u32) -> (r: Ty)
    ensures
        r == model::conform::normalize_depth(cx, env, ty, depth),
    decreases 128 - depth, ty,
{
    if depth >= 128 {
        return (*ty).clone();
    }
    let next = (depth + 1) as u32;
    match ty {
        Ty::Projection(source, interface, assoc) => {
            let base = normalize_depth(cx, env, source, next);
            match iterable_item_alias(cx, &base, *interface, *assoc) {
                Some(alias) => normalize_depth(cx, env, &alias, next),
                None => {
                    match conformance_associated(cx, env, &base, *interface, *assoc) {
                        None => project(cx, base, *interface, *assoc),
                        Some(resolved) => {
                            if same_ty(&resolved, &*ty) {
                                project(cx, base, *interface, *assoc)
                            } else {
                                normalize_depth(cx, env, &resolved, next)
                            }
                        },
                    }
                },
            }
        },
        Ty::Inst(class, args) => Ty::Inst(*class, normalize_all(cx, env, args, next)),
        Ty::ListOf(item) => Ty::ListOf(Box::new(normalize_depth(cx, env, item, next))),
        Ty::MapOf(key, value) => Ty::MapOf(Box::new(normalize_depth(cx, env, key, next)), Box::new(normalize_depth(cx, env, value, next))),
        Ty::Tuple(items) => Ty::Tuple(normalize_all(cx, env, items, next)),
        Ty::Fn(params, muts, ret, row) => Ty::Fn(normalize_all(cx, env, params, next), copy_chain(&*muts), Box::new(normalize_depth(cx, env, ret, next)), copy_chain(&*row)),
        Ty::Callback(params, muts, ret, row) => Ty::Callback(normalize_all(cx, env, params, next), copy_chain(&*muts), Box::new(normalize_depth(cx, env, ret, next)), copy_chain(&*row)),
        Ty::Run(item) => Ty::Run(Box::new(normalize_depth(cx, env, item, next))),
        Ty::Wait(item) => Ty::Wait(Box::new(normalize_depth(cx, env, item, next))),
        Ty::PendingCall(argument, reply) => Ty::PendingCall(Box::new(normalize_depth(cx, env, argument, next)), Box::new(normalize_depth(cx, env, reply, next))),
        Ty::Handle(message, result) => Ty::Handle(Box::new(normalize_depth(cx, env, message, next)), Box::new(normalize_depth(cx, env, result, next))),
        Ty::RunSnapshot(item) => Ty::RunSnapshot(Box::new(normalize_depth(cx, env, item, next))),
        Ty::Op(operation, callable) => Ty::Op(*operation, Box::new(normalize_depth(cx, env, callable, next))),
        _ => (*ty).clone(),
    }
}

/// Resolve associated projections that have concrete conformances.
pub fn normalize_associated(cx: &Ctx, env: &TyEnv, ty: &Ty) -> (r: Ty)
    ensures
        r == model::conform::normalize_associated(cx, env, ty),
{
    if has_projection(ty) {
        normalize_depth(cx, env, ty, 0u32)
    } else {
        (*ty).clone()
    }
}

/// Whether each type of a list names no variable.
pub fn all_closed(items: &Chain<Ty>) -> (r: bool)
    ensures
        r == model::conform::all_closed(items),
    decreases items,
{
    match items {
        Chain::Nil => true,
        Chain::Cons(head, tail) => !contains_var(head) && !contains_effect_var(head) && all_closed(tail),
    }
}

/// Substitute in each premise.
pub fn substitute_premises(items: &Chain<TypePremise>, types: &Chain<Ty>, rows: &Chain<Row>) -> (r: Chain<TypePremise>)
    ensures
        r == model::conform::substitute_premises(items, types, rows),
    decreases items,
{
    match items {
        Chain::Nil => Chain::Nil,
        Chain::Cons(head, tail) => {
            let premise = TypePremise {
                subject: substitute(&head.subject, types, rows),
                bounds: substitute_uses(&head.bounds, types, rows),
            };
            cons(premise, substitute_premises(tail, types, rows))
        },
    }
}

/// The requirement of an interface method for one receiver and one
/// application. A requirement without variables stays as it is.
pub fn instantiate_interface_method(
    receiver: &Ty,
    application: &InterfaceUse,
    method: &InterfaceMethodSig,
) -> (r: InterfaceMethodSig)
    ensures
        r == model::conform::instantiate_interface_method(receiver, application, method),
{
    if all_closed(&method.params) && !contains_var(&method.ret) && !contains_effect_var(&method.ret) && !row_has_var(&method.row) {
        return (*method).clone();
    }
    let types = cons((*receiver).clone(), clone_tys(&application.type_args));
    let rows = clone_rows(&application.row_args);
    InterfaceMethodSig {
        name: copy_chain(&method.name),
        mut_self: method.mut_self,
        own_type_params: clone_texts(&method.own_type_params),
        own_type_bounds: substitute_bounds(&method.own_type_bounds, &types, &rows),
        own_effect_params: clone_texts(&method.own_effect_params),
        premises: substitute_premises(&method.premises, &types, &rows),
        params: substitute_all(&method.params, &types, &rows),
        param_muts: copy_chain(&method.param_muts),
        param_names: clone_texts(&method.param_names),
        ret: substitute(&method.ret, &types, &rows),
        row: substitute_row(&method.row, &rows),
        default_func: method.default_func,
        default_binding: clone_opt_text(&method.default_binding),
    }
}

/// The method that one of the bounds requires.
pub fn bound_method_in(
    cx: &Ctx,
    applications: &Chain<InterfaceUse>,
    found: Option<BoundMethod>,
    name: &Text,
    span: Span,
) -> (r: Result<Option<BoundMethod>, Stop>)
    ensures
        r == model::conform::bound_method_in(cx, applications, found, name, span),
    decreases applications,
{
    match applications {
        Chain::Nil => Ok(found),
        Chain::Cons(head, tail) => {
            let contract = interface_at(cx, head.interface);
            match find_method(&contract.methods, name) {
                None => bound_method_in(cx, tail, found, name, span),
                Some(method) => {
                    match nth(&contract.methods, method) {
                        None => bound_method_in(cx, tail, found, name, span),
                        Some(requirement) => {
                            match found {
                                None => {
                                    let candidate = BoundMethod { application: (**head).clone(), interface: head.interface, method: method, sig: (*requirement).clone() };
                                    bound_method_in(cx, tail, Some(candidate), name, span)
                                },
                                Some(first) => {
                                    if same_interface_method_sig(&first.sig, &*requirement) {
                                        bound_method_in(cx, tail, Some(first), name, span)
                                    } else {
                                        Err(Stop::Fail(Diag { problem: Problem::AmbiguousMethod, subject: copy_chain(&*name), span: span }))
                                    }
                                },
                            }
                        },
                    }
                },
            }
        },
    }
}

/// The bounds that premises give a type.
pub fn premise_bounds(premises: &Chain<TypePremise>, subject: &Ty) -> (r: Chain<InterfaceUse>)
    ensures
        r == model::conform::premise_bounds(premises, subject),
    decreases premises,
{
    match premises {
        Chain::Nil => Chain::Nil,
        Chain::Cons(head, tail) => {
            let rest = premise_bounds(tail, subject);
            if same_ty(&head.subject, &*subject) {
                concat(clone_interface_uses(&head.bounds), rest)
            } else {
                rest
            }
        },
    }
}

/// A copy of bounds, where there are any.
pub fn copied_bounds(bounds: Option<&Chain<InterfaceUse>>) -> (r: Chain<InterfaceUse>)
    ensures
        r == model::conform::copied_bounds(bounds),
{
    match bounds {
        Some(found) => clone_interface_uses(&*found),
        None => Chain::Nil,
    }
}

/// Resolve one method through the interfaces on a static type: the
/// bounds of a type variable or of an associated type.
pub fn bound_method(cx: &Ctx, env: &TyEnv, ty: &Ty, name: &Text, span: Span) -> (r: Result<Option<BoundMethod>, Stop>)
    ensures
        r == model::conform::bound_method(cx, env, ty, name, span),
{
    match ty {
        Ty::Var(index) => {
            if *index >= env.type_offset {
                let applications = concat(copied_bounds(variable_bounds(env, *index)), premise_bounds(&env.extra_bounds, ty));
                bound_method_in(cx, &applications, None, name, span)
            } else {
                Ok(None)
            }
        },
        Ty::Projection(_, interface, assoc) => {
            let applications = concat(copied_bounds(associated_bounds(cx, *interface, *assoc)), premise_bounds(&env.extra_bounds, ty));
            bound_method_in(cx, &applications, None, name, span)
        },
        _ => Ok(None),
    }
}

/// The default method that the interfaces of a type give a name.
pub fn default_method_in(
    cx: &Ctx,
    env: &TyEnv,
    ty: &Ty,
    candidates: &Chain<DefaultEntry>,
    found: Option<BoundMethod>,
    name: &Text,
    span: Span,
) -> (r: Result<Option<BoundMethod>, Stop>)
    ensures
        r == model::conform::default_method_in(cx, env, ty, candidates, found, name, span),
    decreases candidates,
{
    match candidates {
        Chain::Nil => Ok(found),
        Chain::Cons(head, tail) => {
            if !same_text(&head.name, &*name) {
                default_method_in(cx, env, ty, tail, found, name, span)
            } else {
                match type_conformance(cx, env, ty, head.interface) {
                    None => default_method_in(cx, env, ty, tail, found, name, span),
                    Some(application) => {
                        match nth(&interface_at(cx, head.interface).methods, head.method) {
                            None => default_method_in(cx, env, ty, tail, found, name, span),
                            Some(requirement) => {
                                match found {
                                    None => {
                                        let candidate = BoundMethod { application: application, interface: head.interface, method: head.method, sig: (*requirement).clone() };
                                        default_method_in(cx, env, ty, tail, Some(candidate), name, span)
                                    },
                                    Some(first) => {
                                        if same_opt_text(&first.sig.default_binding, &requirement.default_binding) {
                                            default_method_in(cx, env, ty, tail, Some(first), name, span)
                                        } else {
                                            Err(Stop::Fail(Diag { problem: Problem::AmbiguousDefault { first: first.interface, second: head.interface }, subject: copy_chain(&*name), span: span }))
                                        }
                                    },
                                }
                            },
                        }
                    },
                }
            }
        },
    }
}

/// Find one interface default for a concrete receiver.
pub fn default_method(cx: &Ctx, env: &TyEnv, ty: &Ty, name: &Text, span: Span) -> (r: Result<Option<BoundMethod>, Stop>)
    ensures
        r == model::conform::default_method(cx, env, ty, name, span),
{
    default_method_in(cx, env, ty, &cx.interface_defaults, None, name, span)
}

/// A scope without names.
pub fn empty_env() -> (r: TyEnv)
    ensures
        r == model::conform::empty_env(),
{
    TyEnv {
        type_names: Chain::Nil,
        type_bounds: Chain::Nil,
        extra_bounds: Chain::Nil,
        effect_names: Chain::Nil,
        type_offset: 0,
        self_interface: None,
        self_ty: None,
        core_scope: false,
    }
}

/// One empty bound list for each element.
pub fn empty_bounds<T>(items: &Chain<T>) -> (r: Chain<Chain<InterfaceUse>>)
    ensures
        r == model::conform::empty_bounds(items),
    decreases items,
{
    match items {
        Chain::Nil => Chain::Nil,
        Chain::Cons(_, tail) => cons(Chain::Nil, empty_bounds(tail)),
    }
}

/// Empty bound lists of the given number.
pub fn no_bounds(total: u32) -> (r: Chain<Chain<InterfaceUse>>)
    ensures
        r == model::conform::no_bounds(total),
    decreases total,
{
    if total == 0 {
        Chain::Nil
    } else {
        cons(Chain::Nil, no_bounds((total - 1) as u32))
    }
}

/// Re-express one inherited method signature in the type parameters of
/// the subclass. `args` replaces the class parameters of the declaring
/// class, and the method's own parameters move down to follow the
/// subclass parameters. `None` when an argument does not meet its bound.
pub fn substitute_method(cx: &Ctx, sig: &MethodSig, args: &Chain<Ty>, arity: u32) -> (r: Option<MethodSig>)
    ensures
        r == model::conform::substitute_method(cx, sig, args, arity),
{
    let env = empty_env();
    if !arguments_meet(cx, &env, args, &sig.class_type_bounds, args, &Chain::Nil) {
        return None;
    }
    let types = concat(clone_tys(&*args), variables(&sig.own_type_params, arity));
    Some(MethodSig {
        name: copy_chain(&sig.name),
        func: sig.func,
        mut_self: sig.mut_self,
        params: substitute_all(&sig.params, &types, &Chain::Nil),
        param_muts: copy_chain(&sig.param_muts),
        param_names: clone_texts(&sig.param_names),
        ret: substitute(&sig.ret, &types, &Chain::Nil),
        row: copy_chain(&sig.row),
        class_type_bounds: no_bounds(arity),
        own_type_params: clone_texts(&sig.own_type_params),
        own_type_bounds: substitute_bounds(&sig.own_type_bounds, &types, &Chain::Nil),
        own_effect_params: clone_texts(&sig.own_effect_params),
    })
}

/// The method `name` that the ancestor chain from `start` answers.
/// `args` holds the type arguments of `start` seen from the class the
/// caller asked about, and `arity` is that class's own generic arity.
pub fn lookup_method(cx: &Ctx, start: u32, args: Chain<Ty>, arity: u32, name: &Text) -> (r: Option<MethodFound>)
    ensures
        r == model::conform::lookup_method(cx, start, args, arity, name),
    decreases start,
{
    match own_method(&class_at(cx, start).methods, name) {
        Some(sig) => {
            if args.is_empty() {
                Some(MethodFound { sig: (*sig).clone(), owner_args: args, owner: start })
            } else {
                let seen = match substitute_method(cx, sig, &args, arity) {
                    Some(found) => found,
                    None => {
                        return None;
                    },
                };
                Some(MethodFound { sig: seen, owner_args: args, owner: start })
            }
        },
        None => {
            let parent = match meta_at(cx, start).parent {
                Some(found) => found,
                None => {
                    return None;
                },
            };
            if parent >= start {
                return None;
            }
            lookup_method(cx, parent, clone_tys(&meta_at(cx, start).parent_args), arity, name)
        },
    }
}

/// Find a method by name and return the declaring class with its type
/// arguments, seen from `class`.
pub fn find_method_owner(cx: &Ctx, class: u32, name: &Text) -> (r: Option<MethodFound>)
    ensures
        r == model::conform::find_method_owner(cx, class, name),
{
    lookup_method(cx, class, Chain::Nil, count(&class_at(cx, class).type_params), name)
}

/// The `Option` type of one item type.
pub fn option_of(cx: &Ctx, item: Ty) -> (r: Ty)
    ensures
        r == model::conform::option_of(cx, item),
{
    Ty::Inst(cx.core.option_class, one(item))
}

} // verus!
