//! Conformance of types to interfaces, associated types, and the methods
//! that a class or an interface answers.
//!
//! The functions here state what the functions of the same name compute.

use vstd::prelude::*;
use crate::ast::Span;
use crate::chain::{Chain, chain_of};
use crate::context::{AssocValue, BoundMethod, ConformanceFound, ConformanceInfo, ConformancePremise, Ctx, DefaultEntry, InterfaceMethodSig, InterfaceUse, MethodFound, MethodSig, TyEnv, TypePremise};
use crate::model::lists::{concat, cons, count, find_literal, nth, one};
use crate::model::lookup::{associated_position, class_at, find_method, interface_at, meta_at, nominal_class, own_method, parent_arguments};
use crate::model::rows::{row_has_var, substitute_row};
use crate::model::subst::{contains_effect_var, contains_var, has_projection, substitute, substitute_all, substitute_bounds, substitute_interface_use, substitute_uses, variables};
use crate::problem::{Diag, Problem, Stop};
use crate::text::Text;
use crate::types::{Row, Ty};

verus! {

/// The conformance of a class to one interface, as declared.
pub open spec fn find_conformance<'a>(items: &'a Chain<ConformanceInfo>, interface: u32) -> Option<&'a ConformanceInfo>
    decreases items,
{
    match items {
        Chain::Nil => None,
        Chain::Cons(head, tail) => {
            if head.application.interface == interface {
                Some(&**head)
            } else {
                find_conformance(tail, interface)
            }
        },
    }
}

/// The bound of a list that names one interface.
pub open spec fn find_bound<'a>(bounds: &'a Chain<InterfaceUse>, interface: u32) -> Option<&'a InterfaceUse>
    decreases bounds,
{
    match bounds {
        Chain::Nil => None,
        Chain::Cons(head, tail) => {
            if head.interface == interface {
                Some(&**head)
            } else {
                find_bound(tail, interface)
            }
        },
    }
}

/// The first premise on one type.
pub open spec fn find_premise<'a>(premises: &'a Chain<TypePremise>, subject: &Ty) -> Option<&'a TypePremise>
    decreases premises,
{
    match premises {
        Chain::Nil => None,
        Chain::Cons(head, tail) => {
            if (head.subject == *subject) {
                Some(&**head)
            } else {
                find_premise(tail, subject)
            }
        },
    }
}

/// The bounds of one type variable in a scope.
pub open spec fn variable_bounds<'a>(env: &'a TyEnv, index: u32) -> Option<&'a Chain<InterfaceUse>>
{
    if index >= env.type_offset {
        nth(&env.type_bounds, (index - env.type_offset) as u32)
    } else {
        None
    }
}

/// The bounds of one associated type.
pub open spec fn associated_bounds<'a>(cx: &'a Ctx, interface: u32, assoc: u32) -> Option<&'a Chain<InterfaceUse>>
{
    match nth(&interface_at(cx, interface).associated, assoc) {
        Some(info) => Some(&info.bounds),
        None => None,
    }
}

/// Whether a type conforms to each bound.
pub open spec fn bounds_hold(
    cx: &Ctx,
    env: &TyEnv,
    actual: &Ty,
    bounds: &Chain<InterfaceUse>,
    args: &Chain<Ty>,
    depth: u32,
) -> bool
    decreases 128 - depth, 0int, 0int, 0int, bounds,
{
    if depth >= 128 {
        false
    } else {
        match bounds {
            Chain::Nil => true,
            Chain::Cons(head, tail) => {
                let required = substitute_interface_use(head, args, &Chain::Nil);
                type_conforms_depth(cx, env, actual, &required, (depth + 1) as u32) && bounds_hold(cx, env, actual, tail, args, depth)
            },
        }
    }
}

/// Whether the type arguments of a class meet the premises of one of its
/// conformances. `None` when a premise names no argument.
pub open spec fn premises_hold(
    cx: &Ctx,
    env: &TyEnv,
    premises: &Chain<ConformancePremise>,
    args: &Chain<Ty>,
    depth: u32,
) -> Option<bool>
    decreases 128 - depth, 1int, 0int, 0int, premises,
{
    match premises {
        Chain::Nil => Some(true),
        Chain::Cons(head, tail) => {
            match nth(args, head.param) {
                None => None,
                Some(actual) => {
                    if bounds_hold(cx, env, actual, &head.bounds, args, depth) {
                        premises_hold(cx, env, tail, args, depth)
                    } else {
                        Some(false)
                    }
                },
            }
        },
    }
}

/// The conformance of the parent of a class, or of an ancestor above it.
pub open spec fn conformance_above(
    cx: &Ctx,
    env: &TyEnv,
    class: u32,
    args: &Chain<Ty>,
    interface: u32,
    depth: u32,
) -> Option<ConformanceFound>
    decreases 128 - depth, 2int, class as int, 0int, Chain::<u32>::Nil,
{
    match meta_at(cx, class).parent {
        None => None,
        Some(parent) => {
            if parent >= class {
                None
            } else {
                let above = parent_arguments(cx, class, args);
                conformance_from(cx, env, parent, &above, interface, depth)
            }
        },
    }
}

/// The satisfied conformance of a class or of its nearest ancestor.
pub open spec fn conformance_from(
    cx: &Ctx,
    env: &TyEnv,
    class: u32,
    args: &Chain<Ty>,
    interface: u32,
    depth: u32,
) -> Option<ConformanceFound>
    decreases 128 - depth, 2int, class as int, 1int, Chain::<u32>::Nil,
{
    match nth(&cx.classes, class) {
        None => None,
        Some(info) => {
            match find_conformance(&info.conformances, interface) {
                None => conformance_above(cx, env, class, args, interface, depth),
                Some(conformance) => {
                    match premises_hold(cx, env, &conformance.premises, args, depth) {
                        None => None,
                        Some(true) => Some(ConformanceFound { info: *conformance, args: *args }),
                        Some(false) => conformance_above(cx, env, class, args, interface, depth),
                    }
                },
            }
        },
    }
}

/// Find a satisfied conformance and its declaring type arguments.
pub open spec fn conformance_entry(cx: &Ctx, env: &TyEnv, ty: &Ty, interface: u32, depth: u32) -> Option<ConformanceFound>
    decreases 128 - depth, 3int, 0int, 0int, Chain::<u32>::Nil,
{
    if depth >= 128 {
        None
    } else {
        match nominal_class(cx, ty) {
            None => None,
            Some(start) => {
                conformance_from(cx, env, start.class, &start.args, interface, depth)
            },
        }
    }
}

/// Find a concrete or inherited conformance for one nominal type.
pub open spec fn conformance_use(cx: &Ctx, env: &TyEnv, ty: &Ty, interface: u32, depth: u32) -> Option<InterfaceUse>
    decreases 128 - depth, 4int, 0int, 0int, Chain::<u32>::Nil,
{
    match conformance_entry(cx, env, ty, interface, depth) {
        None => None,
        Some(found) => {
            Some(substitute_interface_use(&found.info.application, &found.args, &Chain::Nil))
        },
    }
}

/// Resolve one associated type through a satisfied conformance.
pub open spec fn conformance_associated(cx: &Ctx, env: &TyEnv, ty: &Ty, interface: u32, assoc: u32) -> Option<Ty>
{
    match conformance_entry(cx, env, ty, interface, 0u32) {
        None => None,
        Some(found) => {
            match nth(&found.info.associated, assoc) {
                Some(value) => Some(substitute(value, &found.args, &Chain::Nil)),
                None => None,
            }
        },
    }
}

/// The copy of a bound.
pub open spec fn copied(bound: Option<&InterfaceUse>) -> Option<InterfaceUse>
{
    match bound {
        Some(found) => Some(*found),
        None => None,
    }
}

/// The application under which a type conforms to an interface.
pub open spec fn declared_conformance(cx: &Ctx, env: &TyEnv, ty: &Ty, interface: u32, depth: u32) -> Option<InterfaceUse>
    decreases 128 - depth, 5int, 0int, 0int, Chain::<u32>::Nil,
{
    match ty {
        Ty::Var(index) => {
            if *index >= env.type_offset {
                match variable_bounds(env, *index) {
                    Some(bounds) => copied(find_bound(bounds, interface)),
                    None => None,
                }
            } else {
                conformance_use(cx, env, ty, interface, depth)
            }
        },
        Ty::Projection(_, owner, assoc) => {
            match associated_bounds(cx, *owner, *assoc) {
                Some(bounds) => copied(find_bound(bounds, interface)),
                None => None,
            }
        },
        _ => conformance_use(cx, env, ty, interface, depth),
    }
}

/// Find one interface application with bounded premise recursion.
pub open spec fn type_conformance_depth(cx: &Ctx, env: &TyEnv, ty: &Ty, interface: u32, depth: u32) -> Option<InterfaceUse>
    decreases 128 - depth, 6int, 0int, 0int, Chain::<u32>::Nil,
{
    if depth >= 128 {
        None
    } else {
        match find_premise(&env.extra_bounds, ty) {
            None => declared_conformance(cx, env, ty, interface, depth),
            Some(premise) => {
                match find_bound(&premise.bounds, interface) {
                    Some(bound) => Some(*bound),
                    None => declared_conformance(cx, env, ty, interface, depth),
                }
            },
        }
    }
}

/// Test one type against one application with bounded recursion.
pub open spec fn type_conforms_depth(cx: &Ctx, env: &TyEnv, ty: &Ty, required: &InterfaceUse, depth: u32) -> bool
    decreases 128 - depth, 7int, 0int, 0int, Chain::<u32>::Nil,
{
    match type_conformance_depth(cx, env, ty, required.interface, depth) {
        None => false,
        Some(found) => (found.type_args == required.type_args) && (found.row_args == required.row_args),
    }
}

/// Find one interface application for a type in this scope.
pub open spec fn type_conformance(cx: &Ctx, env: &TyEnv, ty: &Ty, interface: u32) -> Option<InterfaceUse>
{
    type_conformance_depth(cx, env, ty, interface, 0u32)
}

/// Test one type against one required interface application.
pub open spec fn type_conforms(cx: &Ctx, env: &TyEnv, ty: &Ty, required: &InterfaceUse) -> bool
{
    type_conforms_depth(cx, env, ty, required, 0u32)
}

/// The first bound of a premise that a type argument does not meet.
pub open spec fn failed_bound(
    cx: &Ctx,
    env: &TyEnv,
    actual: &Ty,
    bounds: &Chain<InterfaceUse>,
    args: &Chain<Ty>,
) -> Option<InterfaceUse>
    decreases bounds,
{
    match bounds {
        Chain::Nil => None,
        Chain::Cons(head, tail) => {
            let required = substitute_interface_use(head, args, &Chain::Nil);
            if type_conforms(cx, env, actual, &required) {
                failed_bound(cx, env, actual, tail, args)
            } else {
                Some(required)
            }
        },
    }
}

/// The first failed premise: `Err` when a premise names no argument.
pub open spec fn failed_premise(
    cx: &Ctx,
    env: &TyEnv,
    premises: &Chain<ConformancePremise>,
    args: &Chain<Ty>,
) -> Result<Option<TypePremise>, ()>
    decreases premises,
{
    match premises {
        Chain::Nil => Ok(None),
        Chain::Cons(head, tail) => {
            match nth(args, head.param) {
                None => Err(()),
                Some(actual) => {
                    match failed_bound(cx, env, actual, &head.bounds, args) {
                        Some(required) => Ok(Some(TypePremise { subject: *actual, bounds: one(required) })),
                        None => failed_premise(cx, env, tail, args),
                    }
                },
            }
        },
    }
}

/// The premise that fails above a class.
pub open spec fn failure_above(cx: &Ctx, env: &TyEnv, class: u32, args: &Chain<Ty>, interface: u32) -> Option<TypePremise>
    decreases class, 0int,
{
    match meta_at(cx, class).parent {
        None => None,
        Some(parent) => {
            if parent >= class {
                None
            } else {
                let above = parent_arguments(cx, class, args);
                failure_from(cx, env, parent, &above, interface)
            }
        },
    }
}

/// The premise that fails at a class or above it.
pub open spec fn failure_from(cx: &Ctx, env: &TyEnv, class: u32, args: &Chain<Ty>, interface: u32) -> Option<TypePremise>
    decreases class, 1int,
{
    match nth(&cx.classes, class) {
        None => None,
        Some(info) => {
            match find_conformance(&info.conformances, interface) {
                None => failure_above(cx, env, class, args, interface),
                Some(conformance) => {
                    match failed_premise(cx, env, &conformance.premises, args) {
                        Err(_) => None,
                        Ok(Some(failed)) => Some(failed),
                        Ok(None) => failure_above(cx, env, class, args, interface),
                    }
                },
            }
        },
    }
}

/// Find the first failed premise of one conditional conformance: the
/// type argument and the bound that it does not meet.
pub open spec fn conformance_failure(cx: &Ctx, env: &TyEnv, ty: &Ty, interface: u32) -> Option<TypePremise>
{
    match nominal_class(cx, ty) {
        None => None,
        Some(start) => {
            failure_from(cx, env, start.class, &start.args, interface)
        },
    }
}

/// Whether one argument meets its bounds.
pub open spec fn argument_meets(
    cx: &Ctx,
    env: &TyEnv,
    actual: &Ty,
    bounds: &Chain<InterfaceUse>,
    types: &Chain<Ty>,
    rows: &Chain<Row>,
) -> bool
    decreases bounds,
{
    match bounds {
        Chain::Nil => true,
        Chain::Cons(head, tail) => {
            let required = substitute_interface_use(head, types, rows);
            type_conforms(cx, env, actual, &required) && argument_meets(cx, env, actual, tail, types, rows)
        },
    }
}

/// Whether each argument meets its bounds.
pub open spec fn arguments_meet(
    cx: &Ctx,
    env: &TyEnv,
    args: &Chain<Ty>,
    bounds: &Chain<Chain<InterfaceUse>>,
    types: &Chain<Ty>,
    rows: &Chain<Row>,
) -> bool
    decreases args,
{
    match (args, bounds) {
        (Chain::Cons(arg, more), Chain::Cons(own, rest)) => argument_meets(cx, env, arg, own, types, rows) && arguments_meet(cx, env, more, rest, types, rows),
        _ => true,
    }
}

/// Test the type arguments of one interface application.
pub open spec fn interface_arguments_meet_bounds(cx: &Ctx, env: &TyEnv, receiver: &Ty, application: &InterfaceUse) -> bool
{
    match nth(&cx.interfaces, application.interface) {
        None => false,
        Some(contract) => {
            let types = cons(*receiver, application.type_args);
            arguments_meet(cx, env, &application.type_args, &contract.type_bounds, &types, &application.row_args)
        },
    }
}

/// The values that a class gives the associated types of an interface.
pub open spec fn assoc_values<'a>(items: &'a Chain<AssocValue>, class: u32, interface: u32) -> Option<&'a Chain<Ty>>
    decreases items,
{
    match items {
        Chain::Nil => None,
        Chain::Cons(head, tail) => {
            if head.class == class && head.interface == interface {
                Some(&head.values)
            } else {
                assoc_values(tail, class, interface)
            }
        },
    }
}

/// An associated type of a type: the declared value for a class that
/// gives one, the bare projection for any other.
pub open spec fn project(cx: &Ctx, base: Ty, interface: u32, assoc: u32) -> Ty
{
    match nominal_class(cx, &base) {
        None => Ty::Projection(Box::new(base), interface, assoc),
        Some(start) => {
            match assoc_values(&cx.assoc_values, start.class, interface) {
                None => Ty::Projection(Box::new(base), interface, assoc),
                Some(values) => {
                    match nth(values, assoc) {
                        Some(value) => substitute(value, &start.args, &Chain::Nil),
                        None => Ty::Projection(Box::new(base), interface, assoc),
                    }
                },
            }
        },
    }
}

/// The checked item equality of the core iteration interfaces: the item
/// of the iterator of a source is the item of the source.
pub open spec fn iterable_item_alias(cx: &Ctx, base: &Ty, interface: u32, assoc: u32) -> Option<Ty>
{
    match find_literal(&cx.core_interfaces, "Iterable") {
        None => None,
        Some(iterable) => {
            match find_literal(&cx.core_interfaces, "Iterator") {
                None => None,
                Some(iterator) => {
                    if interface != iterator {
                        None
                    } else {
                        let item = chain_of("Item"@);
                        let iter = chain_of("Iter"@);
                        match associated_position(&interface_at(cx, iterator).associated, &item) {
                            None => None,
                            Some(iterator_item) => {
                                if assoc != iterator_item {
                                    None
                                } else {
                                    match base {
                                        Ty::Projection(source, owner, iter_assoc) => {
                                            match associated_position(&interface_at(cx, iterable).associated, &iter) {
                                                None => None,
                                                Some(iterable_iter) => {
                                                    if *owner != iterable || *iter_assoc != iterable_iter {
                                                        None
                                                    } else {
                                                        match associated_position(&interface_at(cx, iterable).associated, &item) {
                                                            None => None,
                                                            Some(iterable_item) => {
                                                                Some(project(cx, **source, iterable, iterable_item))
                                                            },
                                                        }
                                                    }
                                                },
                                            }
                                        },
                                        _ => None,
                                    }
                                }
                            },
                        }
                    }
                },
            }
        },
    }
}

/// Resolve the projections of each type.
pub open spec fn normalize_all(cx: &Ctx, env: &TyEnv, items: &Chain<Ty>, depth: u32) -> Chain<Ty>
    decreases 128 - depth, items,
{
    match items {
        Chain::Nil => Chain::Nil,
        Chain::Cons(head, tail) => cons(normalize_depth(cx, env, head, depth), normalize_all(cx, env, tail, depth)),
    }
}

/// Resolve projections up to the depth limit.
pub open spec fn normalize_depth(cx: &Ctx, env: &TyEnv, ty: &Ty, depth: u32) -> Ty
    decreases 128 - depth, ty,
{
    if depth >= 128 {
        *ty
    } else {
        let next = (depth + 1) as u32;
        match ty {
            Ty::Projection(source, interface, assoc) => {
                let base = normalize_depth(cx, env, source, next);
                match iterable_item_alias(cx, &base, *interface, *assoc) {
                    Some(alias) => normalize_depth(cx, env, &alias, next),
                    None => {
                        match conformance_associated(cx, env, &base, *interface, *assoc) {
                            None => project(cx, base, *interface, *assoc),
                            Some(resolved) => {
                                if (resolved == *ty) {
                                    project(cx, base, *interface, *assoc)
                                } else {
                                    normalize_depth(cx, env, &resolved, next)
                                }
                            },
                        }
                    },
                }
            },
            Ty::Inst(class, args) => Ty::Inst(*class, normalize_all(cx, env, args, next)),
            Ty::ListOf(item) => Ty::ListOf(Box::new(normalize_depth(cx, env, item, next))),
            Ty::MapOf(key, value) => Ty::MapOf(Box::new(normalize_depth(cx, env, key, next)), Box::new(normalize_depth(cx, env, value, next))),
            Ty::Tuple(items) => Ty::Tuple(normalize_all(cx, env, items, next)),
            Ty::Fn(params, muts, ret, row) => Ty::Fn(normalize_all(cx, env, params, next), *muts, Box::new(normalize_depth(cx, env, ret, next)), *row),
            Ty::Callback(params, muts, ret, row) => Ty::Callback(normalize_all(cx, env, params, next), *muts, Box::new(normalize_depth(cx, env, ret, next)), *row),
            Ty::Run(item) => Ty::Run(Box::new(normalize_depth(cx, env, item, next))),
            Ty::Wait(item) => Ty::Wait(Box::new(normalize_depth(cx, env, item, next))),
            Ty::PendingCall(argument, reply) => Ty::PendingCall(Box::new(normalize_depth(cx, env, argument, next)), Box::new(normalize_depth(cx, env, reply, next))),
            Ty::Handle(message, result) => Ty::Handle(Box::new(normalize_depth(cx, env, message, next)), Box::new(normalize_depth(cx, env, result, next))),
            Ty::RunSnapshot(item) => Ty::RunSnapshot(Box::new(normalize_depth(cx, env, item, next))),
            Ty::Op(operation, callable) => Ty::Op(*operation, Box::new(normalize_depth(cx, env, callable, next))),
            _ => *ty,
        }
    }
}

/// Resolve associated projections that have concrete conformances.
pub open spec fn normalize_associated(cx: &Ctx, env: &TyEnv, ty: &Ty) -> Ty
{
    if has_projection(ty) {
        normalize_depth(cx, env, ty, 0u32)
    } else {
        *ty
    }
}

/// Whether each type of a list names no variable.
pub open spec fn all_closed(items: &Chain<Ty>) -> bool
    decreases items,
{
    match items {
        Chain::Nil => true,
        Chain::Cons(head, tail) => !contains_var(head) && !contains_effect_var(head) && all_closed(tail),
    }
}

/// Substitute in each premise.
pub open spec fn substitute_premises(items: &Chain<TypePremise>, types: &Chain<Ty>, rows: &Chain<Row>) -> Chain<TypePremise>
    decreases items,
{
    match items {
        Chain::Nil => Chain::Nil,
        Chain::Cons(head, tail) => {
            let premise = TypePremise {
                subject: substitute(&head.subject, types, rows),
                bounds: substitute_uses(&head.bounds, types, rows),
            };
            cons(premise, substitute_premises(tail, types, rows))
        },
    }
}

/// The requirement of an interface method for one receiver and one
/// application. A requirement without variables stays as it is.
pub open spec fn instantiate_interface_method(
    receiver: &Ty,
    application: &InterfaceUse,
    method: &InterfaceMethodSig,
) -> InterfaceMethodSig
{
    if all_closed(&method.params) && !contains_var(&method.ret) && !contains_effect_var(&method.ret) && !row_has_var(&method.row) {
        *method
    } else {
        let types = cons(*receiver, application.type_args);
        let rows = application.row_args;
        InterfaceMethodSig {
            name: method.name,
            mut_self: method.mut_self,
            own_type_params: method.own_type_params,
            own_type_bounds: substitute_bounds(&method.own_type_bounds, &types, &rows),
            own_effect_params: method.own_effect_params,
            premises: substitute_premises(&method.premises, &types, &rows),
            params: substitute_all(&method.params, &types, &rows),
            param_muts: method.param_muts,
            param_names: method.param_names,
            ret: substitute(&method.ret, &types, &rows),
            row: substitute_row(&method.row, &rows),
            default_func: method.default_func,
            default_binding: method.default_binding,
        }
    }
}

/// The method that one of the bounds requires.
pub open spec fn bound_method_in(
    cx: &Ctx,
    applications: &Chain<InterfaceUse>,
    found: Option<BoundMethod>,
    name: &Text,
    span: Span,
) -> Result<Option<BoundMethod>, Stop>
    decreases applications,
{
    match applications {
        Chain::Nil => Ok(found),
        Chain::Cons(head, tail) => {
            let contract = interface_at(cx, head.interface);
            match find_method(&contract.methods, name) {
                None => bound_method_in(cx, tail, found, name, span),
                Some(method) => {
                    match nth(&contract.methods, method) {
                        None => bound_method_in(cx, tail, found, name, span),
                        Some(requirement) => {
                            match found {
                                None => {
                                    let candidate = BoundMethod { application: **head, interface: head.interface, method: method, sig: *requirement };
                                    bound_method_in(cx, tail, Some(candidate), name, span)
                                },
                                Some(first) => {
                                    if (first.sig == *requirement) {
                                        bound_method_in(cx, tail, Some(first), name, span)
                                    } else {
                                        Err(Stop::Fail(Diag { problem: Problem::AmbiguousMethod, subject: *name, span: span }))
                                    }
                                },
                            }
                        },
                    }
                },
            }
        },
    }
}

/// The bounds that premises give a type.
pub open spec fn premise_bounds(premises: &Chain<TypePremise>, subject: &Ty) -> Chain<InterfaceUse>
    decreases premises,
{
    match premises {
        Chain::Nil => Chain::Nil,
        Chain::Cons(head, tail) => {
            let rest = premise_bounds(tail, subject);
            if (head.subject == *subject) {
                concat(head.bounds, rest)
            } else {
                rest
            }
        },
    }
}

/// A copy of bounds, where there are any.
pub open spec fn copied_bounds(bounds: Option<&Chain<InterfaceUse>>) -> Chain<InterfaceUse>
{
    match bounds {
        Some(found) => *found,
        None => Chain::Nil,
    }
}

/// Resolve one method through the interfaces on a static type: the
/// bounds of a type variable or of an associated type.
pub open spec fn bound_method(cx: &Ctx, env: &TyEnv, ty: &Ty, name: &Text, span: Span) -> Result<Option<BoundMethod>, Stop>
{
    match ty {
        Ty::Var(index) => {
            if *index >= env.type_offset {
                let applications = concat(copied_bounds(variable_bounds(env, *index)), premise_bounds(&env.extra_bounds, ty));
                bound_method_in(cx, &applications, None, name, span)
            } else {
                Ok(None)
            }
        },
        Ty::Projection(_, interface, assoc) => {
            let applications = concat(copied_bounds(associated_bounds(cx, *interface, *assoc)), premise_bounds(&env.extra_bounds, ty));
            bound_method_in(cx, &applications, None, name, span)
        },
        _ => Ok(None),
    }
}

/// The default method that the interfaces of a type give a name.
pub open spec fn default_method_in(
    cx: &Ctx,
    env: &TyEnv,
    ty: &Ty,
    candidates: &Chain<DefaultEntry>,
    found: Option<BoundMethod>,
    name: &Text,
    span: Span,
) -> Result<Option<BoundMethod>, Stop>
    decreases candidates,
{
    match candidates {
        Chain::Nil => Ok(found),
        Chain::Cons(head, tail) => {
            if !(head.name == *name) {
                default_method_in(cx, env, ty, tail, found, name, span)
            } else {
                match type_conformance(cx, env, ty, head.interface) {
                    None => default_method_in(cx, env, ty, tail, found, name, span),
                    Some(application) => {
                        match nth(&interface_at(cx, head.interface).methods, head.method) {
                            None => default_method_in(cx, env, ty, tail, found, name, span),
                            Some(requirement) => {
                                match found {
                                    None => {
                                        let candidate = BoundMethod { application: application, interface: head.interface, method: head.method, sig: *requirement };
                                        default_method_in(cx, env, ty, tail, Some(candidate), name, span)
                                    },
                                    Some(first) => {
                                        if (first.sig.default_binding == requirement.default_binding) {
                                            default_method_in(cx, env, ty, tail, Some(first), name, span)
                                        } else {
                                            Err(Stop::Fail(Diag { problem: Problem::AmbiguousDefault { first: first.interface, second: head.interface }, subject: *name, span: span }))
                                        }
                                    },
                                }
                            },
                        }
                    },
                }
            }
        },
    }
}

/// Find one interface default for a concrete receiver.
pub open spec fn default_method(cx: &Ctx, env: &TyEnv, ty: &Ty, name: &Text, span: Span) -> Result<Option<BoundMethod>, Stop>
{
    default_method_in(cx, env, ty, &cx.interface_defaults, None, name, span)
}

/// A scope without names.
pub open spec fn empty_env() -> TyEnv
{
    TyEnv {
        type_names: Chain::Nil,
        type_bounds: Chain::Nil,
        extra_bounds: Chain::Nil,
        effect_names: Chain::Nil,
        type_offset: 0,
        self_interface: None,
        self_ty: None,
        core_scope: false,
    }
}

/// One empty bound list for each element.
pub open spec fn empty_bounds<T>(items: &Chain<T>) -> Chain<Chain<InterfaceUse>>
    decreases items,
{
    match items {
        Chain::Nil => Chain::Nil,
        Chain::Cons(_, tail) => cons(Chain::Nil, empty_bounds(tail)),
    }
}

/// Empty bound lists of the given number.
pub open spec fn no_bounds(total: u32) -> Chain<Chain<InterfaceUse>>
    decreases total,
{
    if total == 0 {
        Chain::Nil
    } else {
        cons(Chain::Nil, no_bounds((total - 1) as u32))
    }
}

/// Re-express one inherited method signature in the type parameters of
/// the subclass. `args` replaces the class parameters of the declaring
/// class, and the method's own parameters move down to follow the
/// subclass parameters. `None` when an argument does not meet its bound.
pub open spec fn substitute_method(cx: &Ctx, sig: &MethodSig, args: &Chain<Ty>, arity: u32) -> Option<MethodSig>
{
    let env = empty_env();
    if !arguments_meet(cx, &env, args, &sig.class_type_bounds, args, &Chain::Nil) {
        None
    } else {
        let types = concat(*args, variables(&sig.own_type_params, arity));
        Some(MethodSig {
            name: sig.name,
            func: sig.func,
            mut_self: sig.mut_self,
            params: substitute_all(&sig.params, &types, &Chain::Nil),
            param_muts: sig.param_muts,
            param_names: sig.param_names,
            ret: substitute(&sig.ret, &types, &Chain::Nil),
            row: sig.row,
            class_type_bounds: no_bounds(arity),
            own_type_params: sig.own_type_params,
            own_type_bounds: substitute_bounds(&sig.own_type_bounds, &types, &Chain::Nil),
            own_effect_params: sig.own_effect_params,
        })
    }
}

/// The method `name` that the ancestor chain from `start` answers.
/// `args` holds the type arguments of `start` seen from the class the
/// caller asked about, and `arity` is that class's own generic arity.
pub open spec fn lookup_method(cx: &Ctx, start: u32, args: Chain<Ty>, arity: u32, name: &Text) -> Option<MethodFound>
    decreases start,
{
    match own_method(&class_at(cx, start).methods, name) {
        Some(sig) => {
            if args.is_empty() {
                Some(MethodFound { sig: *sig, owner_args: args, owner: start })
            } else {
                match substitute_method(cx, sig, &args, arity) {
                    None => None,
                    Some(seen) => {
                        Some(MethodFound { sig: seen, owner_args: args, owner: start })
                    },
                }
            }
        },
        None => {
            match meta_at(cx, start).parent {
                None => None,
                Some(parent) => {
                    if parent >= start {
                        None
                    } else {
                        lookup_method(cx, parent, meta_at(cx, start).parent_args, arity, name)
                    }
                },
            }
        },
    }
}

/// Find a method by name and return the declaring class with its type
/// arguments, seen from `class`.
pub open spec fn find_method_owner(cx: &Ctx, class: u32, name: &Text) -> Option<MethodFound>
{
    lookup_method(cx, class, Chain::Nil, count(&class_at(cx, class).type_params), name)
}

/// The `Option` type of one item type.
pub open spec fn option_of(cx: &Ctx, item: Ty) -> Ty
{
    Ty::Inst(cx.core.option_class, one(item))
}

} // verus!
