//! The members of a class: method signatures and declared conformances.
//!
//! The functions here state what the functions of the same name compute.

use vstd::prelude::*;
use crate::ast::{AssociatedType, ConformanceRef, MethodDef, Span, TypeExpr};
use crate::chain::Chain;
use crate::context::{AssocValue, AssociatedInfo, ConformanceInfo, ConformancePremise, Ctx, Decl, InterfaceUse, MethodSig, TyEnv};
use crate::model::conform::{empty_bounds, find_conformance};
use crate::model::lists::{append, concat, cons, count, holds_name, skip, truncate};
use crate::model::lookup::{associated_position, interface_at};
use crate::model::premises::{add_premises, premises_imply, resolve_conformance_premises};
use crate::model::resolve::{expand_interface_application, named, resolve_generic_bounds, resolve_interface_use, resolve_parameters, resolve_ret, resolve_row, resolve_type, split_generics, unnamed};
use crate::problem::{Problem, Stop};
use crate::text::Text;
use crate::types::Ty;

verus! {

/// The names of a class followed by those of a method; a name that is
/// already there ends the list.
pub open spec fn extend_names(names: Chain<Text>, own: &Chain<Text>, span: Span) -> Result<Chain<Text>, Stop>
    decreases own,
{
    match own {
        Chain::Nil => Ok(names),
        Chain::Cons(head, tail) => {
            if holds_name(&names, head) {
                Err(named(Problem::DuplicateGeneric, head, span))
            } else {
                extend_names(append(names, **head), tail, span)
            }
        },
    }
}

/// Resolve one method declaration into a signature and reserve its
/// function index.
pub open spec fn resolve_method_sig(
    cx: &Ctx,
    st: Decl,
    method: &MethodDef,
    class_type_names: &Chain<Text>,
    class_type_bounds: &Chain<Chain<InterfaceUse>>,
    self_ty: &Ty,
    is_core: bool,
    is_init: bool,
) -> (Decl, Result<MethodSig, Stop>)
{
    let own = split_generics(&method.generics);
    if is_init && (!own.types.is_empty() || !own.effects.is_empty()) {
        (st, Err(unnamed(Problem::InitGenerics, method.name_span)))
    } else if is_init && !method.premises.is_empty() {
        (st, Err(unnamed(Problem::InitPremises, method.name_span)))
    } else {
        match extend_names(*class_type_names, &own.types, method.name_span) {
            Err(stop) => (st, Err(stop)),
            Ok(type_names) => {
                let env = TyEnv {
                    type_names: type_names,
                    type_bounds: concat(*class_type_bounds, empty_bounds(&own.types)),
                    extra_bounds: Chain::Nil,
                    effect_names: own.effects,
                    type_offset: 0,
                    self_interface: None,
                    self_ty: Some(*self_ty),
                    core_scope: is_core,
                };
                match resolve_generic_bounds(cx, &env, st, &method.generics) {
                    (st, Err(stop)) => (st, Err(stop)),
                    (st, Ok(own_bounds)) => {
                        let class_count = count(class_type_names);
                        let env = TyEnv { type_bounds: concat(truncate(env.type_bounds, class_count), own_bounds), ..env };
                        match resolve_conformance_premises(cx, &env, st, &method.premises) {
                            (st, Err(stop)) => (st, Err(stop)),
                            (st, Ok(premises)) => {
                                let env = add_premises(env, &premises);
                                match resolve_parameters(cx, &env, st, &method.params) {
                                    (st, Err(stop)) => (st, Err(stop)),
                                    (st, Ok(params)) => {
                                        match resolve_method_ret(cx, &env, st, &method.ret, is_init) {
                                            (st, Err(stop)) => (st, Err(stop)),
                                            (st, Ok(ret)) => {
                                                match resolve_row(cx, &env, &method.row) {
                                                    Err(stop) => (st, Err(stop)),
                                                    Ok(row) => {
                                                        let own_type_bounds = skip(env.type_bounds, class_count);
                                                        let sig = MethodSig {
                                                            name: method.name,
                                                            func: st.next_func,
                                                            mut_self: method.mut_self,
                                                            params: params.types,
                                                            param_muts: params.muts,
                                                            param_names: params.names,
                                                            ret: ret,
                                                            row: row,
                                                            class_type_bounds: truncate(env.type_bounds, class_count),
                                                            own_type_params: own.types,
                                                            own_type_bounds: own_type_bounds,
                                                            own_effect_params: own.effects,
                                                        };
                                                        (Decl { next_func: st.next_func.wrapping_add(1), ..st }, Ok(sig))
                                                    },
                                                }
                                            },
                                        }
                                    },
                                }
                            },
                        }
                    },
                }
            },
        }
    }
}

/// The result type of a method; an initializer gives the unit type.
pub open spec fn resolve_method_ret(
    cx: &Ctx,
    env: &TyEnv,
    st: Decl,
    ret: &Option<TypeExpr>,
    is_init: bool,
) -> (Decl, Result<Ty, Stop>)
{
    if is_init {
        (st, Ok(Ty::Unit))
    } else {
        resolve_ret(cx, env, st, ret)
    }
}

/// The binding of one associated type.
pub open spec fn find_binding<'a>(items: &'a Chain<AssociatedType>, name: &Text) -> Option<&'a AssociatedType>
    decreases items,
{
    match items {
        Chain::Nil => None,
        Chain::Cons(head, tail) => {
            if (head.name == *name) {
                Some(&**head)
            } else {
                find_binding(tail, name)
            }
        },
    }
}

/// Require associated type bindings with distinct names.
pub open spec fn check_bindings(items: &Chain<AssociatedType>, seen: Chain<Text>) -> Result<(), Stop>
    decreases items,
{
    match items {
        Chain::Nil => Ok(()),
        Chain::Cons(head, tail) => {
            if holds_name(&seen, &head.name) {
                Err(named(Problem::DuplicateBinding, &head.name, head.name_span))
            } else {
                check_bindings(tail, cons(head.name, seen))
            }
        },
    }
}

/// Resolve the associated types that a class binds.
pub open spec fn resolve_bound_types(
    cx: &Ctx,
    env: &TyEnv,
    st: Decl,
    associated: &Chain<AssociatedInfo>,
    bindings: &Chain<AssociatedType>,
    span: Span,
) -> (Decl, Result<Chain<Ty>, Stop>)
    decreases associated,
{
    match associated {
        Chain::Nil => (st, Ok(Chain::Nil)),
        Chain::Cons(head, tail) => {
            let value = match find_binding(bindings, &head.name) {
                Some(binding) => &binding.value,
                None => &None,
            };
            match value {
                None => (st, Err(named(Problem::ConformanceNeedsType, &head.name, span))),
                Some(ty) => {
                    match resolve_type(cx, env, st, ty) {
                        (st, Err(stop)) => (st, Err(stop)),
                        (st, Ok(first)) => {
                            match resolve_bound_types(cx, env, st, tail, bindings, span) {
                                (st, Err(stop)) => (st, Err(stop)),
                                (st, Ok(rest)) => {
                                    (st, Ok(cons(first, rest)))
                                },
                            }
                        },
                    }
                },
            }
        },
    }
}

/// The conformances of a list to other interfaces.
pub open spec fn without_conformance(items: Chain<ConformanceInfo>, interface: u32) -> Chain<ConformanceInfo>
    decreases items,
{
    match items {
        Chain::Nil => Chain::Nil,
        Chain::Cons(head, tail) => {
            if head.application.interface == interface {
                *tail
            } else {
                Chain::Cons(head, Box::new(without_conformance(*tail, interface)))
            }
        },
    }
}

/// Whether a new application adds to the conformances of a class:
/// `false` when an entry with weaker premises is already there. An entry
/// that needs more than the new one gives way to it.
pub open spec fn conformance_is_new(
    items: &Chain<ConformanceInfo>,
    application: &InterfaceUse,
    premises: &Chain<ConformancePremise>,
    span: Span,
) -> Result<bool, Stop>
{
    match find_conformance(items, application.interface) {
        None => Ok(true),
        Some(existing) => {
            if !(existing.application == *application) {
                Err(unnamed(Problem::ConformanceConflict { interface: application.interface }, span))
            } else if premises_imply(premises, &existing.premises) {
                Ok(false)
            } else if premises_imply(&existing.premises, premises) {
                Ok(true)
            } else {
                Err(unnamed(Problem::ConformanceIncomparable { interface: application.interface }, span))
            }
        },
    }
}

/// Add a conformance to each application.
pub open spec fn conform_to_each(
    cx: &Ctx,
    env: &TyEnv,
    st: Decl,
    applications: Chain<InterfaceUse>,
    premises: &Chain<ConformancePremise>,
    bindings: &Chain<AssociatedType>,
    class: u32,
    span: Span,
    items: Chain<ConformanceInfo>,
) -> (Decl, Result<Chain<ConformanceInfo>, Stop>)
    decreases applications,
{
    match applications {
        Chain::Nil => (st, Ok(items)),
        Chain::Cons(head, tail) => {
            match conformance_is_new(&items, &head, premises, span) {
                Err(stop) => (st, Err(stop)),
                Ok(fresh) => {
                    if !fresh {
                        conform_to_each(cx, env, st, *tail, premises, bindings, class, span, items)
                    } else {
                        match resolve_bound_types(cx, env, st, &interface_at(cx, head.interface).associated, bindings, span) {
                            (st, Err(stop)) => (st, Err(stop)),
                            (st, Ok(values)) => {
                                let st = Decl { values: cons(AssocValue { class: class, interface: head.interface, values: values }, st.values), ..st };
                                let kept = without_conformance(items, head.interface);
                                let info = ConformanceInfo { application: *head, premises: *premises, associated: values, method_overrides: Chain::Nil };
                                conform_to_each(cx, env, st, *tail, premises, bindings, class, span, append(kept, info))
                            },
                        }
                    }
                },
            }
        },
    }
}

/// Add the conformances that a class declares.
pub open spec fn conform_to_all(
    cx: &Ctx,
    env: &TyEnv,
    st: Decl,
    references: &Chain<ConformanceRef>,
    bindings: &Chain<AssociatedType>,
    class: u32,
    self_ty: &Ty,
    items: Chain<ConformanceInfo>,
) -> (Decl, Result<Chain<ConformanceInfo>, Stop>)
    decreases references,
{
    match references {
        Chain::Nil => (st, Ok(items)),
        Chain::Cons(head, tail) => {
            match resolve_conformance_premises(cx, env, st, &head.premises) {
                (st, Err(stop)) => (st, Err(stop)),
                (st, Ok(premises)) => {
                    match resolve_interface_use(cx, env, st, &head.application) {
                        (st, Err(stop)) => (st, Err(stop)),
                        (st, Ok(direct)) => {
                            match expand_interface_application(cx, self_ty, direct, head.application.span, &Chain::Nil, 0u32, Chain::Nil) {
                                Err(stop) => (st, Err(stop)),
                                Ok(closure) => {
                                    match conform_to_each(cx, env, st, closure, &premises, bindings, class, head.span, items) {
                                        (st, Err(stop)) => (st, Err(stop)),
                                        (st, Ok(more)) => {
                                            conform_to_all(cx, env, st, tail, bindings, class, self_ty, more)
                                        },
                                    }
                                },
                            }
                        },
                    }
                },
            }
        },
    }
}

/// Whether a conformance of a list declares one associated type name.
pub open spec fn declares_associated(cx: &Ctx, items: &Chain<ConformanceInfo>, name: &Text) -> bool
    decreases items,
{
    match items {
        Chain::Nil => false,
        Chain::Cons(head, tail) => {
            associated_position(&interface_at(cx, head.application.interface).associated, name).is_some()
            || declares_associated(cx, tail, name)
        },
    }
}

/// Require every associated type binding to belong to a conformance.
pub open spec fn check_bindings_used(
    cx: &Ctx,
    bindings: &Chain<AssociatedType>,
    items: &Chain<ConformanceInfo>,
) -> Result<(), Stop>
    decreases bindings,
{
    match bindings {
        Chain::Nil => Ok(()),
        Chain::Cons(head, tail) => {
            if declares_associated(cx, items, &head.name) {
                check_bindings_used(cx, tail, items)
            } else {
                Err(named(Problem::AssociatedUnused, &head.name, head.name_span))
            }
        },
    }
}

/// Resolve the associated bindings of one class conformance list. Each
/// conformance comes with those to its parent interfaces.
pub open spec fn resolve_conformance_shapes(
    cx: &Ctx,
    env: &TyEnv,
    st: Decl,
    references: &Chain<ConformanceRef>,
    bindings: &Chain<AssociatedType>,
    class: u32,
    self_ty: &Ty,
) -> (Decl, Result<Chain<ConformanceInfo>, Stop>)
{
    match check_bindings(bindings, Chain::Nil) {
        Err(stop) => (st, Err(stop)),
        Ok(_distinct) => {
            match conform_to_all(cx, env, st, references, bindings, class, self_ty, Chain::Nil) {
                (st, Err(stop)) => (st, Err(stop)),
                (st, Ok(items)) => {
                    match check_bindings_used(cx, bindings, &items) {
                        Err(stop) => (st, Err(stop)),
                        Ok(_used) => {
                            (st, Ok(items))
                        },
                    }
                },
            }
        },
    }
}

} // verus!
