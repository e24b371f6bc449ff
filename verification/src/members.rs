//! The members of a class: method signatures and declared conformances.

use vstd::prelude::*;
use crate::ast::{AssociatedType, ConformanceRef, MethodDef, Span, TypeExpr};
use crate::chain::{Chain, copy_chain};
use crate::conform::{empty_bounds, find_conformance};
use crate::context::{AssocValue, AssociatedInfo, ConformanceInfo, ConformancePremise, Ctx, Decl, InterfaceUse, MethodSig, TyEnv, clone_conformance_premises, clone_interface_use_lists, clone_texts, same_interface_use};
use crate::lists::{append, concat, cons, count, holds_name, skip, truncate};
use crate::lookup::{associated_position, interface_at};
use crate::premises::{add_premises, premises_imply, resolve_conformance_premises};
use crate::problem::{Problem, Stop};
use crate::resolve::{expand_interface_application, named, resolve_generic_bounds, resolve_interface_use, resolve_parameters, resolve_ret, resolve_row, resolve_type, split_generics, unnamed};
use crate::text::{Text, same_text};
use crate::types::{Ty, clone_tys};
use crate::model::keeps::{kept_decl, took_funcs};
use crate::model;

verus! {

broadcast use crate::model::keeps::group_kept;

/// The names of a class followed by those of a method; a name that is
/// already there ends the list.
pub fn extend_names(names: Chain<Text>, own: &Chain<Text>, span: Span) -> (r: Result<Chain<Text>, Stop>)
    ensures
        r == model::members::extend_names(names, own, span),
    decreases own,
{
    match own {
        Chain::Nil => Ok(names),
        Chain::Cons(head, tail) => {
            if holds_name(&names, head) {
                Err(named(Problem::DuplicateGeneric, head, span))
            } else {
                extend_names(append(names, copy_chain(&**head)), tail, span)
            }
        },
    }
}

/// Resolve one method declaration into a signature and reserve its
/// function index.
pub fn resolve_method_sig(
    cx: &Ctx,
    st: Decl,
    method: &MethodDef,
    class_type_names: &Chain<Text>,
    class_type_bounds: &Chain<Chain<InterfaceUse>>,
    self_ty: &Ty,
    is_core: bool,
    is_init: bool,
) -> (r: (Decl, Result<MethodSig, Stop>))
    ensures
        r == model::members::resolve_method_sig(cx, st, method, class_type_names, class_type_bounds, self_ty, is_core, is_init),
        r.1 is Ok ==> took_funcs(st, r.0, 1),
{
    let own = split_generics(&method.generics);
    if is_init && (!own.types.is_empty() || !own.effects.is_empty()) {
        return (st, Err(unnamed(Problem::InitGenerics, method.name_span)));
    }
    if is_init && !method.premises.is_empty() {
        return (st, Err(unnamed(Problem::InitPremises, method.name_span)));
    }
    let type_names = match extend_names(clone_texts(&*class_type_names), &own.types, method.name_span) {
        Ok(found) => found,
        Err(stop) => {
            return (st, Err(stop));
        },
    };
    let env = TyEnv {
        type_names: type_names,
        type_bounds: concat(clone_interface_use_lists(&*class_type_bounds), empty_bounds(&own.types)),
        extra_bounds: Chain::Nil,
        effect_names: clone_texts(&own.effects),
        type_offset: 0,
        self_interface: None,
        self_ty: Some((*self_ty).clone()),
        core_scope: is_core,
    };
    let (st, out) = resolve_generic_bounds(cx, &env, st, &method.generics);
    let own_bounds = match out {
        Ok(found) => found,
        Err(stop) => {
            return (st, Err(stop));
        },
    };
    let class_count = count(class_type_names);
    let env = TyEnv { type_bounds: concat(truncate(env.type_bounds, class_count), own_bounds), ..env };
    let (st, out) = resolve_conformance_premises(cx, &env, st, &method.premises);
    let premises = match out {
        Ok(found) => found,
        Err(stop) => {
            return (st, Err(stop));
        },
    };
    let env = add_premises(env, &premises);
    let (st, out) = resolve_parameters(cx, &env, st, &method.params);
    let params = match out {
        Ok(found) => found,
        Err(stop) => {
            return (st, Err(stop));
        },
    };
    let (st, out) = resolve_method_ret(cx, &env, st, &method.ret, is_init);
    let ret = match out {
        Ok(found) => found,
        Err(stop) => {
            return (st, Err(stop));
        },
    };
    let row = match resolve_row(cx, &env, &method.row) {
        Ok(found) => found,
        Err(stop) => {
            return (st, Err(stop));
        },
    };
    let own_type_bounds = skip(clone_interface_use_lists(&env.type_bounds), class_count);
    let sig = MethodSig {
        name: copy_chain(&method.name),
        func: st.next_func,
        mut_self: method.mut_self,
        params: params.types,
        param_muts: params.muts,
        param_names: params.names,
        ret: ret,
        row: row,
        class_type_bounds: truncate(env.type_bounds, class_count),
        own_type_params: own.types,
        own_type_bounds: own_type_bounds,
        own_effect_params: own.effects,
    };
    (Decl { next_func: st.next_func.wrapping_add(1), ..st }, Ok(sig))
}

/// The result type of a method; an initializer gives the unit type.
pub fn resolve_method_ret(
    cx: &Ctx,
    env: &TyEnv,
    st: Decl,
    ret: &Option<TypeExpr>,
    is_init: bool,
) -> (r: (Decl, Result<Ty, Stop>))
    ensures
        r == model::members::resolve_method_ret(cx, env, st, ret, is_init),
        kept_decl(st, r.0),
{
    if is_init {
        (st, Ok(Ty::Unit))
    } else {
        resolve_ret(cx, env, st, ret)
    }
}

/// The binding of one associated type.
pub fn find_binding<'a>(items: &'a Chain<AssociatedType>, name: &Text) -> (r: Option<&'a AssociatedType>)
    ensures
        r == model::members::find_binding(items, name),
    decreases items,
{
    match items {
        Chain::Nil => None,
        Chain::Cons(head, tail) => {
            if same_text(&head.name, &*name) {
                Some(&**head)
            } else {
                find_binding(tail, name)
            }
        },
    }
}

/// Require associated type bindings with distinct names.
pub fn check_bindings(items: &Chain<AssociatedType>, seen: Chain<Text>) -> (r: Result<(), Stop>)
    ensures
        r == model::members::check_bindings(items, seen),
    decreases items,
{
    match items {
        Chain::Nil => Ok(()),
        Chain::Cons(head, tail) => {
            if holds_name(&seen, &head.name) {
                Err(named(Problem::DuplicateBinding, &head.name, head.name_span))
            } else {
                check_bindings(tail, cons(copy_chain(&head.name), seen))
            }
        },
    }
}

/// Resolve the associated types that a class binds.
pub fn resolve_bound_types(
    cx: &Ctx,
    env: &TyEnv,
    st: Decl,
    associated: &Chain<AssociatedInfo>,
    bindings: &Chain<AssociatedType>,
    span: Span,
) -> (r: (Decl, Result<Chain<Ty>, Stop>))
    ensures
        r == model::members::resolve_bound_types(cx, env, st, associated, bindings, span),
        kept_decl(st, r.0),
    decreases associated,
{
    match associated {
        Chain::Nil => (st, Ok(Chain::Nil)),
        Chain::Cons(head, tail) => {
            let value = match find_binding(bindings, &head.name) {
                Some(binding) => &binding.value,
                None => &None,
            };
            match value {
                None => (st, Err(named(Problem::ConformanceNeedsType, &head.name, span))),
                Some(ty) => {
                    let (st, out) = resolve_type(cx, env, st, ty);
                    let first = match out {
                        Ok(found) => found,
                        Err(stop) => {
                            return (st, Err(stop));
                        },
                    };
                    let (st, out) = resolve_bound_types(cx, env, st, tail, bindings, span);
                    let rest = match out {
                        Ok(found) => found,
                        Err(stop) => {
                            return (st, Err(stop));
                        },
                    };
                    (st, Ok(cons(first, rest)))
                },
            }
        },
    }
}

/// The conformances of a list to other interfaces.
pub fn without_conformance(items: Chain<ConformanceInfo>, interface: u32) -> (r: Chain<ConformanceInfo>)
    ensures
        r == model::members::without_conformance(items, interface),
    decreases items,
{
    match items {
        Chain::Nil => Chain::Nil,
        Chain::Cons(head, tail) => {
            if head.application.interface == interface {
                *tail
            } else {
                Chain::Cons(head, Box::new(without_conformance(*tail, interface)))
            }
        },
    }
}

/// Whether a new application adds to the conformances of a class:
/// `false` when an entry with weaker premises is already there. An entry
/// that needs more than the new one gives way to it.
pub fn conformance_is_new(
    items: &Chain<ConformanceInfo>,
    application: &InterfaceUse,
    premises: &Chain<ConformancePremise>,
    span: Span,
) -> (r: Result<bool, Stop>)
    ensures
        r == model::members::conformance_is_new(items, application, premises, span),
{
    match find_conformance(items, application.interface) {
        None => Ok(true),
        Some(existing) => {
            if !same_interface_use(&existing.application, &*application) {
                Err(unnamed(Problem::ConformanceConflict { interface: application.interface }, span))
            } else if premises_imply(premises, &existing.premises) {
                Ok(false)
            } else if premises_imply(&existing.premises, premises) {
                Ok(true)
            } else {
                Err(unnamed(Problem::ConformanceIncomparable { interface: application.interface }, span))
            }
        },
    }
}

/// Add a conformance to each application.
pub fn conform_to_each(
    cx: &Ctx,
    env: &TyEnv,
    st: Decl,
    applications: Chain<InterfaceUse>,
    premises: &Chain<ConformancePremise>,
    bindings: &Chain<AssociatedType>,
    class: u32,
    span: Span,
    items: Chain<ConformanceInfo>,
) -> (r: (Decl, Result<Chain<ConformanceInfo>, Stop>))
    ensures
        r == model::members::conform_to_each(cx, env, st, applications, premises, bindings, class, span, items),
        kept_decl(st, r.0),
    decreases applications,
{
    match applications {
        Chain::Nil => (st, Ok(items)),
        Chain::Cons(head, tail) => {
            let fresh = match conformance_is_new(&items, &head, premises, span) {
                Ok(found) => found,
                Err(stop) => {
                    return (st, Err(stop));
                },
            };
            if !fresh {
                conform_to_each(cx, env, st, *tail, premises, bindings, class, span, items)
            } else {
                let (st, out) = resolve_bound_types(cx, env, st, &interface_at(cx, head.interface).associated, bindings, span);
                let values = match out {
                    Ok(found) => found,
                    Err(stop) => {
                        return (st, Err(stop));
                    },
                };
                let st = Decl { values: cons(AssocValue { class: class, interface: head.interface, values: clone_tys(&values) }, st.values), ..st };
                let kept = without_conformance(items, head.interface);
                let info = ConformanceInfo { application: *head, premises: clone_conformance_premises(&*premises), associated: values, method_overrides: Chain::Nil };
                conform_to_each(cx, env, st, *tail, premises, bindings, class, span, append(kept, info))
            }
        },
    }
}

/// Add the conformances that a class declares.
pub fn conform_to_all(
    cx: &Ctx,
    env: &TyEnv,
    st: Decl,
    references: &Chain<ConformanceRef>,
    bindings: &Chain<AssociatedType>,
    class: u32,
    self_ty: &Ty,
    items: Chain<ConformanceInfo>,
) -> (r: (Decl, Result<Chain<ConformanceInfo>, Stop>))
    ensures
        r == model::members::conform_to_all(cx, env, st, references, bindings, class, self_ty, items),
        kept_decl(st, r.0),
    decreases references,
{
    match references {
        Chain::Nil => (st, Ok(items)),
        Chain::Cons(head, tail) => {
            let (st, out) = resolve_conformance_premises(cx, env, st, &head.premises);
            let premises = match out {
                Ok(found) => found,
                Err(stop) => {
                    return (st, Err(stop));
                },
            };
            let (st, out) = resolve_interface_use(cx, env, st, &head.application);
            let direct = match out {
                Ok(found) => found,
                Err(stop) => {
                    return (st, Err(stop));
                },
            };
            let closure = match expand_interface_application(cx, self_ty, direct, head.application.span, &Chain::Nil, 0u32, Chain::Nil) {
                Ok(found) => found,
                Err(stop) => {
                    return (st, Err(stop));
                },
            };
            let (st, out) = conform_to_each(cx, env, st, closure, &premises, bindings, class, head.span, items);
            let more = match out {
                Ok(found) => found,
                Err(stop) => {
                    return (st, Err(stop));
                },
            };
            conform_to_all(cx, env, st, tail, bindings, class, self_ty, more)
        },
    }
}

/// Whether a conformance of a list declares one associated type name.
pub fn declares_associated(cx: &Ctx, items: &Chain<ConformanceInfo>, name: &Text) -> (r: bool)
    ensures
        r == model::members::declares_associated(cx, items, name),
    decreases items,
{
    match items {
        Chain::Nil => false,
        Chain::Cons(head, tail) => {
            associated_position(&interface_at(cx, head.application.interface).associated, name).is_some()
            || declares_associated(cx, tail, name)
        },
    }
}

/// Require every associated type binding to belong to a conformance.
pub fn check_bindings_used(
    cx: &Ctx,
    bindings: &Chain<AssociatedType>,
    items: &Chain<ConformanceInfo>,
) -> (r: Result<(), Stop>)
    ensures
        r == model::members::check_bindings_used(cx, bindings, items),
    decreases bindings,
{
    match bindings {
        Chain::Nil => Ok(()),
        Chain::Cons(head, tail) => {
            if declares_associated(cx, items, &head.name) {
                check_bindings_used(cx, tail, items)
            } else {
                Err(named(Problem::AssociatedUnused, &head.name, head.name_span))
            }
        },
    }
}

/// Resolve the associated bindings of one class conformance list. Each
/// conformance comes with those to its parent interfaces.
pub fn resolve_conformance_shapes(
    cx: &Ctx,
    env: &TyEnv,
    st: Decl,
    references: &Chain<ConformanceRef>,
    bindings: &Chain<AssociatedType>,
    class: u32,
    self_ty: &Ty,
) -> (r: (Decl, Result<Chain<ConformanceInfo>, Stop>))
    ensures
        r == model::members::resolve_conformance_shapes(cx, env, st, references, bindings, class, self_ty),
        kept_decl(st, r.0),
{
    let _distinct = match check_bindings(bindings, Chain::Nil) {
        Ok(found) => found,
        Err(stop) => {
            return (st, Err(stop));
        },
    };
    let (st, out) = conform_to_all(cx, env, st, references, bindings, class, self_ty, Chain::Nil);
    let items = match out {
        Ok(found) => found,
        Err(stop) => {
            return (st, Err(stop));
        },
    };
    let _used = match check_bindings_used(cx, bindings, &items) {
        Ok(found) => found,
        Err(stop) => {
            return (st, Err(stop));
        },
    };
    (st, Ok(items))
}

} // verus!
