//! Resolution of written types, rows, bounds and signatures.
//!
//! The functions here state what the functions of the same name compute.

use vstd::prelude::*;
use crate::abi::{Bundle, GroupDef, OpDef};
use crate::ast::{GenericParam, InterfaceRef, Param, RowArg, RowItem, Span, TypeExpr, TypeExprKind};
use crate::chain::Chain;
use crate::context::{AssocSlot, BuiltinType, Ctx, Decl, FnSig, Generics, InterfaceUse, Params, PendingKey, TyEnv};
use crate::model::conform::{find_bound, project, type_conformance};
use crate::model::lists::{after_dot, append, before_dot, cons, count, find_literal, holds_id, holds_name, nth, position};
use crate::model::lookup::{associated_position, core_interface, interface_associated, interface_at, is_id, lookup_interface, lookup_type, meta_at, nominal_class, type_for_nominal};
use crate::model::names::{dotted, has_dot, starts_upper};
use crate::model::rows::canonical_row;
use crate::model::subst::substitute_interface_use;
use crate::problem::{Diag, Problem, Stop};
use crate::text::Text;
use crate::types::{Row, RowElem, Ty};

verus! {

/// A problem with one name.
pub open spec fn named(problem: Problem, subject: &Text, span: Span) -> Stop
{
    Stop::Fail(Diag { problem: problem, subject: *subject, span: span })
}

/// A problem without a name.
pub open spec fn unnamed(problem: Problem, span: Span) -> Stop
{
    Stop::Fail(Diag { problem: problem, subject: Chain::Nil, span: span })
}

/// The built-in type of one name.
pub open spec fn find_builtin<'a>(items: &'a Chain<BuiltinType>, name: &Text) -> Option<&'a Ty>
    decreases items,
{
    match items {
        Chain::Nil => None,
        Chain::Cons(head, tail) => {
            if (head.name == *name) {
                Some(&head.ty)
            } else {
                find_builtin(tail, name)
            }
        },
    }
}

/// The row number of a group.
pub open spec fn group_row(groups: &Chain<GroupDef>, name: &Text) -> Option<u32>
    decreases groups,
{
    match groups {
        Chain::Nil => None,
        Chain::Cons(head, tail) => {
            if (head.name == *name) {
                Some(head.row)
            } else {
                group_row(tail, name)
            }
        },
    }
}

/// The row number of an operation.
pub open spec fn op_row(ops: &Chain<OpDef>, name: &Text) -> Option<u32>
    decreases ops,
{
    match ops {
        Chain::Nil => None,
        Chain::Cons(head, tail) => {
            let full = dotted(&head.group, &head.member);
            if (full == *name) {
                Some(head.row)
            } else {
                op_row(tail, name)
            }
        },
    }
}

/// The row element of a manifest name: a group or an exact operation.
pub open spec fn row_named(bundle: &Bundle, name: &Text) -> Option<u32>
{
    match group_row(&bundle.groups, name) {
        Some(row) => Some(row),
        None => op_row(&bundle.ops, name),
    }
}

/// Resolve one item of a row.
pub open spec fn resolve_row_item(cx: &Ctx, env: &TyEnv, item: &RowItem) -> Result<RowElem, Stop>
{
    match position(&env.effect_names, &item.name) {
        Some(at) => Ok(RowElem::Var(at)),
        None => {
            match row_named(&cx.bundle, &item.name) {
                Some(row) => Ok(RowElem::Op(row)),
                None => {
                    if has_dot(&item.name) || starts_upper(&item.name) {
                        Err(named(Problem::NotInManifest, &item.name, item.span))
                    } else {
                        Err(named(Problem::UnknownEffect, &item.name, item.span))
                    }
                },
            }
        },
    }
}

/// Resolve each item of a row.
pub open spec fn resolve_row_items(cx: &Ctx, env: &TyEnv, items: &Chain<RowItem>) -> Result<Row, Stop>
    decreases items,
{
    match items {
        Chain::Nil => Ok(Chain::Nil),
        Chain::Cons(head, tail) => {
            match resolve_row_item(cx, env, head) {
                Err(stop) => Err(stop),
                Ok(first) => {
                    match resolve_row_items(cx, env, tail) {
                        Err(stop) => Err(stop),
                        Ok(rest) => {
                            Ok(cons(first, rest))
                        },
                    }
                },
            }
        },
    }
}

/// Resolve declared row items to a canonical row.
pub open spec fn resolve_row(cx: &Ctx, env: &TyEnv, items: &Chain<RowItem>) -> Result<Row, Stop>
{
    match resolve_row_items(cx, env, items) {
        Err(stop) => Err(stop),
        Ok(row) => {
            Ok(canonical_row(&row))
        },
    }
}

/// Whether a class is one of the text classes of the core image.
pub open spec fn is_text_class(cx: &Ctx, class: u32) -> bool
{
    is_id(find_literal(&cx.core_types, "Text"), class) || is_id(find_literal(&cx.core_types, "String"), class)
    || is_id(find_literal(&cx.core_types, "Substring"), class) || is_id(find_literal(&cx.core_types, "Char"), class)
}

/// Whether map keys of a type need no declared conformance.
pub open spec fn is_native_key(cx: &Ctx, key: &Ty) -> bool
{
    match key {
        Ty::Bool => true,
        Ty::Int => true,
        Ty::Float => true,
        Ty::Str => true,
        Ty::Bytes => true,
        _ => {
            match nominal_class(cx, key) {
                Some(found) => is_text_class(cx, found.class),
                None => false,
            }
        },
    }
}

/// Whether the class of a type has no resolved entry yet.
pub open spec fn is_unresolved(cx: &Ctx, key: &Ty) -> bool
{
    match nominal_class(cx, key) {
        None => false,
        Some(found) => {
            match nth(&cx.classes, found.class) {
                None => true,
                Some(info) => info.name.is_empty(),
            }
        },
    }
}

/// Require the key type of a map to be hashable. While classes are still
/// being resolved, a key of an unresolved class waits.
pub open spec fn check_key_type(cx: &Ctx, env: &TyEnv, st: Decl, key: &Ty, span: Span) -> (Decl, Result<(), Stop>)
{
    if is_unresolved(cx, key) && cx.defer_map_keys {
        (Decl { keys: append(st.keys, PendingKey { env: *env, key: *key, span: span }), ..st }, Ok(()))
    } else {
        match core_interface(cx, "Hashable", span) {
            Err(stop) => (st, Err(stop)),
            Ok(hashable) => {
                if is_native_key(cx, key) || type_conformance(cx, env, key, hashable).is_some() {
                    (st, Ok(()))
                } else {
                    (st, Err(unnamed(Problem::KeyNotHashable { key: *key }, span)))
                }
            },
        }
    }
}

/// The bounds that declare an associated type.
pub open spec fn bounds_with_associated(cx: &Ctx, bounds: &Chain<InterfaceUse>, name: &Text) -> Chain<AssocSlot>
    decreases bounds,
{
    match bounds {
        Chain::Nil => Chain::Nil,
        Chain::Cons(head, tail) => {
            let rest = bounds_with_associated(cx, tail, name);
            match associated_position(&interface_at(cx, head.interface).associated, name) {
                Some(at) => cons(AssocSlot { interface: head.interface, assoc: at }, rest),
                None => rest,
            }
        },
    }
}

/// The only element of a chain.
pub open spec fn single<'a>(items: &'a Chain<AssocSlot>) -> Option<&'a AssocSlot>
{
    match items {
        Chain::Nil => None,
        Chain::Cons(head, tail) => {
            match &**tail {
                Chain::Nil => Some(&**head),
                Chain::Cons(_, _) => None,
            }
        },
    }
}

/// Find one associated type through the bounds on a type variable.
pub open spec fn projection(
    cx: &Ctx,
    env: &TyEnv,
    base: Ty,
    variable: u32,
    name: &Text,
    span: Span,
) -> Result<Ty, Stop>
{
    match nth(&env.type_bounds, variable) {
        None => Err(named(Problem::NoAssociated, name, span)),
        Some(bounds) => {
            let found = bounds_with_associated(cx, bounds, name);
            match single(&found) {
                Some(slot) => Ok(project(cx, base, slot.interface, slot.assoc)),
                None => {
                    if found.is_empty() {
                        Err(named(Problem::NoAssociated, name, span))
                    } else {
                        Err(named(Problem::AmbiguousAssociated, name, span))
                    }
                },
            }
        },
    }
}

/// Resolve an associated type of `Self`.
pub open spec fn resolve_self_associated(cx: &Ctx, env: &TyEnv, associated: &Text, span: Span) -> Result<Ty, Stop>
{
    match env.self_interface {
        None => Err(unnamed(Problem::SelfNotInterface, span)),
        Some(interface) => {
            let found = interface_associated(cx, interface, associated);
            match single(&found) {
                Some(slot) => Ok(project(cx, Ty::Var(0), slot.interface, slot.assoc)),
                None => {
                    if found.is_empty() {
                        Err(named(Problem::NoInterfaceAssociated, associated, span))
                    } else {
                        Err(named(Problem::AmbiguousAssociated, associated, span))
                    }
                },
            }
        },
    }
}

/// Resolve a type name without arguments.
pub open spec fn resolve_plain_name(cx: &Ctx, env: &TyEnv, name: &Text, span: Span) -> Result<Ty, Stop>
{
    match position(&env.type_names, name) {
        Some(at) => Ok(Ty::Var(env.type_offset.wrapping_add(at))),
        None => {
            match find_builtin(&cx.builtins, name) {
                Some(ty) => Ok(*ty),
                None => {
                    match lookup_type(cx, name, env) {
                        Some(class) => {
                            let arity = meta_at(cx, class).type_params;
                            if arity != 0 {
                                Err(named(Problem::GenericNeedsArguments { expected: arity }, name, span))
                            } else {
                                Ok(type_for_nominal(cx, class, Chain::Nil))
                            }
                        },
                        None => Err(named(unknown_type(cx, env, name), name, span)),
                    }
                },
            }
        },
    }
}

/// Why a name is not a type.
pub open spec fn unknown_type(cx: &Ctx, env: &TyEnv, name: &Text) -> Problem
{
    if lookup_interface(cx, name, env).is_some() {
        Problem::InterfaceAsType
    } else {
        let associated = match env.self_interface {
            Some(interface) => !interface_associated(cx, interface, name).is_empty(),
            None => false,
        };
        if associated {
            Problem::AssociatedNeedsSelf
        } else if ((*name)@ == "List"@) || ((*name)@ == "Map"@) || ((*name)@ == "Run"@) || ((*name)@ == "Wait"@) || ((*name)@ == "RunSnapshot"@) {
            Problem::NeedsTypeArguments
        } else {
            Problem::UnknownType
        }
    }
}

/// Resolve a written type name: `Self`, an associated type, a type
/// parameter, a built-in type, or a class without type parameters.
pub open spec fn resolve_name(cx: &Ctx, env: &TyEnv, name: &Text, span: Span) -> Result<Ty, Stop>
{
    if ((*name)@ == "Self"@) {
        match &env.self_ty {
            Some(ty) => Ok(*ty),
            None => Err(unnamed(Problem::SelfNotAvailable, span)),
        }
    } else {
        match after_dot(name) {
            None => resolve_plain_name(cx, env, name, span),
            Some(associated) => {
                let base = before_dot(name);
                if (base@ == "Self"@) {
                    resolve_self_associated(cx, env, associated, span)
                } else {
                    match position(&env.type_names, &base) {
                        Some(at) => projection(cx, env, Ty::Var(env.type_offset.wrapping_add(at)), at, associated, span),
                        None => resolve_plain_name(cx, env, name, span),
                    }
                }
            },
        }
    }
}

/// Resolve each type.
pub open spec fn resolve_types(cx: &Ctx, env: &TyEnv, st: Decl, items: &Chain<TypeExpr>) -> (Decl, Result<Chain<Ty>, Stop>)
    decreases items, 0int,
{
    match items {
        Chain::Nil => (st, Ok(Chain::Nil)),
        Chain::Cons(head, tail) => {
            match resolve_type(cx, env, st, head) {
                (st, Err(stop)) => (st, Err(stop)),
                (st, Ok(first)) => {
                    match resolve_types(cx, env, st, tail) {
                        (st, Err(stop)) => (st, Err(stop)),
                        (st, Ok(rest)) => {
                            (st, Ok(cons(first, rest)))
                        },
                    }
                },
            }
        },
    }
}

/// Resolve the only argument of a built-in generic type.
pub open spec fn resolve_one(
    cx: &Ctx,
    env: &TyEnv,
    st: Decl,
    name: &Text,
    args: &Chain<TypeExpr>,
    span: Span,
) -> (Decl, Result<Ty, Stop>)
    decreases args, 1int,
{
    match args {
        Chain::Cons(first, rest) => {
            if rest.is_empty() {
                resolve_type(cx, env, st, first)
            } else {
                (st, Err(named(Problem::TypeArgumentCount { expected: 1, found: count(args) }, name, span)))
            }
        },
        Chain::Nil => (st, Err(named(Problem::TypeArgumentCount { expected: 1, found: 0 }, name, span))),
    }
}

/// Resolve the two arguments of a built-in generic type. The first
/// argument of a map is its key.
pub open spec fn resolve_two(
    cx: &Ctx,
    env: &TyEnv,
    st: Decl,
    name: &Text,
    args: &Chain<TypeExpr>,
    is_map: bool,
    span: Span,
) -> (Decl, Result<Ty, Stop>)
    decreases args, 1int,
{
    match args {
        Chain::Cons(first, rest) => {
            match &**rest {
                Chain::Cons(second, more) => {
                    if !more.is_empty() {
                        (st, Err(named(Problem::TypeArgumentCount { expected: 2, found: count(args) }, name, span)))
                    } else if is_map {
                        match resolve_type(cx, env, st, first) {
                            (st, Err(stop)) => (st, Err(stop)),
                            (st, Ok(key)) => {
                                match check_key_type(cx, env, st, &key, first.span) {
                                    (st, Err(stop)) => (st, Err(stop)),
                                    (st, Ok(_checked)) => {
                                        match resolve_type(cx, env, st, second) {
                                            (st, Err(stop)) => (st, Err(stop)),
                                            (st, Ok(value)) => {
                                                (st, Ok(Ty::MapOf(Box::new(key), Box::new(value))))
                                            },
                                        }
                                    },
                                }
                            },
                        }
                    } else {
                        match resolve_type(cx, env, st, first) {
                            (st, Err(stop)) => (st, Err(stop)),
                            (st, Ok(mailbox)) => {
                                match resolve_type(cx, env, st, second) {
                                    (st, Err(stop)) => (st, Err(stop)),
                                    (st, Ok(result)) => {
                                        (st, Ok(Ty::Handle(Box::new(mailbox), Box::new(result))))
                                    },
                                }
                            },
                        }
                    }
                },
                Chain::Nil => (st, Err(named(Problem::TypeArgumentCount { expected: 2, found: 1 }, name, span))),
            }
        },
        Chain::Nil => (st, Err(named(Problem::TypeArgumentCount { expected: 2, found: 0 }, name, span))),
    }
}

/// Resolve a class with type arguments.
pub open spec fn resolve_class_apply(
    cx: &Ctx,
    env: &TyEnv,
    st: Decl,
    name: &Text,
    args: &Chain<TypeExpr>,
    span: Span,
) -> (Decl, Result<Ty, Stop>)
    decreases args, 1int,
{
    match lookup_type(cx, name, env) {
        Some(class) => {
            let arity = meta_at(cx, class).type_params;
            if arity == 0 {
                (st, Err(named(Problem::TakesNoTypeArguments, name, span)))
            } else if count(args) != arity {
                (st, Err(named(Problem::TypeArgumentCount { expected: arity, found: count(args) }, name, span)))
            } else {
                match resolve_types(cx, env, st, args) {
                    (st, Err(stop)) => (st, Err(stop)),
                    (st, Ok(resolved)) => {
                        (st, Ok(type_for_nominal(cx, class, resolved)))
                    },
                }
            }
        },
        None => {
            if lookup_interface(cx, name, env).is_some() {
                (st, Err(named(Problem::InterfaceAsType, name, span)))
            } else {
                (st, Err(named(Problem::UnknownType, name, span)))
            }
        },
    }
}

/// Resolve a generic type with its written arguments.
pub open spec fn resolve_apply(
    cx: &Ctx,
    env: &TyEnv,
    st: Decl,
    name: &Text,
    args: &Chain<TypeExpr>,
    span: Span,
) -> (Decl, Result<Ty, Stop>)
    decreases args, 2int,
{
    if ((*name)@ == "Vm"@) {
        (st, Err(unnamed(Problem::VmTakesNoTypeArguments, span)))
    } else if ((*name)@ == "Run"@) {
        match resolve_one(cx, env, st, name, args, span) {
            (st, Err(stop)) => (st, Err(stop)),
            (st, Ok(result)) => {
                (st, Ok(Ty::Run(Box::new(result))))
            },
        }
    } else if ((*name)@ == "Wait"@) {
        match resolve_one(cx, env, st, name, args, span) {
            (st, Err(stop)) => (st, Err(stop)),
            (st, Ok(result)) => {
                (st, Ok(Ty::Wait(Box::new(result))))
            },
        }
    } else if ((*name)@ == "RunSnapshot"@) {
        match resolve_one(cx, env, st, name, args, span) {
            (st, Err(stop)) => (st, Err(stop)),
            (st, Ok(result)) => {
                (st, Ok(Ty::RunSnapshot(Box::new(result))))
            },
        }
    } else if ((*name)@ == "List"@) {
        match resolve_one(cx, env, st, name, args, span) {
            (st, Err(stop)) => (st, Err(stop)),
            (st, Ok(element)) => {
                (st, Ok(Ty::ListOf(Box::new(element))))
            },
        }
    } else if ((*name)@ == "Handle"@) {
        resolve_two(cx, env, st, name, args, false, span)
    } else if ((*name)@ == "Map"@) {
        resolve_two(cx, env, st, name, args, true, span)
    } else {
        resolve_class_apply(cx, env, st, name, args, span)
    }
}

/// Resolve one written type in a scope.
pub open spec fn resolve_type(cx: &Ctx, env: &TyEnv, st: Decl, ty: &TypeExpr) -> (Decl, Result<Ty, Stop>)
    decreases ty, 0int,
{
    match &ty.kind {
        TypeExprKind::Unit => (st, Ok(Ty::Unit)),
        TypeExprKind::Name(name) => {
            match resolve_name(cx, env, name, ty.span) {
                Err(stop) => (st, Err(stop)),
                Ok(found) => {
                    (st, Ok(found))
                },
            }
        },
        TypeExprKind::Apply(name, args) => resolve_apply(cx, env, st, name, args, ty.span),
        TypeExprKind::ListShort(element) => {
            match resolve_type(cx, env, st, element) {
                (st, Err(stop)) => (st, Err(stop)),
                (st, Ok(item)) => {
                    (st, Ok(Ty::ListOf(Box::new(item))))
                },
            }
        },
        TypeExprKind::MapShort(key, value) => {
            match resolve_type(cx, env, st, key) {
                (st, Err(stop)) => (st, Err(stop)),
                (st, Ok(key_ty)) => {
                    match check_key_type(cx, env, st, &key_ty, key.span) {
                        (st, Err(stop)) => (st, Err(stop)),
                        (st, Ok(_checked)) => {
                            match resolve_type(cx, env, st, value) {
                                (st, Err(stop)) => (st, Err(stop)),
                                (st, Ok(value_ty)) => {
                                    (st, Ok(Ty::MapOf(Box::new(key_ty), Box::new(value_ty))))
                                },
                            }
                        },
                    }
                },
            }
        },
        TypeExprKind::Tuple(elements) => {
            match resolve_types(cx, env, st, elements) {
                (st, Err(stop)) => (st, Err(stop)),
                (st, Ok(items)) => {
                    (st, Ok(Ty::Tuple(items)))
                },
            }
        },
        TypeExprKind::Fn(params, muts, ret, row) => {
            match resolve_types(cx, env, st, params) {
                (st, Err(stop)) => (st, Err(stop)),
                (st, Ok(param_tys)) => {
                    match resolve_type(cx, env, st, ret) {
                        (st, Err(stop)) => (st, Err(stop)),
                        (st, Ok(ret_ty)) => {
                            match resolve_row(cx, env, row) {
                                Err(stop) => (st, Err(stop)),
                                Ok(effects) => {
                                    (st, Ok(Ty::Fn(param_tys, *muts, Box::new(ret_ty), effects)))
                                },
                            }
                        },
                    }
                },
            }
        },
    }
}

/// Resolve an optional result type; a missing one is the unit type.
pub open spec fn resolve_ret(cx: &Ctx, env: &TyEnv, st: Decl, ret: &Option<TypeExpr>) -> (Decl, Result<Ty, Stop>)
{
    match ret {
        None => (st, Ok(Ty::Unit)),
        Some(ty) => resolve_type(cx, env, st, ty),
    }
}

/// The number of type parameters among generic kinds.
pub open spec fn count_types(kinds: &Chain<bool>) -> u32
    decreases kinds,
{
    match kinds {
        Chain::Nil => 0u32,
        Chain::Cons(head, tail) => {
            if **head {
                count_types(tail)
            } else {
                count_types(tail).wrapping_add(1)
            }
        },
    }
}

/// The number of effect parameters among generic kinds.
pub open spec fn count_effects(kinds: &Chain<bool>) -> u32
    decreases kinds,
{
    match kinds {
        Chain::Nil => 0u32,
        Chain::Cons(head, tail) => {
            if **head {
                count_effects(tail).wrapping_add(1)
            } else {
                count_effects(tail)
            }
        },
    }
}

/// Empty rows of the given number.
pub open spec fn empty_rows(total: u32) -> Chain<Row>
    decreases total,
{
    if total == 0 {
        Chain::Nil
    } else {
        cons(Chain::Nil, empty_rows((total - 1) as u32))
    }
}

/// Resolve each effect argument.
pub open spec fn resolve_row_args(cx: &Ctx, env: &TyEnv, items: &Chain<RowArg>) -> Result<Chain<Row>, Stop>
    decreases items,
{
    match items {
        Chain::Nil => Ok(Chain::Nil),
        Chain::Cons(head, tail) => {
            match resolve_row(cx, env, &head.row) {
                Err(stop) => Err(stop),
                Ok(first) => {
                    match resolve_row_args(cx, env, tail) {
                        Err(stop) => Err(stop),
                        Ok(rest) => {
                            Ok(cons(first, rest))
                        },
                    }
                },
            }
        },
    }
}

/// Resolve one interface application in a type environment.
pub open spec fn resolve_interface_use(cx: &Ctx, env: &TyEnv, st: Decl, reference: &InterfaceRef) -> (Decl, Result<InterfaceUse, Stop>)
{
    match lookup_interface(cx, &reference.name, env) {
        None => (st, Err(named(Problem::UnknownInterface, &reference.name, reference.span))),
        Some(interface) => {
            let kinds = &interface_at(cx, interface).generic_is_effect;
            let type_count = count_types(kinds);
            let effect_count = count_effects(kinds);
            if type_count != count(&reference.type_args) {
                (st, Err(named(Problem::InterfaceTypeCount { expected: type_count, found: count(&reference.type_args) }, &reference.name, reference.span)))
            } else if !reference.row_args.is_empty() && effect_count != count(&reference.row_args) {
                (st, Err(named(Problem::InterfaceEffectCount { expected: effect_count, found: count(&reference.row_args) }, &reference.name, reference.span)))
            } else {
                match resolve_types(cx, env, st, &reference.type_args) {
                    (st, Err(stop)) => (st, Err(stop)),
                    (st, Ok(type_args)) => {
                        if reference.row_args.is_empty() {
                            (st, Ok(InterfaceUse { interface: interface, type_args: type_args, row_args: empty_rows(effect_count) }))
                        } else {
                            match resolve_row_args(cx, env, &reference.row_args) {
                                Err(stop) => (st, Err(stop)),
                                Ok(row_args) => {
                                    (st, Ok(InterfaceUse { interface: interface, type_args: type_args, row_args: row_args }))
                                },
                            }
                        }
                    },
                }
            }
        },
    }
}

/// Resolve bounds behind the resolved ones.
pub open spec fn resolve_bounds_after(
    cx: &Ctx,
    env: &TyEnv,
    st: Decl,
    references: &Chain<InterfaceRef>,
    bounds: Chain<InterfaceUse>,
) -> (Decl, Result<Chain<InterfaceUse>, Stop>)
    decreases references,
{
    match references {
        Chain::Nil => (st, Ok(bounds)),
        Chain::Cons(head, tail) => {
            match resolve_interface_use(cx, env, st, head) {
                (st, Err(stop)) => (st, Err(stop)),
                (st, Ok(application)) => {
                    if find_bound(&bounds, application.interface).is_some() {
                        (st, Err(named(Problem::DuplicateBound, &head.name, head.span)))
                    } else {
                        resolve_bounds_after(cx, env, st, tail, append(bounds, application))
                    }
                },
            }
        },
    }
}

/// Resolve one conjunction of interface bounds.
pub open spec fn resolve_interface_bounds(cx: &Ctx, env: &TyEnv, st: Decl, references: &Chain<InterfaceRef>) -> (Decl, Result<Chain<InterfaceUse>, Stop>)
{
    resolve_bounds_after(cx, env, st, references, Chain::Nil)
}

/// Add the parents of an application.
pub open spec fn expand_parents(
    cx: &Ctx,
    base: &Ty,
    parents: &Chain<InterfaceUse>,
    types: &Chain<Ty>,
    rows: &Chain<Row>,
    span: Span,
    visiting: &Chain<u32>,
    depth: u32,
    bounds: Chain<InterfaceUse>,
) -> Result<Chain<InterfaceUse>, Stop>
    decreases 128 - depth, 1int, parents,
{
    match parents {
        Chain::Nil => Ok(bounds),
        Chain::Cons(head, tail) => {
            let parent = substitute_interface_use(head, types, rows);
            match expand_interface_application(cx, base, parent, span, visiting, depth, bounds) {
                Err(stop) => Err(stop),
                Ok(expanded) => {
                    expand_parents(cx, base, tail, types, rows, span, visiting, depth, expanded)
                },
            }
        },
    }
}

/// Add one interface and all parent interfaces to one bound set.
/// `visiting` holds the interfaces on the way down, `depth` their number.
pub open spec fn expand_interface_application(
    cx: &Ctx,
    base: &Ty,
    application: InterfaceUse,
    span: Span,
    visiting: &Chain<u32>,
    depth: u32,
    bounds: Chain<InterfaceUse>,
) -> Result<Chain<InterfaceUse>, Stop>
    decreases 128 - depth, 0int, Chain::<u32>::Nil,
{
    if depth >= 128 {
        Err(unnamed(Problem::InheritanceDepth, span))
    } else if holds_id(visiting, application.interface) {
        Err(unnamed(Problem::InheritanceCycle, span))
    } else {
        match find_bound(&bounds, application.interface) {
            Some(existing) => {
                if (*existing == application) {
                    Ok(bounds)
                } else {
                    Err(unnamed(Problem::InheritanceConflict { interface: application.interface }, span))
                }
            },
            None => {
                let parents = &interface_at(cx, application.interface).parents;
                if parents.is_empty() {
                    Ok(append(bounds, application))
                } else {
                    let types = cons(*base, application.type_args);
                    let rows = application.row_args;
                    let below = cons(application.interface, *visiting);
                    expand_parents(cx, base, parents, &types, &rows, span, &below, (depth + 1) as u32, append(bounds, application))
                }
            },
        }
    }
}

/// Whether an application of a list has parents.
pub open spec fn any_parents(cx: &Ctx, items: &Chain<InterfaceUse>) -> bool
    decreases items,
{
    match items {
        Chain::Nil => false,
        Chain::Cons(head, tail) => !interface_at(cx, head.interface).parents.is_empty() || any_parents(cx, tail),
    }
}

/// Expand each application.
pub open spec fn expand_each(
    cx: &Ctx,
    base: &Ty,
    direct: Chain<InterfaceUse>,
    span: Span,
    bounds: Chain<InterfaceUse>,
) -> Result<Chain<InterfaceUse>, Stop>
    decreases direct,
{
    match direct {
        Chain::Nil => Ok(bounds),
        Chain::Cons(head, tail) => {
            match expand_interface_application(cx, base, *head, span, &Chain::Nil, 0u32, bounds) {
                Err(stop) => Err(stop),
                Ok(expanded) => {
                    expand_each(cx, base, *tail, span, expanded)
                },
            }
        },
    }
}

/// Expand direct bounds with their transitive parent interfaces.
pub open spec fn expand_interface_bounds(cx: &Ctx, base: &Ty, direct: Chain<InterfaceUse>, span: Span) -> Result<Chain<InterfaceUse>, Stop>
{
    if any_parents(cx, &direct) {
        expand_each(cx, base, direct, span, Chain::Nil)
    } else {
        Ok(direct)
    }
}

/// The bounds of generic parameters from a position on.
pub open spec fn generic_bounds_from(
    cx: &Ctx,
    env: &TyEnv,
    st: Decl,
    generics: &Chain<GenericParam>,
    at: u32,
) -> (Decl, Result<Chain<Chain<InterfaceUse>>, Stop>)
    decreases generics,
{
    match generics {
        Chain::Nil => (st, Ok(Chain::Nil)),
        Chain::Cons(head, tail) => {
            if head.is_effect {
                generic_bounds_from(cx, env, st, tail, at)
            } else {
                match resolve_interface_bounds(cx, env, st, &head.bounds) {
                    (st, Err(stop)) => (st, Err(stop)),
                    (st, Ok(direct)) => {
                        match expand_interface_bounds(cx, &Ty::Var(at), direct, head.span) {
                            Err(stop) => (st, Err(stop)),
                            Ok(expanded) => {
                                match generic_bounds_from(cx, env, st, tail, at.wrapping_add(1)) {
                                    (st, Err(stop)) => (st, Err(stop)),
                                    (st, Ok(rest)) => {
                                        (st, Ok(cons(expanded, rest)))
                                    },
                                }
                            },
                        }
                    },
                }
            }
        },
    }
}

/// Resolve bounds for type parameters in declaration order.
pub open spec fn resolve_generic_bounds(cx: &Ctx, env: &TyEnv, st: Decl, generics: &Chain<GenericParam>) -> (Decl, Result<Chain<Chain<InterfaceUse>>, Stop>)
{
    generic_bounds_from(cx, env, st, generics, env.type_offset)
}

/// Split generic parameters into type names and effect names.
pub open spec fn split_generics(generics: &Chain<GenericParam>) -> Generics
    decreases generics,
{
    match generics {
        Chain::Nil => Generics { types: Chain::Nil, effects: Chain::Nil },
        Chain::Cons(head, tail) => {
            let rest = split_generics(tail);
            if head.is_effect {
                Generics { types: rest.types, effects: cons(head.name, rest.effects) }
            } else {
                Generics { types: cons(head.name, rest.types), effects: rest.effects }
            }
        },
    }
}

/// Resolve one parameter and apply its escape rule.
pub open spec fn resolve_param_type(cx: &Ctx, env: &TyEnv, st: Decl, param: &Param) -> (Decl, Result<Ty, Stop>)
{
    match resolve_type(cx, env, st, &param.ty) {
        (st, Err(stop)) => (st, Err(stop)),
        (st, Ok(ty)) => {
            match ty {
                Ty::Fn(params, muts, ret, row) => {
                    if param.escaping {
                        (st, Ok(Ty::Fn(params, muts, ret, row)))
                    } else {
                        (st, Ok(Ty::Callback(params, muts, ret, row)))
                    }
                },
                other => {
                    if param.escaping {
                        (st, Err(unnamed(Problem::EscapingNotFunction, param.ty.span)))
                    } else {
                        (st, Ok(other))
                    }
                },
            }
        },
    }
}

/// Resolve parameters behind the resolved ones.
pub open spec fn resolve_params_after(
    cx: &Ctx,
    env: &TyEnv,
    st: Decl,
    params: &Chain<Param>,
    seen: Chain<Text>,
) -> (Decl, Result<Params, Stop>)
    decreases params,
{
    match params {
        Chain::Nil => (st, Ok(Params { types: Chain::Nil, muts: Chain::Nil, names: Chain::Nil })),
        Chain::Cons(head, tail) => {
            if holds_name(&seen, &head.name) {
                (st, Err(named(Problem::DuplicateParameter, &head.name, head.span)))
            } else {
                match resolve_param_type(cx, env, st, head) {
                    (st, Err(stop)) => (st, Err(stop)),
                    (st, Ok(ty)) => {
                        match resolve_params_after(cx, env, st, tail, cons(head.name, seen)) {
                            (st, Err(stop)) => (st, Err(stop)),
                            (st, Ok(rest)) => {
                                (st, Ok(Params { types: cons(ty, rest.types), muts: cons(head.mutable, rest.muts), names: cons(head.name, rest.names) }))
                            },
                        }
                    },
                }
            }
        },
    }
}

/// Resolve the parameters of a callable; names are distinct.
pub open spec fn resolve_parameters(cx: &Ctx, env: &TyEnv, st: Decl, params: &Chain<Param>) -> (Decl, Result<Params, Stop>)
{
    resolve_params_after(cx, env, st, params, Chain::Nil)
}

/// Resolve the signature of a function.
pub open spec fn resolve_sig(
    cx: &Ctx,
    env: &TyEnv,
    st: Decl,
    params: &Chain<Param>,
    ret: &Option<TypeExpr>,
    row: &Chain<RowItem>,
) -> (Decl, Result<FnSig, Stop>)
{
    match resolve_parameters(cx, env, st, params) {
        (st, Err(stop)) => (st, Err(stop)),
        (st, Ok(resolved)) => {
            match resolve_ret(cx, env, st, ret) {
                (st, Err(stop)) => (st, Err(stop)),
                (st, Ok(ret_ty)) => {
                    match resolve_row(cx, env, row) {
                        Err(stop) => (st, Err(stop)),
                        Ok(effects) => {
                            (st, Ok(FnSig {
                                type_params: env.type_names,
                                type_bounds: env.type_bounds,
                                effect_params: env.effect_names,
                                params: resolved.types,
                                param_muts: resolved.muts,
                                param_names: resolved.names,
                                ret: ret_ty,
                                row: effects,
                            }))
                        },
                    }
                },
            }
        },
    }
}

} // verus!
