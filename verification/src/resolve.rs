//! Resolution of written types, rows, bounds and signatures.

use vstd::prelude::*;
use crate::abi::{Bundle, GroupDef, OpDef};
use crate::ast::{GenericParam, InterfaceRef, Param, RowArg, RowItem, Span, TypeExpr, TypeExprKind};
use crate::chain::{Chain, copy_chain};
use crate::conform::{find_bound, project, type_conformance};
use crate::context::{AssocSlot, BuiltinType, Ctx, Decl, FnSig, Generics, InterfaceUse, Params, PendingKey, TyEnv, clone_interface_use_lists, clone_rows, clone_texts, same_interface_use};
use crate::lists::{after_dot, append, before_dot, cons, count, find_literal, holds_id, holds_name, nth, position};
use crate::lookup::{associated_position, core_interface, interface_associated, interface_at, is_id, lookup_interface, lookup_type, meta_at, nominal_class, type_for_nominal};
use crate::names::{dotted, has_dot, starts_upper};
use crate::problem::{Diag, Problem, Stop};
use crate::rows::canonical_row;
use crate::subst::substitute_interface_use;
use crate::text::{Text, is_text, same_text};
use crate::types::{Row, RowElem, Ty, clone_tys};
use crate::model::keeps::kept_decl;
use crate::model;

verus! {

broadcast use crate::model::keeps::group_kept;

/// A problem with one name.
pub fn named(problem: Problem, subject: &Text, span: Span) -> (r: Stop)
    ensures
        r == model::resolve::named(problem, subject, span),
{
    Stop::Fail(Diag { problem: problem, subject: copy_chain(&*subject), span: span })
}

/// A problem without a name.
pub fn unnamed(problem: Problem, span: Span) -> (r: Stop)
    ensures
        r == model::resolve::unnamed(problem, span),
{
    Stop::Fail(Diag { problem: problem, subject: Chain::Nil, span: span })
}

/// The built-in type of one name.
pub fn find_builtin<'a>(items: &'a Chain<BuiltinType>, name: &Text) -> (r: Option<&'a Ty>)
    ensures
        r == model::resolve::find_builtin(items, name),
    decreases items,
{
    match items {
        Chain::Nil => None,
        Chain::Cons(head, tail) => {
            if same_text(&head.name, &*name) {
                Some(&head.ty)
            } else {
                find_builtin(tail, name)
            }
        },
    }
}

/// The row number of a group.
pub fn group_row(groups: &Chain<GroupDef>, name: &Text) -> (r: Option<u32>)
    ensures
        r == model::resolve::group_row(groups, name),
    decreases groups,
{
    match groups {
        Chain::Nil => None,
        Chain::Cons(head, tail) => {
            if same_text(&head.name, &*name) {
                Some(head.row)
            } else {
                group_row(tail, name)
            }
        },
    }
}

/// The row number of an operation.
pub fn op_row(ops: &Chain<OpDef>, name: &Text) -> (r: Option<u32>)
    ensures
        r == model::resolve::op_row(ops, name),
    decreases ops,
{
    match ops {
        Chain::Nil => None,
        Chain::Cons(head, tail) => {
            let full = dotted(&head.group, &head.member);
            if same_text(&full, &*name) {
                Some(head.row)
            } else {
                op_row(tail, name)
            }
        },
    }
}

/// The row element of a manifest name: a group or an exact operation.
pub fn row_named(bundle: &Bundle, name: &Text) -> (r: Option<u32>)
    ensures
        r == model::resolve::row_named(bundle, name),
{
    match group_row(&bundle.groups, name) {
        Some(row) => Some(row),
        None => op_row(&bundle.ops, name),
    }
}

/// Resolve one item of a row.
pub fn resolve_row_item(cx: &Ctx, env: &TyEnv, item: &RowItem) -> (r: Result<RowElem, Stop>)
    ensures
        r == model::resolve::resolve_row_item(cx, env, item),
{
    match position(&env.effect_names, &item.name) {
        Some(at) => Ok(RowElem::Var(at)),
        None => {
            match row_named(&cx.bundle, &item.name) {
                Some(row) => Ok(RowElem::Op(row)),
                None => {
                    if has_dot(&item.name) || starts_upper(&item.name) {
                        Err(named(Problem::NotInManifest, &item.name, item.span))
                    } else {
                        Err(named(Problem::UnknownEffect, &item.name, item.span))
                    }
                },
            }
        },
    }
}

/// Resolve each item of a row.
pub fn resolve_row_items(cx: &Ctx, env: &TyEnv, items: &Chain<RowItem>) -> (r: Result<Row, Stop>)
    ensures
        r == model::resolve::resolve_row_items(cx, env, items),
    decreases items,
{
    match items {
        Chain::Nil => Ok(Chain::Nil),
        Chain::Cons(head, tail) => {
            let first = match resolve_row_item(cx, env, head) {
                Ok(found) => found,
                Err(stop) => {
                    return Err(stop);
                },
            };
            let rest = match resolve_row_items(cx, env, tail) {
                Ok(found) => found,
                Err(stop) => {
                    return Err(stop);
                },
            };
            Ok(cons(first, rest))
        },
    }
}

/// Resolve declared row items to a canonical row.
pub fn resolve_row(cx: &Ctx, env: &TyEnv, items: &Chain<RowItem>) -> (r: Result<Row, Stop>)
    ensures
        r == model::resolve::resolve_row(cx, env, items),
{
    let row = match resolve_row_items(cx, env, items) {
        Ok(found) => found,
        Err(stop) => {
            return Err(stop);
        },
    };
    Ok(canonical_row(&row))
}

/// Whether a class is one of the text classes of the core image.
pub fn is_text_class(cx: &Ctx, class: u32) -> (r: bool)
    ensures
        r == model::resolve::is_text_class(cx, class),
{
    is_id(find_literal(&cx.core_types, "Text"), class) || is_id(find_literal(&cx.core_types, "String"), class)
    || is_id(find_literal(&cx.core_types, "Substring"), class) || is_id(find_literal(&cx.core_types, "Char"), class)
}

/// Whether map keys of a type need no declared conformance.
pub fn is_native_key(cx: &Ctx, key: &Ty) -> (r: bool)
    ensures
        r == model::resolve::is_native_key(cx, key),
{
    match key {
        Ty::Bool => true,
        Ty::Int => true,
        Ty::Float => true,
        Ty::Str => true,
        Ty::Bytes => true,
        _ => {
            match nominal_class(cx, key) {
                Some(found) => is_text_class(cx, found.class),
                None => false,
            }
        },
    }
}

/// Whether the class of a type has no resolved entry yet.
pub fn is_unresolved(cx: &Ctx, key: &Ty) -> (r: bool)
    ensures
        r == model::resolve::is_unresolved(cx, key),
{
    match nominal_class(cx, key) {
        None => false,
        Some(found) => {
            match nth(&cx.classes, found.class) {
                None => true,
                Some(info) => info.name.is_empty(),
            }
        },
    }
}

/// Require the key type of a map to be hashable. While classes are still
/// being resolved, a key of an unresolved class waits.
pub fn check_key_type(cx: &Ctx, env: &TyEnv, st: Decl, key: &Ty, span: Span) -> (r: (Decl, Result<(), Stop>))
    ensures
        r == model::resolve::check_key_type(cx, env, st, key, span),
        kept_decl(st, r.0),
{
    if is_unresolved(cx, key) && cx.defer_map_keys {
        return (Decl { keys: append(st.keys, PendingKey { env: (*env).clone(), key: (*key).clone(), span: span }), ..st }, Ok(()));
    }
    let hashable = match core_interface(cx, "Hashable", span) {
        Ok(found) => found,
        Err(stop) => {
            return (st, Err(stop));
        },
    };
    if is_native_key(cx, key) || type_conformance(cx, env, key, hashable).is_some() {
        (st, Ok(()))
    } else {
        (st, Err(unnamed(Problem::KeyNotHashable { key: (*key).clone() }, span)))
    }
}

/// The bounds that declare an associated type.
pub fn bounds_with_associated(cx: &Ctx, bounds: &Chain<InterfaceUse>, name: &Text) -> (r: Chain<AssocSlot>)
    ensures
        r == model::resolve::bounds_with_associated(cx, bounds, name),
    decreases bounds,
{
    match bounds {
        Chain::Nil => Chain::Nil,
        Chain::Cons(head, tail) => {
            let rest = bounds_with_associated(cx, tail, name);
            match associated_position(&interface_at(cx, head.interface).associated, name) {
                Some(at) => cons(AssocSlot { interface: head.interface, assoc: at }, rest),
                None => rest,
            }
        },
    }
}

/// The only element of a chain.
pub fn single<'a>(items: &'a Chain<AssocSlot>) -> (r: Option<&'a AssocSlot>)
    ensures
        r == model::resolve::single(items),
{
    match items {
        Chain::Nil => None,
        Chain::Cons(head, tail) => {
            match &**tail {
                Chain::Nil => Some(&**head),
                Chain::Cons(_, _) => None,
            }
        },
    }
}

/// Find one associated type through the bounds on a type variable.
pub fn projection(
    cx: &Ctx,
    env: &TyEnv,
    base: Ty,
    variable: u32,
    name: &Text,
    span: Span,
) -> (r: Result<Ty, Stop>)
    ensures
        r == model::resolve::projection(cx, env, base, variable, name, span),
{
    let bounds = match nth(&env.type_bounds, variable) {
        Some(found) => found,
        None => {
            return Err(named(Problem::NoAssociated, name, span));
        },
    };
    let found = bounds_with_associated(cx, bounds, name);
    match single(&found) {
        Some(slot) => Ok(project(cx, base, slot.interface, slot.assoc)),
        None => {
            if found.is_empty() {
                Err(named(Problem::NoAssociated, name, span))
            } else {
                Err(named(Problem::AmbiguousAssociated, name, span))
            }
        },
    }
}

/// Resolve an associated type of `Self`.
pub fn resolve_self_associated(cx: &Ctx, env: &TyEnv, associated: &Text, span: Span) -> (r: Result<Ty, Stop>)
    ensures
        r == model::resolve::resolve_self_associated(cx, env, associated, span),
{
    let interface = match env.self_interface {
        Some(found) => found,
        None => {
            return Err(unnamed(Problem::SelfNotInterface, span));
        },
    };
    let found = interface_associated(cx, interface, associated);
    match single(&found) {
        Some(slot) => Ok(project(cx, Ty::Var(0), slot.interface, slot.assoc)),
        None => {
            if found.is_empty() {
                Err(named(Problem::NoInterfaceAssociated, associated, span))
            } else {
                Err(named(Problem::AmbiguousAssociated, associated, span))
            }
        },
    }
}

/// Resolve a type name without arguments.
pub fn resolve_plain_name(cx: &Ctx, env: &TyEnv, name: &Text, span: Span) -> (r: Result<Ty, Stop>)
    ensures
        r == model::resolve::resolve_plain_name(cx, env, name, span),
{
    match position(&env.type_names, name) {
        Some(at) => Ok(Ty::Var(env.type_offset.wrapping_add(at))),
        None => {
            match find_builtin(&cx.builtins, name) {
                Some(ty) => Ok((*ty).clone()),
                None => {
                    match lookup_type(cx, name, env) {
                        Some(class) => {
                            let arity = meta_at(cx, class).type_params;
                            if arity != 0 {
                                Err(named(Problem::GenericNeedsArguments { expected: arity }, name, span))
                            } else {
                                Ok(type_for_nominal(cx, class, Chain::Nil))
                            }
                        },
                        None => Err(named(unknown_type(cx, env, name), name, span)),
                    }
                },
            }
        },
    }
}

/// Why a name is not a type.
pub fn unknown_type(cx: &Ctx, env: &TyEnv, name: &Text) -> (r: Problem)
    ensures
        r == model::resolve::unknown_type(cx, env, name),
{
    if lookup_interface(cx, name, env).is_some() {
        return Problem::InterfaceAsType;
    }
    let associated = match env.self_interface {
        Some(interface) => !interface_associated(cx, interface, name).is_empty(),
        None => false,
    };
    if associated {
        return Problem::AssociatedNeedsSelf;
    }
    if is_text(&*name, "List") || is_text(&*name, "Map") || is_text(&*name, "Run") || is_text(&*name, "Wait") || is_text(&*name, "RunSnapshot") {
        Problem::NeedsTypeArguments
    } else {
        Problem::UnknownType
    }
}

/// Resolve a written type name: `Self`, an associated type, a type
/// parameter, a built-in type, or a class without type parameters.
pub fn resolve_name(cx: &Ctx, env: &TyEnv, name: &Text, span: Span) -> (r: Result<Ty, Stop>)
    ensures
        r == model::resolve::resolve_name(cx, env, name, span),
{
    if is_text(&*name, "Self") {
        match &env.self_ty {
            Some(ty) => Ok((*ty).clone()),
            None => Err(unnamed(Problem::SelfNotAvailable, span)),
        }
    } else {
        match after_dot(name) {
            None => resolve_plain_name(cx, env, name, span),
            Some(associated) => {
                let base = before_dot(name);
                if is_text(&base, "Self") {
                    resolve_self_associated(cx, env, associated, span)
                } else {
                    match position(&env.type_names, &base) {
                        Some(at) => projection(cx, env, Ty::Var(env.type_offset.wrapping_add(at)), at, associated, span),
                        None => resolve_plain_name(cx, env, name, span),
                    }
                }
            },
        }
    }
}

/// Resolve each type.
pub fn resolve_types(cx: &Ctx, env: &TyEnv, st: Decl, items: &Chain<TypeExpr>) -> (r: (Decl, Result<Chain<Ty>, Stop>))
    ensures
        r == model::resolve::resolve_types(cx, env, st, items),
        kept_decl(st, r.0),
    decreases items, 0int,
{
    match items {
        Chain::Nil => (st, Ok(Chain::Nil)),
        Chain::Cons(head, tail) => {
            let (st, out) = resolve_type(cx, env, st, head);
            let first = match out {
                Ok(found) => found,
                Err(stop) => {
                    return (st, Err(stop));
                },
            };
            let (st, out) = resolve_types(cx, env, st, tail);
            let rest = match out {
                Ok(found) => found,
                Err(stop) => {
                    return (st, Err(stop));
                },
            };
            (st, Ok(cons(first, rest)))
        },
    }
}

/// Resolve the only argument of a built-in generic type.
pub fn resolve_one(
    cx: &Ctx,
    env: &TyEnv,
    st: Decl,
    name: &Text,
    args: &Chain<TypeExpr>,
    span: Span,
) -> (r: (Decl, Result<Ty, Stop>))
    ensures
        r == model::resolve::resolve_one(cx, env, st, name, args, span),
        kept_decl(st, r.0),
    decreases args, 1int,
{
    match args {
        Chain::Cons(first, rest) => {
            if rest.is_empty() {
                resolve_type(cx, env, st, first)
            } else {
                (st, Err(named(Problem::TypeArgumentCount { expected: 1, found: count(args) }, name, span)))
            }
        },
        Chain::Nil => (st, Err(named(Problem::TypeArgumentCount { expected: 1, found: 0 }, name, span))),
    }
}

/// Resolve the two arguments of a built-in generic type. The first
/// argument of a map is its key.
pub fn resolve_two(
    cx: &Ctx,
    env: &TyEnv,
    st: Decl,
    name: &Text,
    args: &Chain<TypeExpr>,
    is_map: bool,
    span: Span,
) -> (r: (Decl, Result<Ty, Stop>))
    ensures
        r == model::resolve::resolve_two(cx, env, st, name, args, is_map, span),
        kept_decl(st, r.0),
    decreases args, 1int,
{
    match args {
        Chain::Cons(first, rest) => {
            match &**rest {
                Chain::Cons(second, more) => {
                    if !more.is_empty() {
                        (st, Err(named(Problem::TypeArgumentCount { expected: 2, found: count(args) }, name, span)))
                    } else if is_map {
                        let (st, out) = resolve_type(cx, env, st, first);
                        let key = match out {
                            Ok(found) => found,
                            Err(stop) => {
                                return (st, Err(stop));
                            },
                        };
                        let (st, out) = check_key_type(cx, env, st, &key, first.span);
                        let _checked = match out {
                            Ok(found) => found,
                            Err(stop) => {
                                return (st, Err(stop));
                            },
                        };
                        let (st, out) = resolve_type(cx, env, st, second);
                        let value = match out {
                            Ok(found) => found,
                            Err(stop) => {
                                return (st, Err(stop));
                            },
                        };
                        (st, Ok(Ty::MapOf(Box::new(key), Box::new(value))))
                    } else {
                        let (st, out) = resolve_type(cx, env, st, first);
                        let mailbox = match out {
                            Ok(found) => found,
                            Err(stop) => {
                                return (st, Err(stop));
                            },
                        };
                        let (st, out) = resolve_type(cx, env, st, second);
                        let result = match out {
                            Ok(found) => found,
                            Err(stop) => {
                                return (st, Err(stop));
                            },
                        };
                        (st, Ok(Ty::Handle(Box::new(mailbox), Box::new(result))))
                    }
                },
                Chain::Nil => (st, Err(named(Problem::TypeArgumentCount { expected: 2, found: 1 }, name, span))),
            }
        },
        Chain::Nil => (st, Err(named(Problem::TypeArgumentCount { expected: 2, found: 0 }, name, span))),
    }
}

/// Resolve a class with type arguments.
pub fn resolve_class_apply(
    cx: &Ctx,
    env: &TyEnv,
    st: Decl,
    name: &Text,
    args: &Chain<TypeExpr>,
    span: Span,
) -> (r: (Decl, Result<Ty, Stop>))
    ensures
        r == model::resolve::resolve_class_apply(cx, env, st, name, args, span),
        kept_decl(st, r.0),
    decreases args, 1int,
{
    match lookup_type(cx, name, env) {
        Some(class) => {
            let arity = meta_at(cx, class).type_params;
            if arity == 0 {
                (st, Err(named(Problem::TakesNoTypeArguments, name, span)))
            } else if count(args) != arity {
                (st, Err(named(Problem::TypeArgumentCount { expected: arity, found: count(args) }, name, span)))
            } else {
                let (st, out) = resolve_types(cx, env, st, args);
                let resolved = match out {
                    Ok(found) => found,
                    Err(stop) => {
                        return (st, Err(stop));
                    },
                };
                (st, Ok(type_for_nominal(cx, class, resolved)))
            }
        },
        None => {
            if lookup_interface(cx, name, env).is_some() {
                (st, Err(named(Problem::InterfaceAsType, name, span)))
            } else {
                (st, Err(named(Problem::UnknownType, name, span)))
            }
        },
    }
}

/// Resolve a generic type with its written arguments.
pub fn resolve_apply(
    cx: &Ctx,
    env: &TyEnv,
    st: Decl,
    name: &Text,
    args: &Chain<TypeExpr>,
    span: Span,
) -> (r: (Decl, Result<Ty, Stop>))
    ensures
        r == model::resolve::resolve_apply(cx, env, st, name, args, span),
        kept_decl(st, r.0),
    decreases args, 2int,
{
    if is_text(&*name, "Vm") {
        return (st, Err(unnamed(Problem::VmTakesNoTypeArguments, span)));
    }
    if is_text(&*name, "Run") {
        let (st, out) = resolve_one(cx, env, st, name, args, span);
        let result = match out {
            Ok(found) => found,
            Err(stop) => {
                return (st, Err(stop));
            },
        };
        (st, Ok(Ty::Run(Box::new(result))))
    } else if is_text(&*name, "Wait") {
        let (st, out) = resolve_one(cx, env, st, name, args, span);
        let result = match out {
            Ok(found) => found,
            Err(stop) => {
                return (st, Err(stop));
            },
        };
        (st, Ok(Ty::Wait(Box::new(result))))
    } else if is_text(&*name, "RunSnapshot") {
        let (st, out) = resolve_one(cx, env, st, name, args, span);
        let result = match out {
            Ok(found) => found,
            Err(stop) => {
                return (st, Err(stop));
            },
        };
        (st, Ok(Ty::RunSnapshot(Box::new(result))))
    } else if is_text(&*name, "List") {
        let (st, out) = resolve_one(cx, env, st, name, args, span);
        let element = match out {
            Ok(found) => found,
            Err(stop) => {
                return (st, Err(stop));
            },
        };
        (st, Ok(Ty::ListOf(Box::new(element))))
    } else if is_text(&*name, "Handle") {
        resolve_two(cx, env, st, name, args, false, span)
    } else if is_text(&*name, "Map") {
        resolve_two(cx, env, st, name, args, true, span)
    } else {
        resolve_class_apply(cx, env, st, name, args, span)
    }
}

/// Resolve one written type in a scope.
pub fn resolve_type(cx: &Ctx, env: &TyEnv, st: Decl, ty: &TypeExpr) -> (r: (Decl, Result<Ty, Stop>))
    ensures
        r == model::resolve::resolve_type(cx, env, st, ty),
        kept_decl(st, r.0),
    decreases ty, 0int,
{
    match &ty.kind {
        TypeExprKind::Unit => (st, Ok(Ty::Unit)),
        TypeExprKind::Name(name) => {
            let found = match resolve_name(cx, env, name, ty.span) {
                Ok(found) => found,
                Err(stop) => {
                    return (st, Err(stop));
                },
            };
            (st, Ok(found))
        },
        TypeExprKind::Apply(name, args) => resolve_apply(cx, env, st, name, args, ty.span),
        TypeExprKind::ListShort(element) => {
            let (st, out) = resolve_type(cx, env, st, element);
            let item = match out {
                Ok(found) => found,
                Err(stop) => {
                    return (st, Err(stop));
                },
            };
            (st, Ok(Ty::ListOf(Box::new(item))))
        },
        TypeExprKind::MapShort(key, value) => {
            let (st, out) = resolve_type(cx, env, st, key);
            let key_ty = match out {
                Ok(found) => found,
                Err(stop) => {
                    return (st, Err(stop));
                },
            };
            let (st, out) = check_key_type(cx, env, st, &key_ty, key.span);
            let _checked = match out {
                Ok(found) => found,
                Err(stop) => {
                    return (st, Err(stop));
                },
            };
            let (st, out) = resolve_type(cx, env, st, value);
            let value_ty = match out {
                Ok(found) => found,
                Err(stop) => {
                    return (st, Err(stop));
                },
            };
            (st, Ok(Ty::MapOf(Box::new(key_ty), Box::new(value_ty))))
        },
        TypeExprKind::Tuple(elements) => {
            let (st, out) = resolve_types(cx, env, st, elements);
            let items = match out {
                Ok(found) => found,
                Err(stop) => {
                    return (st, Err(stop));
                },
            };
            (st, Ok(Ty::Tuple(items)))
        },
        TypeExprKind::Fn(params, muts, ret, row) => {
            let (st, out) = resolve_types(cx, env, st, params);
            let param_tys = match out {
                Ok(found) => found,
                Err(stop) => {
                    return (st, Err(stop));
                },
            };
            let (st, out) = resolve_type(cx, env, st, ret);
            let ret_ty = match out {
                Ok(found) => found,
                Err(stop) => {
                    return (st, Err(stop));
                },
            };
            let effects = match resolve_row(cx, env, row) {
                Ok(found) => found,
                Err(stop) => {
                    return (st, Err(stop));
                },
            };
            (st, Ok(Ty::Fn(param_tys, copy_chain(&*muts), Box::new(ret_ty), effects)))
        },
    }
}

/// Resolve an optional result type; a missing one is the unit type.
pub fn resolve_ret(cx: &Ctx, env: &TyEnv, st: Decl, ret: &Option<TypeExpr>) -> (r: (Decl, Result<Ty, Stop>))
    ensures
        r == model::resolve::resolve_ret(cx, env, st, ret),
        kept_decl(st, r.0),
{
    match ret {
        None => (st, Ok(Ty::Unit)),
        Some(ty) => resolve_type(cx, env, st, ty),
    }
}

/// The number of type parameters among generic kinds.
pub fn count_types(kinds: &Chain<bool>) -> (r: u32)
    ensures
        r == model::resolve::count_types(kinds),
    decreases kinds,
{
    match kinds {
        Chain::Nil => 0u32,
        Chain::Cons(head, tail) => {
            if **head {
                count_types(tail)
            } else {
                count_types(tail).wrapping_add(1)
            }
        },
    }
}

/// The number of effect parameters among generic kinds.
pub fn count_effects(kinds: &Chain<bool>) -> (r: u32)
    ensures
        r == model::resolve::count_effects(kinds),
    decreases kinds,
{
    match kinds {
        Chain::Nil => 0u32,
        Chain::Cons(head, tail) => {
            if **head {
                count_effects(tail).wrapping_add(1)
            } else {
                count_effects(tail)
            }
        },
    }
}

/// Empty rows of the given number.
pub fn empty_rows(total: u32) -> (r: Chain<Row>)
    ensures
        r == model::resolve::empty_rows(total),
    decreases total,
{
    if total == 0 {
        Chain::Nil
    } else {
        cons(Chain::Nil, empty_rows((total - 1) as u32))
    }
}

/// Resolve each effect argument.
pub fn resolve_row_args(cx: &Ctx, env: &TyEnv, items: &Chain<RowArg>) -> (r: Result<Chain<Row>, Stop>)
    ensures
        r == model::resolve::resolve_row_args(cx, env, items),
    decreases items,
{
    match items {
        Chain::Nil => Ok(Chain::Nil),
        Chain::Cons(head, tail) => {
            let first = match resolve_row(cx, env, &head.row) {
                Ok(found) => found,
                Err(stop) => {
                    return Err(stop);
                },
            };
            let rest = match resolve_row_args(cx, env, tail) {
                Ok(found) => found,
                Err(stop) => {
                    return Err(stop);
                },
            };
            Ok(cons(first, rest))
        },
    }
}

/// Resolve one interface application in a type environment.
pub fn resolve_interface_use(cx: &Ctx, env: &TyEnv, st: Decl, reference: &InterfaceRef) -> (r: (Decl, Result<InterfaceUse, Stop>))
    ensures
        r == model::resolve::resolve_interface_use(cx, env, st, reference),
        kept_decl(st, r.0),
{
    let interface = match lookup_interface(cx, &reference.name, env) {
        Some(found) => found,
        None => {
            return (st, Err(named(Problem::UnknownInterface, &reference.name, reference.span)));
        },
    };
    let kinds = &interface_at(cx, interface).generic_is_effect;
    let type_count = count_types(kinds);
    let effect_count = count_effects(kinds);
    if type_count != count(&reference.type_args) {
        return (st, Err(named(Problem::InterfaceTypeCount { expected: type_count, found: count(&reference.type_args) }, &reference.name, reference.span)));
    }
    if !reference.row_args.is_empty() && effect_count != count(&reference.row_args) {
        return (st, Err(named(Problem::InterfaceEffectCount { expected: effect_count, found: count(&reference.row_args) }, &reference.name, reference.span)));
    }
    let (st, out) = resolve_types(cx, env, st, &reference.type_args);
    let type_args = match out {
        Ok(found) => found,
        Err(stop) => {
            return (st, Err(stop));
        },
    };
    if reference.row_args.is_empty() {
        (st, Ok(InterfaceUse { interface: interface, type_args: type_args, row_args: empty_rows(effect_count) }))
    } else {
        let row_args = match resolve_row_args(cx, env, &reference.row_args) {
            Ok(found) => found,
            Err(stop) => {
                return (st, Err(stop));
            },
        };
        (st, Ok(InterfaceUse { interface: interface, type_args: type_args, row_args: row_args }))
    }
}

/// Resolve bounds behind the resolved ones.
pub fn resolve_bounds_after(
    cx: &Ctx,
    env: &TyEnv,
    st: Decl,
    references: &Chain<InterfaceRef>,
    bounds: Chain<InterfaceUse>,
) -> (r: (Decl, Result<Chain<InterfaceUse>, Stop>))
    ensures
        r == model::resolve::resolve_bounds_after(cx, env, st, references, bounds),
        kept_decl(st, r.0),
    decreases references,
{
    match references {
        Chain::Nil => (st, Ok(bounds)),
        Chain::Cons(head, tail) => {
            let (st, out) = resolve_interface_use(cx, env, st, head);
            let application = match out {
                Ok(found) => found,
                Err(stop) => {
                    return (st, Err(stop));
                },
            };
            if find_bound(&bounds, application.interface).is_some() {
                (st, Err(named(Problem::DuplicateBound, &head.name, head.span)))
            } else {
                resolve_bounds_after(cx, env, st, tail, append(bounds, application))
            }
        },
    }
}

/// Resolve one conjunction of interface bounds.
pub fn resolve_interface_bounds(cx: &Ctx, env: &TyEnv, st: Decl, references: &Chain<InterfaceRef>) -> (r: (Decl, Result<Chain<InterfaceUse>, Stop>))
    ensures
        r == model::resolve::resolve_interface_bounds(cx, env, st, references),
        kept_decl(st, r.0),
{
    resolve_bounds_after(cx, env, st, references, Chain::Nil)
}

/// Add the parents of an application.
pub fn expand_parents(
    cx: &Ctx,
    base: &Ty,
    parents: &Chain<InterfaceUse>,
    types: &Chain<Ty>,
    rows: &Chain<Row>,
    span: Span,
    visiting: &Chain<u32>,
    depth: u32,
    bounds: Chain<InterfaceUse>,
) -> (r: Result<Chain<InterfaceUse>, Stop>)
    ensures
        r == model::resolve::expand_parents(cx, base, parents, types, rows, span, visiting, depth, bounds),
    decreases 128 - depth, 1int, parents,
{
    match parents {
        Chain::Nil => Ok(bounds),
        Chain::Cons(head, tail) => {
            let parent = substitute_interface_use(head, types, rows);
            let expanded = match expand_interface_application(cx, base, parent, span, visiting, depth, bounds) {
                Ok(found) => found,
                Err(stop) => {
                    return Err(stop);
                },
            };
            expand_parents(cx, base, tail, types, rows, span, visiting, depth, expanded)
        },
    }
}

/// Add one interface and all parent interfaces to one bound set.
/// `visiting` holds the interfaces on the way down, `depth` their number.
pub fn expand_interface_application(
    cx: &Ctx,
    base: &Ty,
    application: InterfaceUse,
    span: Span,
    visiting: &Chain<u32>,
    depth: u32,
    bounds: Chain<InterfaceUse>,
) -> (r: Result<Chain<InterfaceUse>, Stop>)
    ensures
        r == model::resolve::expand_interface_application(cx, base, application, span, visiting, depth, bounds),
    decreases 128 - depth, 0int, Chain::<u32>::Nil,
{
    if depth >= 128 {
        return Err(unnamed(Problem::InheritanceDepth, span));
    }
    if holds_id(visiting, application.interface) {
        return Err(unnamed(Problem::InheritanceCycle, span));
    }
    match find_bound(&bounds, application.interface) {
        Some(existing) => {
            if same_interface_use(&*existing, &application) {
                Ok(bounds)
            } else {
                Err(unnamed(Problem::InheritanceConflict { interface: application.interface }, span))
            }
        },
        None => {
            let parents = &interface_at(cx, application.interface).parents;
            if parents.is_empty() {
                Ok(append(bounds, application))
            } else {
                let types = cons((*base).clone(), clone_tys(&application.type_args));
                let rows = clone_rows(&application.row_args);
                let below = cons(application.interface, copy_chain(&*visiting));
                expand_parents(cx, base, parents, &types, &rows, span, &below, (depth + 1) as u32, append(bounds, application))
            }
        },
    }
}

/// Whether an application of a list has parents.
pub fn any_parents(cx: &Ctx, items: &Chain<InterfaceUse>) -> (r: bool)
    ensures
        r == model::resolve::any_parents(cx, items),
    decreases items,
{
    match items {
        Chain::Nil => false,
        Chain::Cons(head, tail) => !interface_at(cx, head.interface).parents.is_empty() || any_parents(cx, tail),
    }
}

/// Expand each application.
pub fn expand_each(
    cx: &Ctx,
    base: &Ty,
    direct: Chain<InterfaceUse>,
    span: Span,
    bounds: Chain<InterfaceUse>,
) -> (r: Result<Chain<InterfaceUse>, Stop>)
    ensures
        r == model::resolve::expand_each(cx, base, direct, span, bounds),
    decreases direct,
{
    match direct {
        Chain::Nil => Ok(bounds),
        Chain::Cons(head, tail) => {
            let expanded = match expand_interface_application(cx, base, *head, span, &Chain::Nil, 0u32, bounds) {
                Ok(found) => found,
                Err(stop) => {
                    return Err(stop);
                },
            };
            expand_each(cx, base, *tail, span, expanded)
        },
    }
}

/// Expand direct bounds with their transitive parent interfaces.
pub fn expand_interface_bounds(cx: &Ctx, base: &Ty, direct: Chain<InterfaceUse>, span: Span) -> (r: Result<Chain<InterfaceUse>, Stop>)
    ensures
        r == model::resolve::expand_interface_bounds(cx, base, direct, span),
{
    if any_parents(cx, &direct) {
        expand_each(cx, base, direct, span, Chain::Nil)
    } else {
        Ok(direct)
    }
}

/// The bounds of generic parameters from a position on.
pub fn generic_bounds_from(
    cx: &Ctx,
    env: &TyEnv,
    st: Decl,
    generics: &Chain<GenericParam>,
    at: u32,
) -> (r: (Decl, Result<Chain<Chain<InterfaceUse>>, Stop>))
    ensures
        r == model::resolve::generic_bounds_from(cx, env, st, generics, at),
        kept_decl(st, r.0),
    decreases generics,
{
    match generics {
        Chain::Nil => (st, Ok(Chain::Nil)),
        Chain::Cons(head, tail) => {
            if head.is_effect {
                generic_bounds_from(cx, env, st, tail, at)
            } else {
                let (st, out) = resolve_interface_bounds(cx, env, st, &head.bounds);
                let direct = match out {
                    Ok(found) => found,
                    Err(stop) => {
                        return (st, Err(stop));
                    },
                };
                let expanded = match expand_interface_bounds(cx, &Ty::Var(at), direct, head.span) {
                    Ok(found) => found,
                    Err(stop) => {
                        return (st, Err(stop));
                    },
                };
                let (st, out) = generic_bounds_from(cx, env, st, tail, at.wrapping_add(1));
                let rest = match out {
                    Ok(found) => found,
                    Err(stop) => {
                        return (st, Err(stop));
                    },
                };
                (st, Ok(cons(expanded, rest)))
            }
        },
    }
}

/// Resolve bounds for type parameters in declaration order.
pub fn resolve_generic_bounds(cx: &Ctx, env: &TyEnv, st: Decl, generics: &Chain<GenericParam>) -> (r: (Decl, Result<Chain<Chain<InterfaceUse>>, Stop>))
    ensures
        r == model::resolve::resolve_generic_bounds(cx, env, st, generics),
        kept_decl(st, r.0),
{
    generic_bounds_from(cx, env, st, generics, env.type_offset)
}

/// Split generic parameters into type names and effect names.
pub fn split_generics(generics: &Chain<GenericParam>) -> (r: Generics)
    ensures
        r == model::resolve::split_generics(generics),
    decreases generics,
{
    match generics {
        Chain::Nil => Generics { types: Chain::Nil, effects: Chain::Nil },
        Chain::Cons(head, tail) => {
            let rest = split_generics(tail);
            if head.is_effect {
                Generics { types: rest.types, effects: cons(copy_chain(&head.name), rest.effects) }
            } else {
                Generics { types: cons(copy_chain(&head.name), rest.types), effects: rest.effects }
            }
        },
    }
}

/// Resolve one parameter and apply its escape rule.
pub fn resolve_param_type(cx: &Ctx, env: &TyEnv, st: Decl, param: &Param) -> (r: (Decl, Result<Ty, Stop>))
    ensures
        r == model::resolve::resolve_param_type(cx, env, st, param),
        kept_decl(st, r.0),
{
    let (st, out) = resolve_type(cx, env, st, &param.ty);
    let ty = match out {
        Ok(found) => found,
        Err(stop) => {
            return (st, Err(stop));
        },
    };
    match ty {
        Ty::Fn(params, muts, ret, row) => {
            if param.escaping {
                (st, Ok(Ty::Fn(params, muts, ret, row)))
            } else {
                (st, Ok(Ty::Callback(params, muts, ret, row)))
            }
        },
        other => {
            if param.escaping {
                (st, Err(unnamed(Problem::EscapingNotFunction, param.ty.span)))
            } else {
                (st, Ok(other))
            }
        },
    }
}

/// Resolve parameters behind the resolved ones.
pub fn resolve_params_after(
    cx: &Ctx,
    env: &TyEnv,
    st: Decl,
    params: &Chain<Param>,
    seen: Chain<Text>,
) -> (r: (Decl, Result<Params, Stop>))
    ensures
        r == model::resolve::resolve_params_after(cx, env, st, params, seen),
        kept_decl(st, r.0),
    decreases params,
{
    match params {
        Chain::Nil => (st, Ok(Params { types: Chain::Nil, muts: Chain::Nil, names: Chain::Nil })),
        Chain::Cons(head, tail) => {
            if holds_name(&seen, &head.name) {
                (st, Err(named(Problem::DuplicateParameter, &head.name, head.span)))
            } else {
                let (st, out) = resolve_param_type(cx, env, st, head);
                let ty = match out {
                    Ok(found) => found,
                    Err(stop) => {
                        return (st, Err(stop));
                    },
                };
                let (st, out) = resolve_params_after(cx, env, st, tail, cons(copy_chain(&head.name), seen));
                let rest = match out {
                    Ok(found) => found,
                    Err(stop) => {
                        return (st, Err(stop));
                    },
                };
                (st, Ok(Params { types: cons(ty, rest.types), muts: cons(head.mutable, rest.muts), names: cons(copy_chain(&head.name), rest.names) }))
            }
        },
    }
}

/// Resolve the parameters of a callable; names are distinct.
pub fn resolve_parameters(cx: &Ctx, env: &TyEnv, st: Decl, params: &Chain<Param>) -> (r: (Decl, Result<Params, Stop>))
    ensures
        r == model::resolve::resolve_parameters(cx, env, st, params),
        kept_decl(st, r.0),
{
    resolve_params_after(cx, env, st, params, Chain::Nil)
}

/// Resolve the signature of a function.
pub fn resolve_sig(
    cx: &Ctx,
    env: &TyEnv,
    st: Decl,
    params: &Chain<Param>,
    ret: &Option<TypeExpr>,
    row: &Chain<RowItem>,
) -> (r: (Decl, Result<FnSig, Stop>))
    ensures
        r == model::resolve::resolve_sig(cx, env, st, params, ret, row),
        kept_decl(st, r.0),
{
    let (st, out) = resolve_parameters(cx, env, st, params);
    let resolved = match out {
        Ok(found) => found,
        Err(stop) => {
            return (st, Err(stop));
        },
    };
    let (st, out) = resolve_ret(cx, env, st, ret);
    let ret_ty = match out {
        Ok(found) => found,
        Err(stop) => {
            return (st, Err(stop));
        },
    };
    let effects = match resolve_row(cx, env, row) {
        Ok(found) => found,
        Err(stop) => {
            return (st, Err(stop));
        },
    };
    (st, Ok(FnSig {
        type_params: clone_texts(&env.type_names),
        type_bounds: clone_interface_use_lists(&env.type_bounds),
        effect_params: clone_texts(&env.effect_names),
        params: resolved.types,
        param_muts: resolved.muts,
        param_names: resolved.names,
        ret: ret_ty,
        row: effects,
    }))
}

} // verus!
