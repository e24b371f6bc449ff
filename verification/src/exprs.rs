//! Bidirectional expression checking.

use vstd::prelude::*;
use crate::answers::{compatible, is_heap, join};
use crate::ast::{BinOp, Expr, ExprKind, InterpPart, MapEntry, Param, RowItem, Span, Stmt, TypeExpr, joined};
use crate::blocks::{check_block, check_loop};
use crate::branches::{check_case, check_if, check_propagate, check_select};
use crate::calls::{call_named, check_args_simple, check_declared_method, check_interface_method, check_key_now, check_poly_call, construct_arm, is_captured_callback, method_signature, operator_hook, resolve_now, synth_call_value, try_ctor_name, unsolved};
use crate::chain::{Chain, copy_chain};
use crate::classes::source_span;
use crate::conform::{bound_method, default_method, find_method_owner, lookup_method};
use crate::context::{ClassKind, Ctx, Nominal, Params, TyEnv, UseBinding, clone_interface_use_lists};
use crate::control::{check_control_method, check_fault_denied, check_native_method, check_spawn, check_sys_call, no_control_method};
use crate::hir::{HEntry, HExpr, HKind, HPart, HirFunc, NativeOp};
use crate::infer::{callable_parts, deep_widen, family_or_self, is_inference_gap, map_key_parameter, tuple_comparable};
use crate::lists::{concat, cons, count, find_id, holds_name, nth, one, same_len, two};
use crate::lookup::{class_at, class_extends, class_of, core_class, find_field, lookup_type, meta_at, sig_at};
use crate::names::dotted;
use crate::problem::{Diag, Problem, Stop};
use crate::resolve::{named, resolve_row, unnamed};
use crate::scope::{charge_row, enum_qualifier, expect_compatible, generated_name, hexpr, is_name, lookup_slot, mismatch, module_func, name_expr, push_func, resolve_value, self_value, synth_self, sys_group_of, sys_in_scope, use_binding};
use crate::state::{BlockMode, BranchType, CaptureRec, Checker, CtorCtx, CtorState, Joined, LocalVar, MapKeyUse, NameRes, Output, RetKind, ScopeEntry, Signature, Tried};
use crate::subst::{contains_callback, substitute, substitute_all};
use crate::system::{check_sys_value, digest_expr, expected_arm, find_operator_hook, freeze_expr, hook_name, is_control_type, operator_text, primitive_operator, qualified_arm};
use crate::text::{Text, is_text, text};
use crate::types::{Row, Ty, clone_tys, same_ty, same_tys};
use crate::uses::sys_group_name;
use crate::model::heights::{h_entries, h_expr, h_exprs, h_parts, h_stmts, lemma_one};
use crate::model::fits::{all_fit, each_fits, fits_as};
use crate::model::sound::{Room, callee_covered, declares_row, entries_ok, expr_ok, exprs_ok, has_init, operator_name, parts_ok, ready, room, scopes_ok, step, tried_ok, widens, lemma_closure_widens, lemma_finished_ok, lemma_lookup_row};
use crate::model::keeps::kept;
use crate::model;

verus! {

broadcast use {crate::model::keeps::group_kept, crate::model::sound::group_sound};

/// A literal.
pub fn literal(ty: Ty, kind: HKind) -> (r: HExpr)
    ensures
        r == model::exprs::literal(ty, kind),
{
    hexpr(ty, true, kind)
}

/// Check a bare name that is no local: a constructor, a `sys` member, a
/// module function, or a problem that says what the name is.
pub fn synth_global(cx: &Ctx, st: Checker, name: &Text, span: Span) -> (r: (Checker, Result<HExpr, Stop>))
    ensures
        r == model::exprs::synth_global(cx, st, name, span),
        kept(st, r.0),
        step(cx, st, r.0, true, (r.1 matches Ok(found) ==> expr_ok(room(cx, r.0), found))),
{
    if is_text(&*name, "sys") {
        return (st, Err(unnamed(Problem::SysNotValue, span)));
    }
    let (st, out) = use_binding(cx, st, name);
    let binding = match out {
        Ok(found) => found,
        Err(stop) => {
            return (st, Err(stop));
        },
    };
    match binding {
        Some(UseBinding::SysMember { group, member }) => {
            let value = match check_sys_value(cx, &group, &member, span) {
                Ok(found) => found,
                Err(stop) => {
                    return (st, Err(stop));
                },
            };
            (st, Ok(value))
        },
        Some(UseBinding::SysGroup(_)) => (st, Err(named(Problem::GroupNotValue, name, span))),
        Some(UseBinding::ModulePath(_)) => (st, Err(named(Problem::ModuleNotValue, name, span))),
        None => {
            match module_func(cx, &st.env, name) {
                Some(func) => {
                    let value = match function_value(cx, func, name, span) {
                        Ok(found) => found,
                        Err(stop) => {
                            return (st, Err(stop));
                        },
                    };
                    (st, Ok(value))
                },
                None => {
                    let problem = not_a_value(cx, &st.env, name);
                    (st, Err(named(problem, name, span)))
                },
            }
        },
    }
}

/// A module function as a value. A generic one needs a direct call.
pub fn function_value(cx: &Ctx, func: u32, name: &Text, span: Span) -> (r: Result<HExpr, Stop>)
    ensures
        r == model::exprs::function_value(cx, func, name, span),
{
    let sig = sig_at(cx, func);
    if !sig.type_params.is_empty() || !sig.effect_params.is_empty() {
        Err(named(Problem::NeedsDirectCall, name, span))
    } else {
        let ty = Ty::Fn(clone_tys(&sig.params), copy_chain(&sig.param_muts), Box::new(sig.ret.clone()), copy_chain(&sig.row));
        Ok(hexpr(ty, true, HKind::MakeClosure { func: func, captures: Chain::Nil }))
    }
}

/// Why a name is not a value.
pub fn not_a_value(cx: &Ctx, env: &TyEnv, name: &Text) -> (r: Problem)
    ensures
        r == model::exprs::not_a_value(cx, env, name),
{
    match lookup_type(cx, name, env) {
        None => Problem::NotInScope,
        Some(class) => {
            if class_at(cx, class).kind == ClassKind::EnumParent {
                Problem::EnumNotValue
            } else {
                Problem::ClassNotValue
            }
        },
    }
}

/// Check a bare name.
pub fn synth_name(cx: &Ctx, st: Checker, name: &Text, span: Span) -> (r: (Checker, Result<HExpr, Stop>))
    ensures
        r == model::exprs::synth_name(cx, st, name, span),
        kept(st, r.0),
        step(cx, st, r.0, true, (r.1 matches Ok(found) ==> expr_ok(room(cx, r.0), found))),
    decreases h_exprs(&Chain::<Expr>::Nil), 6int, Chain::<u32>::Nil,
{
    let (st, out) = resolve_value(st, name);
    let local = match out {
        Ok(found) => found,
        Err(stop) => {
            return (st, Err(stop));
        },
    };
    match local {
        Some(found) => {
            if is_captured_callback(&found) {
                (st, Err(unnamed(Problem::CallbackCaptured, span)))
            } else {
                (st, Ok(name_expr(found)))
            }
        },
        None => {
            let (st, out) = try_ctor_name(cx, st, name, None, span);
            let ctor = match out {
                Ok(found) => found,
                Err(stop) => {
                    return (st, Err(stop));
                },
            };
            match ctor {
                Some(value) => (st, Ok(value)),
                None => synth_global(cx, st, name, span),
            }
        },
    }
}

/// The types of checked expressions.
pub fn types_of(items: &Chain<HExpr>) -> (r: Chain<Ty>)
    ensures
        r == model::exprs::types_of(items),
    decreases items,
{
    match items {
        Chain::Nil => Chain::Nil,
        Chain::Cons(head, tail) => cons(head.ty.clone(), types_of(tail)),
    }
}

/// Check each expression without an expected type.
pub fn synth_each(cx: &Ctx, st: Checker, items: &Chain<Expr>) -> (r: (Checker, Result<Chain<HExpr>, Stop>))
    ensures
        r == model::exprs::synth_each(cx, st, items),
        kept(st, r.0),
        step(cx, st, r.0, true, (r.1 matches Ok(found) ==> exprs_ok(room(cx, r.0), found))),
    decreases h_exprs(items), 0int, Chain::<u32>::Nil,
{
    match items {
        Chain::Nil => (st, Ok(Chain::Nil)),
        Chain::Cons(head, tail) => {
            let (st, out) = synth_expr(cx, st, head);
            let first = match out {
                Ok(found) => found,
                Err(stop) => {
                    return (st, Err(stop));
                },
            };
            let (st, out) = synth_each(cx, st, tail);
            let rest = match out {
                Ok(found) => found,
                Err(stop) => {
                    return (st, Err(stop));
                },
            };
            (st, Ok(cons(first, rest)))
        },
    }
}

/// Check each expression against one type.
pub fn check_each_as(cx: &Ctx, st: Checker, items: &Chain<Expr>, ty: &Ty) -> (r: (Checker, Result<Chain<HExpr>, Stop>))
    ensures
        r == model::exprs::check_each_as(cx, st, items, ty),
        kept(st, r.0),
        step(cx, st, r.0, true, (r.1 matches Ok(found) ==> exprs_ok(room(cx, r.0), found))),
        r.1 matches Ok(items) ==> all_fit(cx, *ty, items),
    decreases h_exprs(items), 0int, Chain::<u32>::Nil,
{
    match items {
        Chain::Nil => (st, Ok(Chain::Nil)),
        Chain::Cons(head, tail) => {
            let (st, out) = check_expr(cx, st, head, ty);
            let first = match out {
                Ok(found) => found,
                Err(stop) => {
                    return (st, Err(stop));
                },
            };
            let (st, out) = check_each_as(cx, st, tail, ty);
            let rest = match out {
                Ok(found) => found,
                Err(stop) => {
                    return (st, Err(stop));
                },
            };
            (st, Ok(cons(first, rest)))
        },
    }
}

/// Check each expression against the type at its position.
pub fn check_pairwise(cx: &Ctx, st: Checker, items: &Chain<Expr>, tys: &Chain<Ty>) -> (r: (Checker, Result<Chain<HExpr>, Stop>))
    ensures
        r == model::exprs::check_pairwise(cx, st, items, tys),
        kept(st, r.0),
        step(cx, st, r.0, true, (r.1 matches Ok(found) ==> exprs_ok(room(cx, r.0), found))),
        r.1 matches Ok(items) ==> each_fits(cx, *tys, items),
    decreases h_exprs(items), 0int, Chain::<u32>::Nil,
{
    match (items, tys) {
        (Chain::Cons(head, tail), Chain::Cons(ty, rest)) => {
            let (st, out) = check_expr(cx, st, head, ty);
            let first = match out {
                Ok(found) => found,
                Err(stop) => {
                    return (st, Err(stop));
                },
            };
            let (st, out) = check_pairwise(cx, st, tail, rest);
            let more = match out {
                Ok(found) => found,
                Err(stop) => {
                    return (st, Err(stop));
                },
            };
            (st, Ok(cons(first, more)))
        },
        _ => (st, Ok(Chain::Nil)),
    }
}

/// Synthesize each element alone. An element whose type arguments a
/// sibling must decide stays open; the first such problem is kept.
pub fn try_each(cx: &Ctx, st: Checker, items: &Chain<Expr>) -> (r: (Checker, Result<Tried<HExpr>, Stop>))
    ensures
        r == model::exprs::try_each(cx, st, items),
        kept(st, r.0),
        step(cx, st, r.0, true, (r.1 matches Ok(found) ==> tried_ok(room(cx, r.0), found.found))),
    decreases h_exprs(items), 0int, Chain::<u32>::Nil,
{
    match items {
        Chain::Nil => (st, Ok(Tried { found: Chain::Nil, gap: None })),
        Chain::Cons(head, tail) => {
            match synth_expr(cx, st, head) {
                (st, Ok(value)) => {
                    let (st, out) = try_each(cx, st, tail);
                    let rest = match out {
                        Ok(found) => found,
                        Err(stop) => {
                            return (st, Err(stop));
                        },
                    };
                    (st, Ok(Tried { found: cons(Some(value), rest.found), gap: rest.gap }))
                },
                (st, Err(Stop::Fail(diag))) => {
                    if is_inference_gap(&diag) {
                        let (st, out) = try_each(cx, st, tail);
                        let rest = match out {
                            Ok(found) => found,
                            Err(stop) => {
                                return (st, Err(stop));
                            },
                        };
                        (st, Ok(Tried { found: cons(None, rest.found), gap: Some(diag) }))
                    } else {
                        (st, Err(Stop::Fail(diag)))
                    }
                },
                (st, Err(stop)) => (st, Err(stop)),
            }
        },
    }
}

/// The types and places of the elements that resolved alone.
pub fn element_types(found: &Chain<Option<HExpr>>, items: &Chain<Expr>) -> (r: Chain<BranchType>)
    ensures
        r == model::exprs::element_types(found, items),
    decreases items,
{
    match (found, items) {
        (Chain::Cons(value, found_rest), Chain::Cons(item, items_rest)) => {
            let rest = element_types(found_rest, items_rest);
            match &**value {
                Some(resolved) => cons(BranchType { ty: resolved.ty.clone(), mutable: resolved.mutable, span: item.span }, rest),
                None => rest,
            }
        },
        _ => Chain::Nil,
    }
}

/// The elements that resolved.
pub fn resolved_items(found: Chain<Option<HExpr>>) -> (r: Chain<HExpr>)
    ensures
        r == model::exprs::resolved_items(found),
    decreases found,
{
    match found {
        Chain::Nil => Chain::Nil,
        Chain::Cons(head, tail) => {
            match *head {
                Some(value) => cons(value, resolved_items(*tail)),
                None => resolved_items(*tail),
            }
        },
    }
}

/// Join types in order.
pub fn join_in_order(cx: &Ctx, joined: Option<Ty>, items: &Chain<BranchType>) -> (r: Result<Option<Ty>, Stop>)
    ensures
        r == model::exprs::join_in_order(cx, joined, items),
    decreases items,
{
    match items {
        Chain::Nil => Ok(joined),
        Chain::Cons(head, tail) => {
            match joined {
                None => join_in_order(cx, Some(head.ty.clone()), tail),
                Some(previous) => {
                    let both = match join(cx, &previous, &head.ty) {
                        Ok(found) => found,
                        Err(stop) => {
                            return Err(stop);
                        },
                    };
                    match both {
                        Some(ty) => join_in_order(cx, Some(ty), tail),
                        None => Err(mismatch(&previous, &head.ty, head.span)),
                    }
                },
            }
        },
    }
}

/// Join the types of expressions with a hint.
pub fn join_hinted(cx: &Ctx, joined: Option<Ty>, items: &Chain<HExpr>, hint: &Ty) -> (r: Result<Ty, Stop>)
    ensures
        r == model::exprs::join_hinted(cx, joined, items, hint),
    decreases items,
{
    match items {
        Chain::Nil => {
            match joined {
                Some(ty) => Ok(ty),
                None => Ok((*hint).clone()),
            }
        },
        Chain::Cons(head, tail) => {
            match joined {
                None => join_hinted(cx, Some(head.ty.clone()), tail, hint),
                Some(previous) => {
                    let both = match join(cx, &previous, &head.ty) {
                        Ok(found) => found,
                        Err(stop) => {
                            return Err(stop);
                        },
                    };
                    match both {
                        Some(ty) => join_hinted(cx, Some(ty), tail, hint),
                        None => join_hinted(cx, Some((*hint).clone()), tail, hint),
                    }
                },
            }
        },
    }
}

/// The join of the widened types.
pub fn widened_hint(cx: &Ctx, hint: Option<Ty>, items: &Chain<BranchType>) -> (r: Result<Option<Ty>, Stop>)
    ensures
        r == model::exprs::widened_hint(cx, hint, items),
    decreases items,
{
    match items {
        Chain::Nil => Ok(hint),
        Chain::Cons(head, tail) => {
            let wide = deep_widen(cx, &head.ty);
            match hint {
                None => widened_hint(cx, Some(wide), tail),
                Some(previous) => {
                    let both = match join(cx, &previous, &wide) {
                        Ok(found) => found,
                        Err(stop) => {
                            return Err(stop);
                        },
                    };
                    match both {
                        Some(ty) => widened_hint(cx, Some(ty), tail),
                        None => Err(mismatch(&previous, &wide, head.span)),
                    }
                },
            }
        },
    }
}

/// Check the elements of one collection position and join their types.
///
/// An element whose constructor cannot resolve its type arguments alone,
/// for example a bare `None`, adopts the family-widened join of the
/// elements that synthesize. Without such a sibling, the original
/// problem stands.
pub fn synth_join_elems(cx: &Ctx, st: Checker, items: &Chain<Expr>) -> (r: (Checker, Result<Joined, Stop>))
    ensures
        r == model::exprs::synth_join_elems(cx, st, items),
        kept(st, r.0),
        step(cx, st, r.0, true, (r.1 matches Ok(found) ==> exprs_ok(room(cx, r.0), found.items))),
    decreases h_exprs(items), 1int, Chain::<u32>::Nil,
{
    let (st, out) = try_each(cx, st, items);
    let tried = match out {
        Ok(found) => found,
        Err(stop) => {
            return (st, Err(stop));
        },
    };
    let types = element_types(&tried.found, items);
    match tried.gap {
        None => {
            let joined = match join_in_order(cx, None, &types) {
                Ok(found) => found,
                Err(stop) => {
                    return (st, Err(stop));
                },
            };
            match joined {
                Some(ty) => (st, Ok(Joined { items: resolved_items(tried.found), ty: ty })),
                None => (st, Ok(Joined { items: Chain::Nil, ty: Ty::Never })),
            }
        },
        Some(gap) => {
            let hint = match widened_hint(cx, None, &types) {
                Ok(found) => found,
                Err(stop) => {
                    return (st, Err(stop));
                },
            };
            match hint {
                None => (st, Err(Stop::Fail(gap))),
                Some(ty) => {
                    let (st, out) = check_each_as(cx, st, items, &ty);
                    let checked = match out {
                        Ok(found) => found,
                        Err(stop) => {
                            return (st, Err(stop));
                        },
                    };
                    let joined = match join_hinted(cx, None, &checked, &ty) {
                        Ok(found) => found,
                        Err(stop) => {
                            return (st, Err(stop));
                        },
                    };
                    (st, Ok(Joined { items: checked, ty: joined }))
                },
            }
        },
    }
}

/// Check the keys of a map literal and join their types.
pub fn synth_keys(cx: &Ctx, st: Checker, entries: &Chain<MapEntry>, joined: Option<Ty>) -> (r: (Checker, Result<Joined, Stop>))
    ensures
        r == model::exprs::synth_keys(cx, st, entries, joined),
        kept(st, r.0),
        step(cx, st, r.0, true, (r.1 matches Ok(found) ==> exprs_ok(room(cx, r.0), found.items))),
    decreases h_entries(entries), 0int, Chain::<u32>::Nil,
{
    match entries {
        Chain::Nil => {
            match joined {
                Some(ty) => (st, Ok(Joined { items: Chain::Nil, ty: ty })),
                None => (st, Ok(Joined { items: Chain::Nil, ty: Ty::Never })),
            }
        },
        Chain::Cons(head, tail) => {
            let (st, out) = synth_expr(cx, st, &head.key);
            let key = match out {
                Ok(found) => found,
                Err(stop) => {
                    return (st, Err(stop));
                },
            };
            let _hashable = match check_key_now(cx, &st.env, &key.ty, head.key.span) {
                Ok(found) => found,
                Err(stop) => {
                    return (st, Err(stop));
                },
            };
            let next = match join_key(cx, joined, &key.ty, head.key.span) {
                Ok(found) => found,
                Err(stop) => {
                    return (st, Err(stop));
                },
            };
            let (st, out) = synth_keys(cx, st, tail, Some(next));
            let rest = match out {
                Ok(found) => found,
                Err(stop) => {
                    return (st, Err(stop));
                },
            };
            (st, Ok(Joined { items: cons(key, rest.items), ty: rest.ty }))
        },
    }
}

/// Join one more key type.
pub fn join_key(cx: &Ctx, joined: Option<Ty>, key: &Ty, span: Span) -> (r: Result<Ty, Stop>)
    ensures
        r == model::exprs::join_key(cx, joined, key, span),
{
    match joined {
        None => Ok((*key).clone()),
        Some(previous) => {
            let both = match join(cx, &previous, key) {
                Ok(found) => found,
                Err(stop) => {
                    return Err(stop);
                },
            };
            match both {
                Some(ty) => Ok(ty),
                None => Err(mismatch(&previous, key, span)),
            }
        },
    }
}

/// Synthesize each value of a map literal alone.
pub fn try_values(cx: &Ctx, st: Checker, entries: &Chain<MapEntry>) -> (r: (Checker, Result<Tried<HExpr>, Stop>))
    ensures
        r == model::exprs::try_values(cx, st, entries),
        kept(st, r.0),
        step(cx, st, r.0, true, (r.1 matches Ok(found) ==> tried_ok(room(cx, r.0), found.found))),
    decreases h_entries(entries), 0int, Chain::<u32>::Nil,
{
    match entries {
        Chain::Nil => (st, Ok(Tried { found: Chain::Nil, gap: None })),
        Chain::Cons(head, tail) => {
            match synth_expr(cx, st, &head.value) {
                (st, Ok(value)) => {
                    let (st, out) = try_values(cx, st, tail);
                    let rest = match out {
                        Ok(found) => found,
                        Err(stop) => {
                            return (st, Err(stop));
                        },
                    };
                    (st, Ok(Tried { found: cons(Some(value), rest.found), gap: rest.gap }))
                },
                (st, Err(Stop::Fail(diag))) => {
                    if is_inference_gap(&diag) {
                        let (st, out) = try_values(cx, st, tail);
                        let rest = match out {
                            Ok(found) => found,
                            Err(stop) => {
                                return (st, Err(stop));
                            },
                        };
                        (st, Ok(Tried { found: cons(None, rest.found), gap: Some(diag) }))
                    } else {
                        (st, Err(Stop::Fail(diag)))
                    }
                },
                (st, Err(stop)) => (st, Err(stop)),
            }
        },
    }
}

/// Check each map value against one type.
pub fn check_values_as(cx: &Ctx, st: Checker, entries: &Chain<MapEntry>, ty: &Ty) -> (r: (Checker, Result<Chain<HExpr>, Stop>))
    ensures
        r == model::exprs::check_values_as(cx, st, entries, ty),
        kept(st, r.0),
        step(cx, st, r.0, true, (r.1 matches Ok(found) ==> exprs_ok(room(cx, r.0), found))),
    decreases h_entries(entries), 0int, Chain::<u32>::Nil,
{
    match entries {
        Chain::Nil => (st, Ok(Chain::Nil)),
        Chain::Cons(head, tail) => {
            let (st, out) = check_expr(cx, st, &head.value, ty);
            let first = match out {
                Ok(found) => found,
                Err(stop) => {
                    return (st, Err(stop));
                },
            };
            let (st, out) = check_values_as(cx, st, tail, ty);
            let rest = match out {
                Ok(found) => found,
                Err(stop) => {
                    return (st, Err(stop));
                },
            };
            (st, Ok(cons(first, rest)))
        },
    }
}

/// The types of the resolved map values.
pub fn value_types(found: &Chain<Option<HExpr>>, entries: &Chain<MapEntry>) -> (r: Chain<BranchType>)
    ensures
        r == model::exprs::value_types(found, entries),
    decreases entries,
{
    match (found, entries) {
        (Chain::Cons(value, found_rest), Chain::Cons(entry, entries_rest)) => {
            let rest = value_types(found_rest, entries_rest);
            match &**value {
                Some(resolved) => cons(BranchType { ty: resolved.ty.clone(), mutable: resolved.mutable, span: entry.value.span }, rest),
                None => rest,
            }
        },
        _ => Chain::Nil,
    }
}

/// Check the values of a map literal and join their types, by the rule
/// for the elements of a list.
pub fn synth_join_values(cx: &Ctx, st: Checker, entries: &Chain<MapEntry>) -> (r: (Checker, Result<Joined, Stop>))
    ensures
        r == model::exprs::synth_join_values(cx, st, entries),
        kept(st, r.0),
        step(cx, st, r.0, true, (r.1 matches Ok(found) ==> exprs_ok(room(cx, r.0), found.items))),
    decreases h_entries(entries), 1int, Chain::<u32>::Nil,
{
    let (st, out) = try_values(cx, st, entries);
    let tried = match out {
        Ok(found) => found,
        Err(stop) => {
            return (st, Err(stop));
        },
    };
    let types = value_types(&tried.found, entries);
    match tried.gap {
        None => {
            let joined = match join_in_order(cx, None, &types) {
                Ok(found) => found,
                Err(stop) => {
                    return (st, Err(stop));
                },
            };
            match joined {
                Some(ty) => (st, Ok(Joined { items: resolved_items(tried.found), ty: ty })),
                None => (st, Ok(Joined { items: Chain::Nil, ty: Ty::Never })),
            }
        },
        Some(gap) => {
            let hint = match widened_hint(cx, None, &types) {
                Ok(found) => found,
                Err(stop) => {
                    return (st, Err(stop));
                },
            };
            match hint {
                None => (st, Err(Stop::Fail(gap))),
                Some(ty) => {
                    let (st, out) = check_values_as(cx, st, entries, &ty);
                    let checked = match out {
                        Ok(found) => found,
                        Err(stop) => {
                            return (st, Err(stop));
                        },
                    };
                    let joined = match join_hinted(cx, None, &checked, &ty) {
                        Ok(found) => found,
                        Err(stop) => {
                            return (st, Err(stop));
                        },
                    };
                    (st, Ok(Joined { items: checked, ty: joined }))
                },
            }
        },
    }
}

/// The entries of keys and values, position by position.
pub fn pair_entries(keys: Chain<HExpr>, values: Chain<HExpr>) -> (r: Chain<HEntry>)
    ensures
        r == model::exprs::pair_entries(keys, values),
    decreases keys,
{
    match (keys, values) {
        (Chain::Cons(key, keys_rest), Chain::Cons(value, values_rest)) => cons(HEntry { key: *key, value: *value }, pair_entries(*keys_rest, *values_rest)),
        _ => Chain::Nil,
    }
}

/// Check a map literal without an expected type.
pub fn synth_map(cx: &Ctx, st: Checker, entries: &Chain<MapEntry>, span: Span) -> (r: (Checker, Result<HExpr, Stop>))
    ensures
        r == model::exprs::synth_map(cx, st, entries, span),
        kept(st, r.0),
        step(cx, st, r.0, true, (r.1 matches Ok(found) ==> expr_ok(room(cx, r.0), found))),
    decreases h_entries(entries), 2int, Chain::<u32>::Nil,
{
    if entries.is_empty() {
        return (st, Err(unnamed(Problem::EmptyMap, span)));
    }
    let (st, out) = synth_keys(cx, st, entries, None);
    let keys = match out {
        Ok(found) => found,
        Err(stop) => {
            return (st, Err(stop));
        },
    };
    let (st, out) = synth_join_values(cx, st, entries);
    let values = match out {
        Ok(found) => found,
        Err(stop) => {
            return (st, Err(stop));
        },
    };
    let ty = Ty::MapOf(Box::new(keys.ty), Box::new(values.ty));
    if contains_callback(&ty) {
        (st, Err(unnamed(Problem::CallbackInMap, span)))
    } else {
        (st, Ok(hexpr(ty, true, HKind::MapLit(pair_entries(keys.items, values.items)))))
    }
}

/// Check each map entry against the key and value types.
pub fn check_entries(
    cx: &Ctx,
    st: Checker,
    entries: &Chain<MapEntry>,
    key: &Ty,
    value: &Ty,
) -> (r: (Checker, Result<Chain<HEntry>, Stop>))
    ensures
        r == model::exprs::check_entries(cx, st, entries, key, value),
        kept(st, r.0),
        step(cx, st, r.0, true, (r.1 matches Ok(found) ==> entries_ok(room(cx, r.0), found))),
    decreases h_entries(entries), 0int, Chain::<u32>::Nil,
{
    match entries {
        Chain::Nil => (st, Ok(Chain::Nil)),
        Chain::Cons(head, tail) => {
            let (st, out) = check_expr(cx, st, &head.key, key);
            let key_h = match out {
                Ok(found) => found,
                Err(stop) => {
                    return (st, Err(stop));
                },
            };
            let (st, out) = check_expr(cx, st, &head.value, value);
            let value_h = match out {
                Ok(found) => found,
                Err(stop) => {
                    return (st, Err(stop));
                },
            };
            let (st, out) = check_entries(cx, st, tail, key, value);
            let rest = match out {
                Ok(found) => found,
                Err(stop) => {
                    return (st, Err(stop));
                },
            };
            (st, Ok(cons(HEntry { key: key_h, value: value_h }, rest)))
        },
    }
}

/// Whether a value can stand inside a string: an integer, a truth value,
/// or any text.
pub fn interpolable(cx: &Ctx, ty: &Ty, span: Span) -> (r: Result<bool, Stop>)
    ensures
        r == model::exprs::interpolable(cx, ty, span),
{
    match ty {
        Ty::Int => Ok(true),
        Ty::Bool => Ok(true),
        Ty::Str => Ok(true),
        _ => {
            let general = match core_class(cx, "Text", span) {
                Ok(found) => found,
                Err(stop) => {
                    return Err(stop);
                },
            };
            compatible(cx, &general, ty)
        },
    }
}

/// Check the parts of an interpolated string.
pub fn synth_interp(cx: &Ctx, st: Checker, parts: &Chain<InterpPart>) -> (r: (Checker, Result<Chain<HPart>, Stop>))
    ensures
        r == model::exprs::synth_interp(cx, st, parts),
        kept(st, r.0),
        step(cx, st, r.0, true, (r.1 matches Ok(found) ==> parts_ok(room(cx, r.0), found))),
    decreases h_parts(parts), 0int, Chain::<u32>::Nil,
{
    match parts {
        Chain::Nil => (st, Ok(Chain::Nil)),
        Chain::Cons(head, tail) => {
            match &**head {
                InterpPart::Lit(lit) => {
                    let (st, out) = synth_interp(cx, st, tail);
                    let rest = match out {
                        Ok(found) => found,
                        Err(stop) => {
                            return (st, Err(stop));
                        },
                    };
                    (st, Ok(cons(HPart::Lit(copy_chain(&*lit)), rest)))
                },
                InterpPart::Value(expr) => {
                    let (st, out) = synth_expr(cx, st, expr);
                    let value = match out {
                        Ok(found) => found,
                        Err(stop) => {
                            return (st, Err(stop));
                        },
                    };
                    let fits = match interpolable(cx, &value.ty, expr.span) {
                        Ok(found) => found,
                        Err(stop) => {
                            return (st, Err(stop));
                        },
                    };
                    if !fits {
                        (st, Err(unnamed(Problem::NotInterpolable { ty: value.ty }, expr.span)))
                    } else {
                        let (st, out) = synth_interp(cx, st, tail);
                        let rest = match out {
                            Ok(found) => found,
                            Err(stop) => {
                                return (st, Err(stop));
                            },
                        };
                        (st, Ok(cons(HPart::Value(value), rest)))
                    }
                },
            }
        },
    }
}

/// Check one arithmetic or ordering operator. The class of the left
/// operand answers through its hook; plain texts and bytes join, and
/// integers compute.
pub fn synth_arith(cx: &Ctx, st: Checker, op: BinOp, left: &Expr, right: &Expr) -> (r: (Checker, Result<HExpr, Stop>))
    ensures
        r == model::exprs::synth_arith(cx, st, op, left, right),
        kept(st, r.0),
        step(cx, st, r.0, true, (r.1 matches Ok(found) ==> expr_ok(room(cx, r.0), found))),
    decreases h_expr(left) + h_expr(right) + 1, 8int, Chain::<u32>::Nil,
{
    let (st, out) = synth_expr(cx, st, left);
    let l = match out {
        Ok(found) => found,
        Err(stop) => {
            return (st, Err(stop));
        },
    };
    match find_operator_hook(cx, &l.ty, hook_name(op)) {
        Some(hook) => {
            proof {
                lemma_one(*right);
            }
            operator_hook(cx, st, l, hook, hook_name(op), &one((*right).clone()), left.span)
        },
        None => {
            if op == BinOp::Add && same_ty(&l.ty, &Ty::Str) {
                let (st, out) = check_expr(cx, st, right, &Ty::Str);
                let r = match out {
                    Ok(found) => found,
                    Err(stop) => {
                        return (st, Err(stop));
                    },
                };
                let value = match primitive_operator(cx, "String", "__add__", two(l, r), left.span) {
                    Ok(found) => found,
                    Err(stop) => {
                        return (st, Err(stop));
                    },
                };
                (st, Ok(value))
            } else if op == BinOp::Add && same_ty(&l.ty, &Ty::Bytes) {
                let (st, out) = check_expr(cx, st, right, &Ty::Bytes);
                let r = match out {
                    Ok(found) => found,
                    Err(stop) => {
                        return (st, Err(stop));
                    },
                };
                let value = match primitive_operator(cx, "Bytes", "__add__", two(l, r), left.span) {
                    Ok(found) => found,
                    Err(stop) => {
                        return (st, Err(stop));
                    },
                };
                (st, Ok(value))
            } else {
                let l = match expect_compatible(cx, &Ty::Int, l, left.span) {
                    Ok(found) => found,
                    Err(stop) => {
                        return (st, Err(stop));
                    },
                };
                let (st, out) = check_expr(cx, st, right, &Ty::Int);
                let r = match out {
                    Ok(found) => found,
                    Err(stop) => {
                        return (st, Err(stop));
                    },
                };
                let value = match primitive_operator(cx, "Int", hook_name(op), two(l, r), left.span) {
                    Ok(found) => found,
                    Err(stop) => {
                        return (st, Err(stop));
                    },
                };
                (st, Ok(value))
            }
        },
    }
}

/// The primitive class whose equality compares a type.
pub fn primitive_equality(ty: &Ty) -> (r: Option<&'static str>)
    ensures
        r == model::exprs::primitive_equality(ty),
{
    match ty {
        Ty::Int => Some("Int"),
        Ty::Bool => Some("Bool"),
        Ty::Str => Some("String"),
        Ty::Bytes => Some("Bytes"),
        _ => None,
    }
}

/// Whether two types are compatible one way or the other.
pub fn related(cx: &Ctx, left: &Ty, right: &Ty) -> (r: Result<bool, Stop>)
    ensures
        r == model::exprs::related(cx, left, right),
{
    let forward = match compatible(cx, left, right) {
        Ok(found) => found,
        Err(stop) => {
            return Err(stop);
        },
    };
    if forward {
        Ok(true)
    } else {
        compatible(cx, right, left)
    }
}

/// Whether values of a type compare by `==` without a hook.
pub fn comparable(cx: &Ctx, ty: &Ty) -> (r: Result<bool, Stop>)
    ensures
        r == model::exprs::comparable(cx, ty),
{
    match ty {
        Ty::Int => Ok(true),
        Ty::Bool => Ok(true),
        Ty::Str => Ok(true),
        _ => is_heap(cx, ty),
    }
}

/// Check an equality of two checked operands.
pub fn equality(
    cx: &Ctx,
    op: BinOp,
    left: HExpr,
    right: HExpr,
    left_span: Span,
    right_span: Span,
) -> (r: Result<HExpr, Stop>)
    ensures
        r == model::exprs::equality(cx, op, left, right, left_span, right_span),
        forall|st: Checker| #![trigger room(cx, st)] expr_ok(room(cx, st), left) && expr_ok(room(cx, st), right) ==> (r matches Ok(found) ==> expr_ok(room(cx, st), found)),
{
    let fits = match related(cx, &left.ty, &right.ty) {
        Ok(found) => found,
        Err(stop) => {
            return Err(stop);
        },
    };
    if !fits {
        return Err(mismatch(&left.ty, &right.ty, right_span));
    }
    let operand = if same_ty(&left.ty, &Ty::Never) { right.ty.clone() } else { left.ty.clone() };
    match &operand {
        Ty::Tuple(_) => tuple_equality(cx, op, left, right, operand, left_span),
        _ => {
            let compares = match comparable(cx, &operand) {
                Ok(found) => found,
                Err(stop) => {
                    return Err(stop);
                },
            };
            if !compares {
                Err(Stop::Fail(Diag { problem: Problem::NotComparable { operand: operand }, subject: operator_text(op), span: left_span }))
            } else {
                match primitive_equality(&operand) {
                    Some(class) => primitive_operator(cx, class, hook_name(op), two(left, right), left_span),
                    None => Ok(hexpr(Ty::Bool, true, HKind::Binary { op: op, operand_ty: operand, left: left, right: right })),
                }
            }
        },
    }
}

/// Check an equality of tuples: it is structural and needs equal static
/// types.
pub fn tuple_equality(
    cx: &Ctx,
    op: BinOp,
    left: HExpr,
    right: HExpr,
    operand: Ty,
    span: Span,
) -> (r: Result<HExpr, Stop>)
    ensures
        r == model::exprs::tuple_equality(cx, op, left, right, operand, span),
        forall|st: Checker| #![trigger room(cx, st)] expr_ok(room(cx, st), left) && expr_ok(room(cx, st), right) ==> (r matches Ok(found) ==> expr_ok(room(cx, st), found)),
{
    if !same_ty(&left.ty, &right.ty) && !same_ty(&left.ty, &Ty::Never) && !same_ty(&right.ty, &Ty::Never) {
        return Err(unnamed(Problem::TupleSidesDiffer { left: left.ty, right: right.ty }, span));
    }
    let compares = match tuple_comparable(cx, &operand) {
        Ok(found) => found,
        Err(stop) => {
            return Err(stop);
        },
    };
    if !compares {
        Err(Stop::Fail(Diag { problem: Problem::TupleNotComparable { operand: operand }, subject: operator_text(op), span: span }))
    } else {
        Ok(hexpr(Ty::Bool, true, HKind::Binary { op: op, operand_ty: operand, left: left, right: right }))
    }
}

/// Check one binary operator.
pub fn synth_binary(cx: &Ctx, st: Checker, op: BinOp, left: &Expr, right: &Expr) -> (r: (Checker, Result<HExpr, Stop>))
    ensures
        r == model::exprs::synth_binary(cx, st, op, left, right),
        kept(st, r.0),
        step(cx, st, r.0, true, (r.1 matches Ok(found) ==> expr_ok(room(cx, r.0), found))),
    decreases h_expr(left) + h_expr(right) + 1, 9int, Chain::<u32>::Nil,
{
    if op != BinOp::Eq && op != BinOp::Ne {
        return synth_arith(cx, st, op, left, right);
    }
    let (st, out) = synth_expr(cx, st, left);
    let l = match out {
        Ok(found) => found,
        Err(stop) => {
            return (st, Err(stop));
        },
    };
    match find_operator_hook(cx, &l.ty, hook_name(op)) {
        Some(hook) => {
            proof {
                lemma_one(*right);
            }
            operator_hook(cx, st, l, hook, hook_name(op), &one((*right).clone()), left.span)
        },
        None => {
            let (st, out) = synth_expr(cx, st, right);
            let r = match out {
                Ok(found) => found,
                Err(stop) => {
                    return (st, Err(stop));
                },
            };
            let value = match equality(cx, op, l, r, left.span, right.span) {
                Ok(found) => found,
                Err(stop) => {
                    return (st, Err(stop));
                },
            };
            (st, Ok(value))
        },
    }
}

/// Check a negation or an inversion: the hook of the class, or the
/// integer operation.
pub fn synth_unary(cx: &Ctx, st: Checker, hook: &str, inner: &Expr, span: Span) -> (r: (Checker, Result<HExpr, Stop>))
    ensures
        r == model::exprs::synth_unary(cx, st, hook, inner, span),
        kept(st, r.0),
        step(cx, st, r.0, operator_name(hook), (r.1 matches Ok(found) ==> expr_ok(room(cx, r.0), found))),
    decreases h_expr(inner), 9int, Chain::<u32>::Nil,
{
    let (st, out) = synth_expr(cx, st, inner);
    let value = match out {
        Ok(found) => found,
        Err(stop) => {
            return (st, Err(stop));
        },
    };
    match find_operator_hook(cx, &value.ty, hook) {
        Some(found) => operator_hook(cx, st, value, found, hook, &Chain::Nil, span),
        None => {
            let value = match expect_compatible(cx, &Ty::Int, value, inner.span) {
                Ok(found) => found,
                Err(stop) => {
                    return (st, Err(stop));
                },
            };
            let result = match primitive_operator(cx, "Int", hook, one(value), span) {
                Ok(found) => found,
                Err(stop) => {
                    return (st, Err(stop));
                },
            };
            (st, Ok(result))
        },
    }
}

/// Check `value is Type` and `value as Type`: the target is related to
/// the value and has the same type arguments.
pub fn synth_is(
    cx: &Ctx,
    st: Checker,
    value: &Expr,
    ty: &TypeExpr,
    is_cast: bool,
    span: Span,
) -> (r: (Checker, Result<HExpr, Stop>))
    ensures
        r == model::exprs::synth_is(cx, st, value, ty, is_cast, span),
        kept(st, r.0),
        step(cx, st, r.0, true, (r.1 matches Ok(found) ==> expr_ok(room(cx, r.0), found))),
    decreases h_expr(value), 9int, Chain::<u32>::Nil,
{
    let what = if is_cast { text("as") } else { text("is") };
    let (st, out) = synth_expr(cx, st, value);
    let v = match out {
        Ok(found) => found,
        Err(stop) => {
            return (st, Err(stop));
        },
    };
    let from = match class_of(cx, &v.ty) {
        Some(found) => found,
        None => {
            return (st, Err(named(Problem::NotAnInstance { found: v.ty }, &what, value.span)));
        },
    };
    let target = match resolve_now(cx, &st.env, ty) {
        Ok(found) => found,
        Err(stop) => {
            return (st, Err(stop));
        },
    };
    let to = match class_of(cx, &target) {
        Some(found) => found,
        None => {
            return (st, Err(named(Problem::TargetNotClass { found: target }, &what, ty.span)));
        },
    };
    if !(class_extends(cx, to.class, from.class) || class_extends(cx, from.class, to.class)) || !same_tys(&from.args, &to.args) {
        (st, Err(named(Problem::NeverSucceeds { from: v.ty, to: target }, &what, span)))
    } else if is_cast {
        let mutable = v.mutable;
        (st, Ok(hexpr(target.clone(), mutable, HKind::CastType { value: v, ty: target })))
    } else {
        (st, Ok(hexpr(Ty::Bool, true, HKind::IsType { value: v, ty: target })))
    }
}

/// The element of a tuple at a literal index.
pub fn tuple_element(recv: HExpr, items: Chain<Ty>, index: &Expr) -> (r: Result<HExpr, Stop>)
    ensures
        r == model::exprs::tuple_element(recv, items, index),
{
    match &*index.kind {
        ExprKind::Int(position) => {
            if *position < 0 || *position > 0xffff_ffff {
                Err(unnamed(Problem::TupleIndexRange { len: count(&items) }, index.span))
            } else {
                match nth(&items, *position as u32) {
                    None => Err(unnamed(Problem::TupleIndexRange { len: count(&items) }, index.span)),
                    Some(ty) => {
                        let mutable = recv.mutable;
                        Ok(hexpr((*ty).clone(), mutable, HKind::TupleGet { tuple: recv, index: *position as u32 }))
                    },
                }
            }
        },
        _ => Err(unnamed(Problem::TupleIndexNotLiteral, index.span)),
    }
}

/// Check an index: a list by position, a map by key, a tuple by literal.
pub fn synth_index(cx: &Ctx, st: Checker, recv: &Expr, index: &Expr) -> (r: (Checker, Result<HExpr, Stop>))
    ensures
        r == model::exprs::synth_index(cx, st, recv, index),
        kept(st, r.0),
        step(cx, st, r.0, true, (r.1 matches Ok(found) ==> expr_ok(room(cx, r.0), found))),
    decreases h_expr(recv) + h_expr(index), 9int, Chain::<u32>::Nil,
{
    let (st, out) = synth_expr(cx, st, recv);
    let recv_h = match out {
        Ok(found) => found,
        Err(stop) => {
            return (st, Err(stop));
        },
    };
    match recv_h.ty.clone() {
        Ty::ListOf(item) => {
            let (st, out) = check_expr(cx, st, index, &Ty::Int);
            let at = match out {
                Ok(found) => found,
                Err(stop) => {
                    return (st, Err(stop));
                },
            };
            let mutable = recv_h.mutable;
            (st, Ok(hexpr(*item, mutable, HKind::Native { op: NativeOp::ListAt, args: two(recv_h, at) })))
        },
        Ty::MapOf(key, value) => {
            let param = match map_key_parameter(cx, &key, MapKeyUse::Lookup) {
                Ok(found) => found,
                Err(stop) => {
                    return (st, Err(stop));
                },
            };
            let (st, out) = check_expr(cx, st, index, &param.ty);
            let at = match out {
                Ok(found) => found,
                Err(stop) => {
                    return (st, Err(stop));
                },
            };
            let mutable = recv_h.mutable;
            (st, Ok(hexpr(*value, mutable, HKind::Native { op: NativeOp::MapAt, args: two(recv_h, at) })))
        },
        Ty::Tuple(items) => {
            let value = match tuple_element(recv_h, items, index) {
                Ok(found) => found,
                Err(stop) => {
                    return (st, Err(stop));
                },
            };
            (st, Ok(value))
        },
        found => (st, Err(unnamed(Problem::NotIndexable { ty: found }, recv.span))),
    }
}

/// Whether an expression is `self`.
pub fn is_self(expr: &Expr) -> (r: bool)
    ensures
        r == model::exprs::is_self(expr),
{
    match &*expr.kind {
        ExprKind::SelfRef => true,
        _ => false,
    }
}

/// The class whose initializer assigns a field through `self` here.
pub fn ctor_receiver(st: &Checker, recv: &Expr) -> (r: Option<u32>)
    ensures
        r == model::exprs::ctor_receiver(st, recv),
        r is Some ==> st.ctor is Some,
{
    match &st.ctor {
        Some(c) => {
            if is_self(recv) {
                Some(c.class)
            } else {
                None
            }
        },
        None => None,
    }
}

/// Whether an initializer has assigned one field.
pub fn field_inited(st: &Checker, field: u32) -> (r: bool)
    ensures
        r == model::exprs::field_inited(st, field),
{
    match &st.ctor {
        Some(c) => {
            match nth(&c.state.inited, field) {
                Some(set) => *set,
                None => false,
            }
        },
        None => true,
    }
}

/// The declared type of one field.
pub fn field_ty_at(cx: &Ctx, class: u32, field: u32) -> (r: Ty)
    ensures
        r == model::exprs::field_ty_at(cx, class, field),
{
    match nth(&class_at(cx, class).field_tys, field) {
        Some(ty) => (*ty).clone(),
        None => Ty::Never,
    }
}

/// The problem of a field that a class lacks.
pub fn unknown_field(class: u32, name: &Text, span: Span) -> (r: Stop)
    ensures
        r == model::exprs::unknown_field(class, name, span),
{
    named(Problem::UnknownField { class: class }, name, span)
}

/// Read a field of `self` inside an initializer: it has to be assigned.
pub fn ctor_field(cx: &Ctx, st: &Checker, class: u32, name: &Text, span: Span) -> (r: Result<HExpr, Stop>)
    ensures
        r == model::exprs::ctor_field(cx, st, class, name, span),
        ready(cx, *st) && st.ctor is Some ==> (r matches Ok(found) ==> expr_ok(room(cx, *st), found)),
{
    let field = match find_field(cx, class, name) {
        Some(found) => found,
        None => {
            return Err(unknown_field(class, name, span));
        },
    };
    if !field_inited(st, field) {
        return Err(named(Problem::FieldReadEarly, name, span));
    }
    let recv = self_value(st);
    let mutable = recv.mutable;
    Ok(hexpr(field_ty_at(cx, class, field), mutable, HKind::FieldGet { recv: recv, field: field }))
}

/// Check a read of one field of a value.
pub fn value_field(cx: &Ctx, recv: HExpr, name: &Text, recv_span: Span, name_span: Span) -> (r: Result<HExpr, Stop>)
    ensures
        r == model::exprs::value_field(cx, recv, name, recv_span, name_span),
        forall|room: Room| #![trigger expr_ok(room, recv)] expr_ok(room, recv) ==> (r matches Ok(found) ==> expr_ok(room, found)),
{
    let nominal = match class_of(cx, &recv.ty) {
        Some(found) => found,
        None => {
            return Err(unnamed(Problem::NoFields { ty: recv.ty }, recv_span));
        },
    };
    let field = match find_field(cx, nominal.class, name) {
        Some(found) => found,
        None => {
            return Err(unknown_field(nominal.class, name, name_span));
        },
    };
    let ty = substitute(&field_ty_at(cx, nominal.class, field), &nominal.args, &Chain::Nil);
    let mutable = recv.mutable;
    Ok(hexpr(ty, mutable, HKind::FieldGet { recv: recv, field: field }))
}

/// Whether a receiver is the bare name `sys` that no local hides.
pub fn is_sys_root(st: Checker, recv: &Expr) -> (r: (Checker, Result<bool, Stop>))
    ensures
        r == model::exprs::is_sys_root(st, recv),
        kept(st, r.0),
        forall|cx: &Ctx| #![trigger ready(cx, st)] #![trigger room(cx, st)] step(cx, st, r.0, true, true),
{
    if is_name(recv, "sys") {
        sys_in_scope(st)
    } else {
        (st, Ok(false))
    }
}

/// Check a field of a value, or of the object under initialization.
pub fn synth_own_field(cx: &Ctx, st: Checker, recv: &Expr, name: &Text, name_span: Span) -> (r: (Checker, Result<HExpr, Stop>))
    ensures
        r == model::exprs::synth_own_field(cx, st, recv, name, name_span),
        kept(st, r.0),
        step(cx, st, r.0, true, (r.1 matches Ok(found) ==> expr_ok(room(cx, r.0), found))),
    decreases h_expr(recv), 8int, Chain::<u32>::Nil,
{
    match ctor_receiver(&st, recv) {
        Some(class) => {
            let value = match ctor_field(cx, &st, class, name, name_span) {
                Ok(found) => found,
                Err(stop) => {
                    return (st, Err(stop));
                },
            };
            (st, Ok(value))
        },
        None => {
            let (st, out) = synth_expr(cx, st, recv);
            let recv_h = match out {
                Ok(found) => found,
                Err(stop) => {
                    return (st, Err(stop));
                },
            };
            let value = match value_field(cx, recv_h, name, recv.span, name_span) {
                Ok(found) => found,
                Err(stop) => {
                    return (st, Err(stop));
                },
            };
            (st, Ok(value))
        },
    }
}

/// Check a field: a qualified constructor, an operation value, or a
/// field of a value.
pub fn synth_field(
    cx: &Ctx,
    st: Checker,
    recv: &Expr,
    name: &Text,
    name_span: Span,
    expected: Option<&Ty>,
) -> (r: (Checker, Result<HExpr, Stop>))
    ensures
        r == model::exprs::synth_field(cx, st, recv, name, name_span, expected),
        kept(st, r.0),
        step(cx, st, r.0, true, (r.1 matches Ok(found) ==> expr_ok(room(cx, r.0), found))),
    decreases h_expr(recv), 9int, Chain::<u32>::Nil,
{
    match enum_qualifier(cx, &st, recv) {
        Some(family) => {
            let arm = match qualified_arm(cx, family, name, name_span) {
                Ok(found) => found,
                Err(stop) => {
                    return (st, Err(stop));
                },
            };
            construct_arm(cx, st, arm, &Chain::Nil, &Chain::Nil, expected, name_span)
        },
        None => {
            let (st, out) = sys_group_of(cx, st, recv);
            let group = match out {
                Ok(found) => found,
                Err(stop) => {
                    return (st, Err(stop));
                },
            };
            match group {
                Some(found) => {
                    let value = match check_sys_value(cx, &found, name, name_span) {
                        Ok(found) => found,
                        Err(stop) => {
                            return (st, Err(stop));
                        },
                    };
                    (st, Ok(value))
                },
                None => {
                    let (st, out) = is_sys_root(st, recv);
                    let root = match out {
                        Ok(found) => found,
                        Err(stop) => {
                            return (st, Err(stop));
                        },
                    };
                    if root {
                        if sys_group_name(&cx.bundle.groups, name).is_some() {
                            (st, Err(named(Problem::SysGroupNotValue, name, name_span)))
                        } else {
                            (st, Err(named(Problem::NoSysGroup, name, name_span)))
                        }
                    } else {
                        synth_own_field(cx, st, recv, name, name_span)
                    }
                },
            }
        },
    }
}

/// The class that a bare receiver names, for `Class.spawn`.
pub fn named_class(cx: &Ctx, env: &TyEnv, recv: &Expr) -> (r: Option<u32>)
    ensures
        r == model::exprs::named_class(cx, env, recv),
{
    match &*recv.kind {
        ExprKind::Name(name) => lookup_type(cx, name, env),
        _ => None,
    }
}

/// Whether a receiver is the type name `Fault`.
pub fn is_fault_type(cx: &Ctx, st: &Checker, recv: &Expr) -> (r: bool)
    ensures
        r == model::exprs::is_fault_type(cx, st, recv),
{
    match &*recv.kind {
        ExprKind::Name(name) => is_text(&*name, "Fault") && lookup_slot(st, name).is_none() && lookup_type(cx, name, &st.env).is_none(),
        _ => false,
    }
}

/// The qualified name of a member of a module that a `use` line binds.
pub fn module_member(cx: &Ctx, st: Checker, recv: &Expr, name: &Text) -> (r: (Checker, Result<Option<Text>, Stop>))
    ensures
        r == model::exprs::module_member(cx, st, recv, name),
        kept(st, r.0),
        step(cx, st, r.0, true, true),
{
    match &*recv.kind {
        ExprKind::Name(alias) => {
            let (st, out) = use_binding(cx, st, alias);
            let binding = match out {
                Ok(found) => found,
                Err(stop) => {
                    return (st, Err(stop));
                },
            };
            match binding {
                Some(UseBinding::ModulePath(_)) => (st, Ok(Some(dotted(alias, name)))),
                _ => (st, Ok(None)),
            }
        },
        _ => (st, Ok(None)),
    }
}

/// Check a method call: a qualified constructor, an operation call, a
/// spawn, a call into a module, a fault, or a method of a value.
pub fn synth_method_call(
    cx: &Ctx,
    st: Checker,
    recv: &Expr,
    name: &Text,
    name_span: Span,
    type_args: &Chain<TypeExpr>,
    args: &Chain<Expr>,
    expected: Option<&Ty>,
    span: Span,
) -> (r: (Checker, Result<HExpr, Stop>))
    ensures
        r == model::exprs::synth_method_call(cx, st, recv, name, name_span, type_args, args, expected, span),
        kept(st, r.0),
        step(cx, st, r.0, true, (r.1 matches Ok(found) ==> expr_ok(room(cx, r.0), found))),
    decreases h_expr(recv) + h_exprs(args), 10int, Chain::<u32>::Nil,
{
    match enum_qualifier(cx, &st, recv) {
        Some(family) => {
            let arm = match qualified_arm(cx, family, name, name_span) {
                Ok(found) => found,
                Err(stop) => {
                    return (st, Err(stop));
                },
            };
            construct_arm(cx, st, arm, type_args, args, expected, span)
        },
        None => {
            let (st, out) = sys_group_of(cx, st, recv);
            let group = match out {
                Ok(found) => found,
                Err(stop) => {
                    return (st, Err(stop));
                },
            };
            match group {
                Some(found) => check_sys_call(cx, st, &found, name, name_span, type_args, args, span),
                None => {
                    let spawned = if is_text(&*name, "spawn") { named_class(cx, &st.env, recv) } else { None };
                    match spawned {
                        Some(class) => {
                            if !type_args.is_empty() {
                                (st, Err(unnamed(Problem::SpawnTakesNoTypeArguments, name_span)))
                            } else {
                                check_spawn(cx, st, class, args, name_span, span)
                            }
                        },
                        None => synth_member_call(cx, st, recv, name, name_span, type_args, args, expected, span),
                    }
                },
            }
        },
    }
}

/// Check a call of a module member, or of a method of a value.
pub fn synth_member_call(
    cx: &Ctx,
    st: Checker,
    recv: &Expr,
    name: &Text,
    name_span: Span,
    type_args: &Chain<TypeExpr>,
    args: &Chain<Expr>,
    expected: Option<&Ty>,
    span: Span,
) -> (r: (Checker, Result<HExpr, Stop>))
    ensures
        r == model::exprs::synth_member_call(cx, st, recv, name, name_span, type_args, args, expected, span),
        kept(st, r.0),
        step(cx, st, r.0, true, (r.1 matches Ok(found) ==> expr_ok(room(cx, r.0), found))),
    decreases h_expr(recv) + h_exprs(args), 9int, Chain::<u32>::Nil,
{
    let (st, out) = module_member(cx, st, recv, name);
    let member = match out {
        Ok(found) => found,
        Err(stop) => {
            return (st, Err(stop));
        },
    };
    match member {
        Some(qualified) => {
            if find_id(&cx.func_index, &qualified).is_none() && lookup_type(cx, &qualified, &st.env).is_none() {
                (st, Err(named(Problem::NoExport, name, name_span)))
            } else {
                call_named(cx, st, &qualified, name_span, type_args, args, expected, span)
            }
        },
        None => {
            if is_fault_type(cx, &st, recv) {
                check_fault_denied(cx, st, name, name_span, type_args, args, span)
            } else {
                let (st, out) = synth_expr(cx, st, recv);
                let value = match out {
                    Ok(found) => found,
                    Err(stop) => {
                        return (st, Err(stop));
                    },
                };
                check_value_method(cx, st, value, name, name_span, type_args, args, expected, span)
            }
        },
    }
}

/// Check a method call on a checked receiver: control methods first,
/// then the methods of the class, its defaults, those of a bound, and
/// the native ones.
pub fn check_value_method(
    cx: &Ctx,
    st: Checker,
    recv: HExpr,
    name: &Text,
    name_span: Span,
    type_args: &Chain<TypeExpr>,
    args: &Chain<Expr>,
    expected: Option<&Ty>,
    span: Span,
) -> (r: (Checker, Result<HExpr, Stop>))
    ensures
        r == model::exprs::check_value_method(cx, st, recv, name, name_span, type_args, args, expected, span),
        kept(st, r.0),
        step(cx, st, r.0, expr_ok(room(cx, st), recv), (r.1 matches Ok(found) ==> expr_ok(room(cx, r.0), found))),
    decreases h_exprs(args), 9int, Chain::<u32>::Nil,
{
    if is_control_type(&recv.ty) {
        let ty = recv.ty.clone();
        let (st, out) = check_control_method(cx, st, recv, name, name_span, type_args, args, span);
        let out = match out {
            Ok(found) => found,
            Err(stop) => {
                return (st, Err(stop));
            },
        };
        match out {
            Some(value) => (st, Ok(value)),
            None => (st, Err(no_control_method(&ty, name, name_span))),
        }
    } else {
        match class_of(cx, &recv.ty) {
            Some(nominal) => check_class_method(cx, st, recv, nominal, name, name_span, type_args, args, expected, span),
            None => {
                let bound = match bound_method(cx, &st.env, &recv.ty, name, name_span) {
                    Ok(found) => found,
                    Err(stop) => {
                        return (st, Err(stop));
                    },
                };
                match bound {
                    Some(method) => check_interface_method(cx, st, recv, method, name, name_span, type_args, args, expected, span),
                    None => {
                        if !type_args.is_empty() {
                            (st, Err(unnamed(Problem::NativeTakesNoTypeArguments, name_span)))
                        } else {
                            check_native_method(cx, st, recv, name, name_span, args, span)
                        }
                    },
                }
            },
        }
    }
}

/// Check a method call on an instance of a class or enum.
pub fn check_class_method(
    cx: &Ctx,
    st: Checker,
    recv: HExpr,
    nominal: Nominal,
    name: &Text,
    name_span: Span,
    type_args: &Chain<TypeExpr>,
    args: &Chain<Expr>,
    expected: Option<&Ty>,
    span: Span,
) -> (r: (Checker, Result<HExpr, Stop>))
    ensures
        r == model::exprs::check_class_method(cx, st, recv, nominal, name, name_span, type_args, args, expected, span),
        kept(st, r.0),
        step(
            cx,
            st,
            r.0,
            expr_ok(room(cx, st), recv) && model::lookup::class_of(cx, &recv.ty) == Some(nominal),
            (r.1 matches Ok(found) ==> expr_ok(room(cx, r.0), found)),
        ),
    decreases h_exprs(args), 5int, Chain::<u32>::Nil,
{
    match find_method_owner(cx, nominal.class, name) {
        Some(found) => check_declared_method(cx, st, recv, nominal.class, &nominal.args, found, name, name_span, type_args, args, expected, span),
        None => {
            let default = match default_method(cx, &st.env, &recv.ty, name, name_span) {
                Ok(found) => found,
                Err(stop) => {
                    return (st, Err(stop));
                },
            };
            match default {
                Some(method) => check_interface_method(cx, st, recv, method, name, name_span, type_args, args, expected, span),
                None => {
                    if args.is_empty() && type_args.is_empty() && is_text(&*name, "freeze") {
                        (st, Ok(freeze_expr(recv)))
                    } else if args.is_empty() && type_args.is_empty() && is_text(&*name, "digest") {
                        (st, Ok(digest_expr(recv)))
                    } else {
                        (st, Err(named(Problem::NoMethod { class: nominal.class }, name, name_span)))
                    }
                },
            }
        },
    }
}

/// The markers of a list with the first ones set.
pub fn set_first(flags: Chain<bool>, total: u32) -> (r: Chain<bool>)
    ensures
        r == model::exprs::set_first(flags, total),
    decreases flags,
{
    match flags {
        Chain::Nil => Chain::Nil,
        Chain::Cons(head, tail) => {
            if total == 0 {
                Chain::Cons(head, tail)
            } else {
                cons(true, set_first(*tail, (total - 1) as u32))
            }
        },
    }
}

/// Record that the parent initializer has run: it assigns the inherited
/// fields.
pub fn super_done(st: Checker, inherited: u32) -> (r: Checker)
    ensures
        r == model::exprs::super_done(st, inherited),
        kept(st, r),
        forall|cx: &Ctx| #![trigger ready(cx, st)] #![trigger room(cx, st)] step(cx, st, r, true, true),
{
    proof {
        reveal(ready);
        reveal(room);
        reveal(widens);
    }
    match st.ctor {
        None => Checker { ctor: None, ..st },
        Some(c) => Checker { ctor: Some(CtorCtx { state: CtorState { inited: set_first(c.state.inited, inherited), super_done: true }, ..c }), ..st },
    }
}

/// Why `super.init` is not valid here.
pub fn super_init_problem(st: &Checker) -> (r: Option<Problem>)
    ensures
        r == model::exprs::super_init_problem(st),
{
    match &st.ctor {
        None => Some(Problem::SuperInitOutsideInit),
        Some(c) => {
            if !c.needs_super {
                Some(Problem::ParentHasNoInit)
            } else if c.state.super_done {
                Some(Problem::SuperInitTwice)
            } else {
                None
            }
        },
    }
}

/// Check a call of the parent initializer.
pub fn check_super_init(
    cx: &Ctx,
    st: Checker,
    parent: u32,
    parent_args: &Chain<Ty>,
    args: &Chain<Expr>,
    span: Span,
) -> (r: (Checker, Result<HExpr, Stop>))
    ensures
        r == model::exprs::check_super_init(cx, st, parent, parent_args, args, span),
        kept(st, r.0),
        step(cx, st, r.0, true, (r.1 matches Ok(found) ==> expr_ok(room(cx, r.0), found))),
    decreases h_exprs(args), 4int, Chain::<u32>::Nil,
{
    proof {
        reveal(callee_covered);
    }
    match super_init_problem(&st) {
        Some(problem) => (st, Err(unnamed(problem, span))),
        None => {
            match &class_at(cx, parent).init {
                None => (st, Err(unnamed(Problem::ParentHasNoInit, span))),
                Some(init) => {
                    let params = substitute_all(&init.params, parent_args, &Chain::Nil);
                    proof {
                        assert(has_init(cx, parent, init.func, init.row));
                    }
                    proof {
                        assert(declares_row(cx, init.func, init.row));
                    }
                    let (st, out) = charge_row(cx, st, &init.row, span);
                    let _charged = match out {
                        Ok(found) => found,
                        Err(stop) => {
                            return (st, Err(stop));
                        },
                    };
                    let (st, out) = check_args_simple(cx, st, args, &params, &init.param_muts, &init.param_names, &text("super.init"), span);
                    let checked = match out {
                        Ok(found) => found,
                        Err(stop) => {
                            return (st, Err(stop));
                        },
                    };
                    let st = super_done(st, count(&class_at(cx, parent).field_tys));
                    let recv = self_value(&st);
                    (st, Ok(hexpr(Ty::Unit, true, HKind::Call { func: init.func, targs: clone_tys(&*parent_args), rowargs: Chain::Nil, args: cons(recv, checked) })))
                },
            }
        },
    }
}

/// Check a call of one method of the superclass, read in the view of the
/// subclass.
pub fn check_super_method(
    cx: &Ctx,
    st: Checker,
    class: u32,
    parent: u32,
    parent_args: &Chain<Ty>,
    name: &Text,
    name_span: Span,
    args: &Chain<Expr>,
    span: Span,
) -> (r: (Checker, Result<HExpr, Stop>))
    ensures
        r == model::exprs::check_super_method(cx, st, class, parent, parent_args, name, name_span, args, span),
        kept(st, r.0),
        step(cx, st, r.0, true, (r.1 matches Ok(found) ==> expr_ok(room(cx, r.0), found))),
    decreases h_exprs(args), 4int, Chain::<u32>::Nil,
{
    proof {
        reveal(callee_covered);
    }
    let arity = count(&class_at(cx, class).type_params);
    proof {
        lemma_lookup_row(cx, parent, *parent_args, arity, *name);
    }
    let found = match lookup_method(cx, parent, clone_tys(&*parent_args), arity, name) {
        Some(found) => found,
        None => {
            return (st, Err(named(Problem::NoSuperMethod, name, name_span)));
        },
    };
    let (st, out) = synth_self(st, span);
    let recv = match out {
        Ok(found) => found,
        Err(stop) => {
            return (st, Err(stop));
        },
    };
    if found.sig.mut_self && !recv.mutable {
        return (st, Err(named(Problem::ReadOnlyReceiver, name, name_span)));
    }
    let sig = Signature { type_bounds: clone_interface_use_lists(&found.sig.own_type_bounds), ..method_signature(&Chain::Nil, &found.sig) };
    let pre = unsolved(&sig);
    let (st, out) = check_poly_call(cx, st, name, &sig, pre, 0u32, &Chain::Nil, args, None, span);
    let call = match out {
        Ok(found) => found,
        Err(stop) => {
            return (st, Err(stop));
        },
    };
    (st, Ok(hexpr(call.ret, true, HKind::Call { func: found.sig.func, targs: concat(found.owner_args, call.targs), rowargs: call.rowargs, args: cons(recv, call.args) })))
}

/// Check a call through `super`.
pub fn synth_super_call(
    cx: &Ctx,
    st: Checker,
    name: &Text,
    name_span: Span,
    args: &Chain<Expr>,
    span: Span,
) -> (r: (Checker, Result<HExpr, Stop>))
    ensures
        r == model::exprs::synth_super_call(cx, st, name, name_span, args, span),
        kept(st, r.0),
        step(cx, st, r.0, true, (r.1 matches Ok(found) ==> expr_ok(room(cx, r.0), found))),
    decreases h_exprs(args), 5int, Chain::<u32>::Nil,
{
    let class = match st.self_class {
        Some(found) => found,
        None => {
            return (st, Err(unnamed(Problem::SuperOutsideMethod, span)));
        },
    };
    let parent = match class_at(cx, class).parent {
        Some(found) => found,
        None => {
            return (st, Err(unnamed(Problem::NoSuperclass, span)));
        },
    };
    let parent_args = &meta_at(cx, class).parent_args;
    if is_text(&*name, "init") {
        check_super_init(cx, st, parent, parent_args, args, span)
    } else {
        check_super_method(cx, st, class, parent, parent_args, name, name_span, args, span)
    }
}

/// The parameters of a closure. Names are distinct.
pub fn closure_params(cx: &Ctx, env: &TyEnv, params: &Chain<Param>, seen: Chain<Text>) -> (r: Result<Params, Stop>)
    ensures
        r == model::exprs::closure_params(cx, env, params, seen),
        r matches Ok(found) ==> found.types@.len() == found.names@.len() && found.muts@.len() == found.names@.len(),
    decreases params,
{
    match params {
        Chain::Nil => Ok(Params { types: Chain::Nil, muts: Chain::Nil, names: Chain::Nil }),
        Chain::Cons(head, tail) => {
            if holds_name(&seen, &head.name) {
                Err(named(Problem::DuplicateParameter, &head.name, head.span))
            } else {
                let ty = match resolve_now(cx, env, &head.ty) {
                    Ok(found) => found,
                    Err(stop) => {
                        return Err(stop);
                    },
                };
                let rest = match closure_params(cx, env, tail, cons(copy_chain(&head.name), seen)) {
                    Ok(found) => found,
                    Err(stop) => {
                        return Err(stop);
                    },
                };
                Ok(Params { types: cons(ty, rest.types), muts: cons(head.mutable, rest.muts), names: cons(copy_chain(&head.name), rest.names) })
            }
        },
    }
}

/// The locals of parameters.
pub fn param_locals(types: &Chain<Ty>, muts: &Chain<bool>) -> (r: Chain<LocalVar>)
    ensures
        r == model::exprs::param_locals(types, muts),
    decreases types,
{
    match (types, muts) {
        (Chain::Cons(ty, types_rest), Chain::Cons(mutable, muts_rest)) => cons(LocalVar { ty: (**ty).clone(), mutable: **mutable }, param_locals(types_rest, muts_rest)),
        _ => Chain::Nil,
    }
}

/// The scope of parameters: one slot for each name.
pub fn param_scope(names: &Chain<Text>, slot: u32) -> (r: Chain<ScopeEntry>)
    ensures
        r == model::exprs::param_scope(names, slot),
    decreases names,
{
    match names {
        Chain::Nil => Chain::Nil,
        Chain::Cons(head, tail) => cons(ScopeEntry { name: copy_chain(&**head), slot: slot }, param_scope(tail, slot.wrapping_add(1))),
    }
}

/// The types of locals.
pub fn local_types(locals: &Chain<LocalVar>) -> (r: Chain<Ty>)
    ensures
        r == model::exprs::local_types(locals),
    decreases locals,
{
    match locals {
        Chain::Nil => Chain::Nil,
        Chain::Cons(head, tail) => cons(head.ty.clone(), local_types(tail)),
    }
}

/// The types of captures.
pub fn capture_types(captures: &Chain<CaptureRec>) -> (r: Chain<Ty>)
    ensures
        r == model::exprs::capture_types(captures),
    decreases captures,
{
    match captures {
        Chain::Nil => Chain::Nil,
        Chain::Cons(head, tail) => cons(head.ty.clone(), capture_types(tail)),
    }
}

/// The values that a closure captures, read in the callable around it.
pub fn capture_values(captures: &Chain<CaptureRec>) -> (r: Chain<HExpr>)
    ensures
        r == model::exprs::capture_values(captures),
    decreases captures,
{
    match captures {
        Chain::Nil => Chain::Nil,
        Chain::Cons(head, tail) => cons(name_expr(NameRes { source: head.source, ty: head.ty.clone(), mutable: head.mutable }), capture_values(tail)),
    }
}

/// The result type that a closure declares or that is expected of it.
pub fn closure_ret(cx: &Ctx, env: &TyEnv, ret: &Option<TypeExpr>, expected: Option<Ty>) -> (r: Result<Option<Ty>, Stop>)
    ensures
        r == model::exprs::closure_ret(cx, env, ret, expected),
{
    match ret {
        None => Ok(expected),
        Some(written) => {
            let ty = match resolve_now(cx, env, written) {
                Ok(found) => found,
                Err(stop) => {
                    return Err(stop);
                },
            };
            Ok(Some(ty))
        },
    }
}

/// The mode in which a body of one result type is checked.
pub fn body_mode(ret: &Ty) -> (r: BlockMode)
    ensures
        r == model::exprs::body_mode(ret),
{
    if same_ty(&*ret, &Ty::Unit) {
        BlockMode::Discard
    } else {
        BlockMode::Value((*ret).clone())
    }
}

/// The block mode of a closure body.
pub fn closure_mode(ret: &Option<Ty>) -> (r: BlockMode)
    ensures
        r == model::exprs::closure_mode(ret),
{
    match ret {
        Some(ty) => body_mode(ty),
        None => BlockMode::Synth,
    }
}

/// The result kind of a closure.
pub fn closure_kind(ret: &Option<Ty>) -> (r: RetKind)
    ensures
        r == model::exprs::closure_kind(ret),
{
    match ret {
        Some(ty) => RetKind::Known((*ty).clone()),
        None => RetKind::ClosureInfer,
    }
}

/// The result type of a checked closure: what it declares, or what its
/// body gives.
pub fn closure_result(ret: Option<Ty>, body: &Ty) -> (r: Ty)
    ensures
        r == model::exprs::closure_result(ret, body),
{
    match ret {
        Some(ty) => ty,
        None => {
            if same_ty(&*body, &Ty::Never) {
                Ty::Unit
            } else {
                (*body).clone()
            }
        },
    }
}

/// The state of a closure inside a callable.
pub fn enter_closure(st: Checker, params: &Params, ret: RetKind, row: &Row) -> (r: Checker)
    ensures
        r == model::exprs::enter_closure(st, params, ret, row),
        forall|cx: &Ctx| #![trigger ready(cx, st)] ready(cx, st) && params.types@.len() == params.names@.len() && params.muts@.len() == params.names@.len() ==> ready(cx, r),
        forall|cx: &Ctx| #![trigger room(cx, st)] r.outer matches Some(around) && room(cx, *around) == room(cx, st),
{
    proof {
        reveal(ready);
        reveal(room);
        reveal(widens);
        reveal_with_fuel(scopes_ok, 2);
    }
    let env = st.env.clone();
    let out = Output { next_func: st.out.next_func, made: st.out.made };
    let around = Checker { out: Output { next_func: 0, made: Chain::Nil }, ..st };
    Checker {
        outer: Some(Box::new(around)),
        locals: param_locals(&params.types, &params.muts),
        scopes: one(param_scope(&params.names, 0u32)),
        captures: Chain::Nil,
        is_closure: true,
        loops: Chain::Nil,
        saw_return: false,
        ret: ret,
        self_class: None,
        ctor: None,
        env: env,
        declared_row: copy_chain(&*row),
        collect_row: false,
        binds: Chain::Nil,
        out: out,
    }
}

/// The callable around a closure, with what the closure has added to the
/// function table.
pub fn leave_closure(st: Checker) -> (r: Checker)
    ensures
        r == model::exprs::leave_closure(st),
        forall|cx: &Ctx| #![trigger ready(cx, st)] ready(cx, st) && st.outer is Some ==> ready(cx, r) && exprs_ok(room(cx, r), model::exprs::capture_values(&st.captures)),
        forall|cx: &Ctx| #![trigger room(cx, st)] st.outer matches Some(around) ==> room(cx, *around) == room(cx, r),
{
    proof {
        reveal(ready);
        reveal(room);
        reveal(widens);
    }
    match st.outer {
        Some(around) => Checker { out: st.out, ..*around },
        None => Checker { outer: None, ..st },
    }
}

/// Check a closure.
pub fn check_closure(
    cx: &Ctx,
    st: Checker,
    params: &Chain<Param>,
    ret: &Option<TypeExpr>,
    row: &Chain<RowItem>,
    expected: Option<Ty>,
    body: &Chain<Stmt>,
    span: Span,
) -> (r: (Checker, Result<HExpr, Stop>))
    ensures
        r == model::exprs::check_closure(cx, st, params, ret, row, expected, body, span),
        kept(st, r.0),
        step(cx, st, r.0, true, (r.1 matches Ok(found) ==> expr_ok(room(cx, r.0), found))),
    decreases h_stmts(body), 5int, Chain::<u32>::Nil,
{
    let declared = match closure_params(cx, &st.env, params, Chain::Nil) {
        Ok(found) => found,
        Err(stop) => {
            return (st, Err(stop));
        },
    };
    let ret_ty = match closure_ret(cx, &st.env, ret, expected) {
        Ok(found) => found,
        Err(stop) => {
            return (st, Err(stop));
        },
    };
    let effects = match resolve_row(cx, &st.env, row) {
        Ok(found) => found,
        Err(stop) => {
            return (st, Err(stop));
        },
    };
    let mode = closure_mode(&ret_ty);
    let st = enter_closure(st, &declared, closure_kind(&ret_ty), &effects);
    let ghost inside = st;
    let (st, result) = check_block(cx, st, body, &mode, span);
    let ghost done = st;
    proof {
        lemma_closure_widens(cx, inside, done);
    }
    match result {
        Err(stop) => (leave_closure(st), Err(stop)),
        Ok(block) => {
            let values = capture_values(&st.captures);
            let captures = capture_types(&st.captures);
            let locals = local_types(&st.locals);
            let ty = closure_result(ret_ty, &block.ty);
            let st = leave_closure(st);
            let fn_ty = Ty::Fn(clone_tys(&declared.types), copy_chain(&declared.muts), Box::new(ty.clone()), copy_chain(&effects));
            let func = HirFunc {
                imported: false,
                core: st.env.core_scope,
                source_span: source_span(span, st.env.core_scope),
                name: generated_name("<closure ", st.out.next_func),
                type_params: count(&st.env.type_names),
                type_bounds: clone_interface_use_lists(&st.env.type_bounds),
                effect_params: count(&st.env.effect_names),
                params: declared.types,
                param_muts: declared.muts,
                param_names: declared.names,
                ret: ty,
                row: effects,
                captures: captures,
                locals: locals,
                body: block.body,
            };
            proof {
                lemma_finished_ok(cx, done, func);
            }
            let (st, index) = push_func(st, func);
            (st, Ok(hexpr(fn_ty, true, HKind::MakeClosure { func: index, captures: values })))
        },
    }
}

/// Check a tuple literal without an expected type.
pub fn synth_tuple(cx: &Ctx, st: Checker, items: &Chain<Expr>, span: Span) -> (r: (Checker, Result<HExpr, Stop>))
    ensures
        r == model::exprs::synth_tuple(cx, st, items, span),
        kept(st, r.0),
        step(cx, st, r.0, true, (r.1 matches Ok(found) ==> expr_ok(room(cx, r.0), found))),
    decreases h_exprs(items), 1int, Chain::<u32>::Nil,
{
    let (st, out) = synth_each(cx, st, items);
    let checked = match out {
        Ok(found) => found,
        Err(stop) => {
            return (st, Err(stop));
        },
    };
    let ty = Ty::Tuple(types_of(&checked));
    if contains_callback(&ty) {
        (st, Err(unnamed(Problem::CallbackInTuple, span)))
    } else {
        (st, Ok(hexpr(ty, true, HKind::TupleLit(checked))))
    }
}

/// Check a list literal without an expected type.
pub fn synth_list(cx: &Ctx, st: Checker, items: &Chain<Expr>, span: Span) -> (r: (Checker, Result<HExpr, Stop>))
    ensures
        r == model::exprs::synth_list(cx, st, items, span),
        kept(st, r.0),
        step(cx, st, r.0, true, (r.1 matches Ok(found) ==> expr_ok(room(cx, r.0), found))),
    decreases h_exprs(items), 2int, Chain::<u32>::Nil,
{
    if items.is_empty() {
        return (st, Err(unnamed(Problem::EmptyList, span)));
    }
    let (st, out) = synth_join_elems(cx, st, items);
    let found = match out {
        Ok(found) => found,
        Err(stop) => {
            return (st, Err(stop));
        },
    };
    let ty = Ty::ListOf(Box::new(found.ty));
    if contains_callback(&ty) {
        (st, Err(unnamed(Problem::CallbackInList, span)))
    } else {
        (st, Ok(hexpr(ty, true, HKind::ListLit(found.items))))
    }
}

/// Check an interpolated string.
pub fn synth_text(cx: &Ctx, st: Checker, parts: &Chain<InterpPart>) -> (r: (Checker, Result<HExpr, Stop>))
    ensures
        r == model::exprs::synth_text(cx, st, parts),
        kept(st, r.0),
        step(cx, st, r.0, true, (r.1 matches Ok(found) ==> expr_ok(room(cx, r.0), found))),
    decreases h_parts(parts), 1int, Chain::<u32>::Nil,
{
    let (st, out) = synth_interp(cx, st, parts);
    let checked = match out {
        Ok(found) => found,
        Err(stop) => {
            return (st, Err(stop));
        },
    };
    (st, Ok(literal(Ty::Str, HKind::Interp(checked))))
}

/// Check a negation.
pub fn synth_not(cx: &Ctx, st: Checker, inner: &Expr, span: Span) -> (r: (Checker, Result<HExpr, Stop>))
    ensures
        r == model::exprs::synth_not(cx, st, inner, span),
        kept(st, r.0),
        step(cx, st, r.0, true, (r.1 matches Ok(found) ==> expr_ok(room(cx, r.0), found))),
    decreases h_expr(inner), 9int, Chain::<u32>::Nil,
{
    let (st, out) = check_expr(cx, st, inner, &Ty::Bool);
    let value = match out {
        Ok(found) => found,
        Err(stop) => {
            return (st, Err(stop));
        },
    };
    let result = match primitive_operator(cx, "Bool", "__not__", one(value), span) {
        Ok(found) => found,
        Err(stop) => {
            return (st, Err(stop));
        },
    };
    (st, Ok(result))
}

/// Check `and` and `or`.
pub fn synth_logic(cx: &Ctx, st: Checker, left: &Expr, right: &Expr, both: bool) -> (r: (Checker, Result<HExpr, Stop>))
    ensures
        r == model::exprs::synth_logic(cx, st, left, right, both),
        kept(st, r.0),
        step(cx, st, r.0, true, (r.1 matches Ok(found) ==> expr_ok(room(cx, r.0), found))),
    decreases h_expr(left) + h_expr(right), 9int, Chain::<u32>::Nil,
{
    let (st, out) = check_expr(cx, st, left, &Ty::Bool);
    let l = match out {
        Ok(found) => found,
        Err(stop) => {
            return (st, Err(stop));
        },
    };
    let (st, out) = check_expr(cx, st, right, &Ty::Bool);
    let r = match out {
        Ok(found) => found,
        Err(stop) => {
            return (st, Err(stop));
        },
    };
    (st, Ok(literal(Ty::Bool, if both { HKind::And(l, r) } else { HKind::Or(l, r) })))
}

/// Synthesize an expression type.
#[verifier::rlimit(60)]
pub fn synth_expr(cx: &Ctx, st: Checker, expr: &Expr) -> (r: (Checker, Result<HExpr, Stop>))
    ensures
        r == model::exprs::synth_expr(cx, st, expr),
        kept(st, r.0),
        step(cx, st, r.0, true, (r.1 matches Ok(found) ==> expr_ok(room(cx, r.0), found))),
    decreases h_expr(expr), 0int, Chain::<u32>::Nil,
{
    match &*expr.kind {
        ExprKind::Unit => (st, Ok(literal(Ty::Unit, HKind::Unit))),
        ExprKind::Int(value) => (st, Ok(literal(Ty::Int, HKind::Int(*value)))),
        ExprKind::Float(bits) => (st, Ok(literal(Ty::Float, HKind::Float(*bits)))),
        ExprKind::Str(value) => (st, Ok(literal(Ty::Str, HKind::Str(copy_chain(&*value))))),
        ExprKind::Bytes(value) => (st, Ok(literal(Ty::Bytes, HKind::Bytes(copy_chain(&*value))))),
        ExprKind::Bool(value) => (st, Ok(literal(Ty::Bool, HKind::Bool(*value)))),
        ExprKind::Interp(parts) => synth_text(cx, st, parts),
        ExprKind::SelfRef => synth_self(st, expr.span),
        ExprKind::Name(name) => synth_name(cx, st, name, expr.span),
        ExprKind::Not(inner) => synth_not(cx, st, inner, expr.span),
        ExprKind::Neg(inner) => synth_unary(cx, st, "__neg__", inner, expr.span),
        ExprKind::Invert(inner) => synth_unary(cx, st, "__invert__", inner, expr.span),
        ExprKind::Binary { op, left, right } => synth_binary(cx, st, *op, left, right),
        ExprKind::And(left, right) => synth_logic(cx, st, left, right, true),
        ExprKind::Or(left, right) => synth_logic(cx, st, left, right, false),
        ExprKind::Is { value, ty } => synth_is(cx, st, value, ty, false, expr.span),
        ExprKind::Cast { value, ty } => synth_is(cx, st, value, ty, true, expr.span),
        ExprKind::Call { name, name_span, type_args, args } => call_named(cx, st, name, *name_span, type_args, args, None, expr.span),
        ExprKind::CallExpr { callee, args } => {
            let (st, out) = synth_expr(cx, st, callee);
            let value = match out {
                Ok(found) => found,
                Err(stop) => {
                    return (st, Err(stop));
                },
            };
            synth_call_value(cx, st, value, args, callee.span, expr.span)
        },
        ExprKind::Field { recv, name, name_span } => synth_field(cx, st, recv, name, *name_span, None),
        ExprKind::MethodCall { recv, name, name_span, type_args, args } => synth_method_call(cx, st, recv, name, *name_span, type_args, args, None, expr.span),
        ExprKind::SuperCall { name, name_span, args } => synth_super_call(cx, st, name, *name_span, args, expr.span),
        ExprKind::Index { recv, index } => synth_index(cx, st, recv, index),
        ExprKind::Propagate(value) => check_propagate(cx, st, value, expr.span),
        ExprKind::TupleLit(items) => synth_tuple(cx, st, items, expr.span),
        ExprKind::ListLit(items) => synth_list(cx, st, items, expr.span),
        ExprKind::MapLit(entries) => synth_map(cx, st, entries, expr.span),
        ExprKind::Closure { params, ret, row, body } => check_closure(cx, st, params, ret, row, None, body, expr.span),
        ExprKind::If { branches, else_body } => check_if(cx, st, branches, else_body, &BlockMode::Synth, expr.span),
        ExprKind::Case { scrut, arms } => check_case(cx, st, scrut, arms, &BlockMode::Synth, expr.span),
        ExprKind::Select(arms) => check_select(cx, st, arms, &BlockMode::Synth, expr.span),
        ExprKind::Loop(body) => check_loop(cx, st, body, &BlockMode::Synth, expr.span),
        ExprKind::Labeled { label, value: _ } => (st, Err(named(Problem::LabelNotValid, label, expr.span))),
    }
}

/// The result type that an expected function type asks of a closure.
pub fn expected_ret(expected: &Ty) -> (r: Option<Ty>)
    ensures
        r == model::exprs::expected_ret(expected),
{
    match callable_parts(expected) {
        Some((_, ret, _)) => Some((*ret).clone()),
        None => None,
    }
}

/// Check a synthesized expression against an expected type.
pub fn fits_expected(
    cx: &Ctx,
    st: Checker,
    result: Result<HExpr, Stop>,
    expected: &Ty,
    span: Span,
) -> (r: (Checker, Result<HExpr, Stop>))
    ensures
        r == model::exprs::fits_expected(cx, st, result, expected, span),
        kept(st, r.0),
        step(
            cx,
            st,
            r.0,
            (result matches Ok(found) ==> expr_ok(room(cx, st), found)),
            (r.1 matches Ok(found) ==> expr_ok(room(cx, r.0), found)),
        ),
        fits_as(cx, *expected, r.1),
{
    let found = match result {
        Ok(found) => found,
        Err(stop) => {
            return (st, Err(stop));
        },
    };
    let fits = match expect_compatible(cx, expected, found, span) {
        Ok(found) => found,
        Err(stop) => {
            return (st, Err(stop));
        },
    };
    (st, Ok(fits))
}

/// Extend a call mismatch when the constructor name collides with an arm
/// of the expected enum.
pub fn note_ctor_collision(cx: &Ctx, stop: Stop, name: &Text, expected: &Ty) -> (r: Stop)
    ensures
        r == model::exprs::note_ctor_collision(cx, stop, name, expected),
{
    match (stop, expected_arm(cx, Some(expected), name), class_of(cx, expected)) {
        (Stop::Fail(Diag { problem: Problem::Mismatch { expected: wanted, found }, subject: _, span }), Some(_), Some(nominal)) => named(Problem::ConstructorCollision { expected: wanted, found: found, family: family_or_self(cx, nominal.class) }, name, span),
        (other, _, _) => other,
    }
}

/// Check one expression against an expected type.
pub fn check_expr(cx: &Ctx, st: Checker, expr: &Expr, expected: &Ty) -> (r: (Checker, Result<HExpr, Stop>))
    ensures
        r == model::exprs::check_expr(cx, st, expr, expected),
        kept(st, r.0),
        step(cx, st, r.0, true, (r.1 matches Ok(found) ==> expr_ok(room(cx, r.0), found))),
        fits_as(cx, *expected, r.1),
    decreases h_expr(expr), 1int, Chain::<u32>::Nil,
{
    match &*expr.kind {
        ExprKind::If { branches, else_body } => check_if(cx, st, branches, else_body, &BlockMode::Value((*expected).clone()), expr.span),
        ExprKind::Case { scrut, arms } => check_case(cx, st, scrut, arms, &BlockMode::Value((*expected).clone()), expr.span),
        ExprKind::Select(arms) => check_select(cx, st, arms, &BlockMode::Value((*expected).clone()), expr.span),
        ExprKind::Loop(body) => check_loop(cx, st, body, &BlockMode::Value((*expected).clone()), expr.span),
        ExprKind::TupleLit(items) => {
            match expected {
                Ty::Tuple(tys) => {
                    if same_len(items, tys) {
                        let (st, out) = check_pairwise(cx, st, items, tys);
                        let checked = match out {
                            Ok(found) => found,
                            Err(stop) => {
                                return (st, Err(stop));
                            },
                        };
                        (st, Ok(hexpr((*expected).clone(), true, HKind::TupleLit(checked))))
                    } else {
                        let (st, found) = synth_expr(cx, st, expr);
                        fits_expected(cx, st, found, expected, expr.span)
                    }
                },
                _ => {
                    let (st, found) = synth_expr(cx, st, expr);
                    fits_expected(cx, st, found, expected, expr.span)
                },
            }
        },
        ExprKind::ListLit(items) => {
            match expected {
                Ty::ListOf(item) => {
                    let (st, out) = check_each_as(cx, st, items, item);
                    let checked = match out {
                        Ok(found) => found,
                        Err(stop) => {
                            return (st, Err(stop));
                        },
                    };
                    (st, Ok(hexpr((*expected).clone(), true, HKind::ListLit(checked))))
                },
                _ => {
                    let (st, found) = synth_expr(cx, st, expr);
                    fits_expected(cx, st, found, expected, expr.span)
                },
            }
        },
        ExprKind::MapLit(entries) => {
            match expected {
                Ty::MapOf(key, value) => {
                    let (st, out) = check_entries(cx, st, entries, key, value);
                    let checked = match out {
                        Ok(found) => found,
                        Err(stop) => {
                            return (st, Err(stop));
                        },
                    };
                    (st, Ok(hexpr((*expected).clone(), true, HKind::MapLit(checked))))
                },
                _ => {
                    let (st, found) = synth_expr(cx, st, expr);
                    fits_expected(cx, st, found, expected, expr.span)
                },
            }
        },
        ExprKind::Closure { params, ret, row, body } => {
            let (st, found) = check_closure(cx, st, params, ret, row, expected_ret(expected), body, expr.span);
            fits_expected(cx, st, found, expected, expr.span)
        },
        ExprKind::Name(name) => {
            if lookup_slot(&st, name).is_some() {
                let (st, found) = synth_expr(cx, st, expr);
                fits_expected(cx, st, found, expected, expr.span)
            } else {
                let (st, out) = try_ctor_name(cx, st, name, Some(expected), expr.span);
                let ctor = match out {
                    Ok(found) => found,
                    Err(stop) => {
                        return (st, Err(stop));
                    },
                };
                match ctor {
                    Some(value) => fits_expected(cx, st, Ok(value), expected, expr.span),
                    None => {
                        let (st, found) = synth_expr(cx, st, expr);
                        fits_expected(cx, st, found, expected, expr.span)
                    },
                }
            }
        },
        ExprKind::Call { name, name_span, type_args, args } => {
            let (st, found) = call_named(cx, st, name, *name_span, type_args, args, Some(expected), expr.span);
            let value = match found {
                Ok(found) => found,
                Err(stop) => {
                    return (st, Err(stop));
                },
            };
            match expect_compatible(cx, expected, value, expr.span) {
                Ok(fits) => (st, Ok(fits)),
                Err(stop) => (st, Err(note_ctor_collision(cx, stop, name, expected))),
            }
        },
        ExprKind::MethodCall { recv, name, name_span, type_args, args } => {
            let (st, found) = synth_method_call(cx, st, recv, name, *name_span, type_args, args, Some(expected), expr.span);
            fits_expected(cx, st, found, expected, expr.span)
        },
        ExprKind::Field { recv, name, name_span } => {
            let (st, found) = synth_field(cx, st, recv, name, *name_span, Some(expected));
            fits_expected(cx, st, found, expected, expr.span)
        },
        _ => {
            let (st, found) = synth_expr(cx, st, expr);
            fits_expected(cx, st, found, expected, expr.span)
        },
    }
}

} // verus!
