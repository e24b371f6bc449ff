//! Bidirectional expression checking.
//!
//! The functions here state what the functions of the same name compute.

use vstd::prelude::*;
use crate::ast::{BinOp, Expr, ExprKind, InterpPart, MapEntry, Param, RowItem, Span, Stmt, TypeExpr, joined};
use crate::chain::{Chain, chain_of};
use crate::context::{ClassKind, Ctx, Nominal, Params, TyEnv, UseBinding};
use crate::hir::{HEntry, HExpr, HKind, HPart, HirFunc, NativeOp};
use crate::model::answers::{compatible, is_heap, join};
use crate::model::blocks::{check_block, check_loop};
use crate::model::branches::{check_case, check_if, check_propagate, check_select};
use crate::model::calls::{call_named, check_args_simple, check_declared_method, check_interface_method, check_key_now, check_poly_call, construct_arm, is_captured_callback, method_signature, operator_hook, resolve_now, synth_call_value, try_ctor_name, unsolved};
use crate::model::classes::source_span;
use crate::model::conform::{bound_method, default_method, find_method_owner, lookup_method};
use crate::model::control::{check_control_method, check_fault_denied, check_native_method, check_spawn, check_sys_call, no_control_method};
use crate::model::infer::{callable_parts, deep_widen, family_or_self, is_inference_gap, map_key_parameter, tuple_comparable};
use crate::model::lists::{concat, cons, count, find_id, holds_name, nth, one, same_len, two};
use crate::model::lookup::{class_at, class_extends, class_of, core_class, find_field, lookup_type, meta_at, sig_at};
use crate::model::names::dotted;
use crate::model::resolve::{named, resolve_row, unnamed};
use crate::model::scope::{charge_row, enum_qualifier, expect_compatible, generated_name, hexpr, is_name, lookup_slot, mismatch, module_func, name_expr, push_func, resolve_value, self_value, synth_self, sys_group_of, sys_in_scope, use_binding};
use crate::model::subst::{contains_callback, substitute, substitute_all};
use crate::model::system::{check_sys_value, digest_expr, expected_arm, find_operator_hook, freeze_expr, hook_name, is_control_type, operator_text, primitive_operator, qualified_arm};
use crate::model::uses::sys_group_name;
use crate::problem::{Diag, Problem, Stop};
use crate::state::{BlockMode, BranchType, CaptureRec, Checker, CtorCtx, CtorState, Joined, LocalVar, MapKeyUse, NameRes, Output, RetKind, ScopeEntry, Signature, Tried};
use crate::text::Text;
use crate::types::{Row, Ty};
use crate::model::heights::{h_entries, h_expr, h_exprs, h_parts, h_stmts, lemma_one};

verus! {

/// A literal.
pub open spec fn literal(ty: Ty, kind: HKind) -> HExpr
{
    hexpr(ty, true, kind)
}

/// Check a bare name that is no local: a constructor, a `sys` member, a
/// module function, or a problem that says what the name is.
pub open spec fn synth_global(cx: &Ctx, st: Checker, name: &Text, span: Span) -> (Checker, Result<HExpr, Stop>)
{
    if ((*name)@ == "sys"@) {
        (st, Err(unnamed(Problem::SysNotValue, span)))
    } else {
        match use_binding(cx, st, name) {
            (st, Err(stop)) => (st, Err(stop)),
            (st, Ok(binding)) => {
                match binding {
                    Some(UseBinding::SysMember { group, member }) => {
                        match check_sys_value(cx, &group, &member, span) {
                            Err(stop) => (st, Err(stop)),
                            Ok(value) => {
                                (st, Ok(value))
                            },
                        }
                    },
                    Some(UseBinding::SysGroup(_)) => (st, Err(named(Problem::GroupNotValue, name, span))),
                    Some(UseBinding::ModulePath(_)) => (st, Err(named(Problem::ModuleNotValue, name, span))),
                    None => {
                        match module_func(cx, &st.env, name) {
                            Some(func) => {
                                match function_value(cx, func, name, span) {
                                    Err(stop) => (st, Err(stop)),
                                    Ok(value) => {
                                        (st, Ok(value))
                                    },
                                }
                            },
                            None => {
                                let problem = not_a_value(cx, &st.env, name);
                                (st, Err(named(problem, name, span)))
                            },
                        }
                    },
                }
            },
        }
    }
}

/// A module function as a value. A generic one needs a direct call.
pub open spec fn function_value(cx: &Ctx, func: u32, name: &Text, span: Span) -> Result<HExpr, Stop>
{
    let sig = sig_at(cx, func);
    if !sig.type_params.is_empty() || !sig.effect_params.is_empty() {
        Err(named(Problem::NeedsDirectCall, name, span))
    } else {
        let ty = Ty::Fn(sig.params, sig.param_muts, Box::new(sig.ret), sig.row);
        Ok(hexpr(ty, true, HKind::MakeClosure { func: func, captures: Chain::Nil }))
    }
}

/// Why a name is not a value.
pub open spec fn not_a_value(cx: &Ctx, env: &TyEnv, name: &Text) -> Problem
{
    match lookup_type(cx, name, env) {
        None => Problem::NotInScope,
        Some(class) => {
            if class_at(cx, class).kind == ClassKind::EnumParent {
                Problem::EnumNotValue
            } else {
                Problem::ClassNotValue
            }
        },
    }
}

/// Check a bare name.
pub open spec fn synth_name(cx: &Ctx, st: Checker, name: &Text, span: Span) -> (Checker, Result<HExpr, Stop>)
    decreases h_exprs(&Chain::<Expr>::Nil), 6int, Chain::<u32>::Nil,
{
    match resolve_value(st, name) {
        (st, Err(stop)) => (st, Err(stop)),
        (st, Ok(local)) => {
            match local {
                Some(found) => {
                    if is_captured_callback(&found) {
                        (st, Err(unnamed(Problem::CallbackCaptured, span)))
                    } else {
                        (st, Ok(name_expr(found)))
                    }
                },
                None => {
                    match try_ctor_name(cx, st, name, None, span) {
                        (st, Err(stop)) => (st, Err(stop)),
                        (st, Ok(ctor)) => {
                            match ctor {
                                Some(value) => (st, Ok(value)),
                                None => synth_global(cx, st, name, span),
                            }
                        },
                    }
                },
            }
        },
    }
}

/// The types of checked expressions.
pub open spec fn types_of(items: &Chain<HExpr>) -> Chain<Ty>
    decreases items,
{
    match items {
        Chain::Nil => Chain::Nil,
        Chain::Cons(head, tail) => cons(head.ty, types_of(tail)),
    }
}

/// Check each expression without an expected type.
pub open spec fn synth_each(cx: &Ctx, st: Checker, items: &Chain<Expr>) -> (Checker, Result<Chain<HExpr>, Stop>)
    decreases h_exprs(items), 0int, Chain::<u32>::Nil,
{
    match items {
        Chain::Nil => (st, Ok(Chain::Nil)),
        Chain::Cons(head, tail) => {
            match synth_expr(cx, st, head) {
                (st, Err(stop)) => (st, Err(stop)),
                (st, Ok(first)) => {
                    match synth_each(cx, st, tail) {
                        (st, Err(stop)) => (st, Err(stop)),
                        (st, Ok(rest)) => {
                            (st, Ok(cons(first, rest)))
                        },
                    }
                },
            }
        },
    }
}

/// Check each expression against one type.
pub open spec fn check_each_as(cx: &Ctx, st: Checker, items: &Chain<Expr>, ty: &Ty) -> (Checker, Result<Chain<HExpr>, Stop>)
    decreases h_exprs(items), 0int, Chain::<u32>::Nil,
{
    match items {
        Chain::Nil => (st, Ok(Chain::Nil)),
        Chain::Cons(head, tail) => {
            match check_expr(cx, st, head, ty) {
                (st, Err(stop)) => (st, Err(stop)),
                (st, Ok(first)) => {
                    match check_each_as(cx, st, tail, ty) {
                        (st, Err(stop)) => (st, Err(stop)),
                        (st, Ok(rest)) => {
                            (st, Ok(cons(first, rest)))
                        },
                    }
                },
            }
        },
    }
}

/// Check each expression against the type at its position.
pub open spec fn check_pairwise(cx: &Ctx, st: Checker, items: &Chain<Expr>, tys: &Chain<Ty>) -> (Checker, Result<Chain<HExpr>, Stop>)
    decreases h_exprs(items), 0int, Chain::<u32>::Nil,
{
    match (items, tys) {
        (Chain::Cons(head, tail), Chain::Cons(ty, rest)) => {
            match check_expr(cx, st, head, ty) {
                (st, Err(stop)) => (st, Err(stop)),
                (st, Ok(first)) => {
                    match check_pairwise(cx, st, tail, rest) {
                        (st, Err(stop)) => (st, Err(stop)),
                        (st, Ok(more)) => {
                            (st, Ok(cons(first, more)))
                        },
                    }
                },
            }
        },
        _ => (st, Ok(Chain::Nil)),
    }
}

/// Synthesize each element alone. An element whose type arguments a
/// sibling must decide stays open; the first such problem is kept.
pub open spec fn try_each(cx: &Ctx, st: Checker, items: &Chain<Expr>) -> (Checker, Result<Tried<HExpr>, Stop>)
    decreases h_exprs(items), 0int, Chain::<u32>::Nil,
{
    match items {
        Chain::Nil => (st, Ok(Tried { found: Chain::Nil, gap: None })),
        Chain::Cons(head, tail) => {
            match synth_expr(cx, st, head) {
                (st, Ok(value)) => {
                    match try_each(cx, st, tail) {
                        (st, Err(stop)) => (st, Err(stop)),
                        (st, Ok(rest)) => {
                            (st, Ok(Tried { found: cons(Some(value), rest.found), gap: rest.gap }))
                        },
                    }
                },
                (st, Err(Stop::Fail(diag))) => {
                    if is_inference_gap(&diag) {
                        match try_each(cx, st, tail) {
                            (st, Err(stop)) => (st, Err(stop)),
                            (st, Ok(rest)) => {
                                (st, Ok(Tried { found: cons(None, rest.found), gap: Some(diag) }))
                            },
                        }
                    } else {
                        (st, Err(Stop::Fail(diag)))
                    }
                },
                (st, Err(stop)) => (st, Err(stop)),
            }
        },
    }
}

/// The types and places of the elements that resolved alone.
pub open spec fn element_types(found: &Chain<Option<HExpr>>, items: &Chain<Expr>) -> Chain<BranchType>
    decreases items,
{
    match (found, items) {
        (Chain::Cons(value, found_rest), Chain::Cons(item, items_rest)) => {
            let rest = element_types(found_rest, items_rest);
            match &**value {
                Some(resolved) => cons(BranchType { ty: resolved.ty, mutable: resolved.mutable, span: item.span }, rest),
                None => rest,
            }
        },
        _ => Chain::Nil,
    }
}

/// The elements that resolved.
pub open spec fn resolved_items(found: Chain<Option<HExpr>>) -> Chain<HExpr>
    decreases found,
{
    match found {
        Chain::Nil => Chain::Nil,
        Chain::Cons(head, tail) => {
            match *head {
                Some(value) => cons(value, resolved_items(*tail)),
                None => resolved_items(*tail),
            }
        },
    }
}

/// Join types in order.
pub open spec fn join_in_order(cx: &Ctx, joined: Option<Ty>, items: &Chain<BranchType>) -> Result<Option<Ty>, Stop>
    decreases items,
{
    match items {
        Chain::Nil => Ok(joined),
        Chain::Cons(head, tail) => {
            match joined {
                None => join_in_order(cx, Some(head.ty), tail),
                Some(previous) => {
                    match join(cx, &previous, &head.ty) {
                        Err(stop) => Err(stop),
                        Ok(both) => {
                            match both {
                                Some(ty) => join_in_order(cx, Some(ty), tail),
                                None => Err(mismatch(&previous, &head.ty, head.span)),
                            }
                        },
                    }
                },
            }
        },
    }
}

/// Join the types of expressions with a hint.
pub open spec fn join_hinted(cx: &Ctx, joined: Option<Ty>, items: &Chain<HExpr>, hint: &Ty) -> Result<Ty, Stop>
    decreases items,
{
    match items {
        Chain::Nil => {
            match joined {
                Some(ty) => Ok(ty),
                None => Ok(*hint),
            }
        },
        Chain::Cons(head, tail) => {
            match joined {
                None => join_hinted(cx, Some(head.ty), tail, hint),
                Some(previous) => {
                    match join(cx, &previous, &head.ty) {
                        Err(stop) => Err(stop),
                        Ok(both) => {
                            match both {
                                Some(ty) => join_hinted(cx, Some(ty), tail, hint),
                                None => join_hinted(cx, Some(*hint), tail, hint),
                            }
                        },
                    }
                },
            }
        },
    }
}

/// The join of the widened types.
pub open spec fn widened_hint(cx: &Ctx, hint: Option<Ty>, items: &Chain<BranchType>) -> Result<Option<Ty>, Stop>
    decreases items,
{
    match items {
        Chain::Nil => Ok(hint),
        Chain::Cons(head, tail) => {
            let wide = deep_widen(cx, &head.ty);
            match hint {
                None => widened_hint(cx, Some(wide), tail),
                Some(previous) => {
                    match join(cx, &previous, &wide) {
                        Err(stop) => Err(stop),
                        Ok(both) => {
                            match both {
                                Some(ty) => widened_hint(cx, Some(ty), tail),
                                None => Err(mismatch(&previous, &wide, head.span)),
                            }
                        },
                    }
                },
            }
        },
    }
}

/// Check the elements of one collection position and join their types.
///
/// An element whose constructor cannot resolve its type arguments alone,
/// for example a bare `None`, adopts the family-widened join of the
/// elements that synthesize. Without such a sibling, the original
/// problem stands.
pub open spec fn synth_join_elems(cx: &Ctx, st: Checker, items: &Chain<Expr>) -> (Checker, Result<Joined, Stop>)
    decreases h_exprs(items), 1int, Chain::<u32>::Nil,
{
    match try_each(cx, st, items) {
        (st, Err(stop)) => (st, Err(stop)),
        (st, Ok(tried)) => {
            let types = element_types(&tried.found, items);
            match tried.gap {
                None => {
                    match join_in_order(cx, None, &types) {
                        Err(stop) => (st, Err(stop)),
                        Ok(joined) => {
                            match joined {
                                Some(ty) => (st, Ok(Joined { items: resolved_items(tried.found), ty: ty })),
                                None => (st, Ok(Joined { items: Chain::Nil, ty: Ty::Never })),
                            }
                        },
                    }
                },
                Some(gap) => {
                    match widened_hint(cx, None, &types) {
                        Err(stop) => (st, Err(stop)),
                        Ok(hint) => {
                            match hint {
                                None => (st, Err(Stop::Fail(gap))),
                                Some(ty) => {
                                    match check_each_as(cx, st, items, &ty) {
                                        (st, Err(stop)) => (st, Err(stop)),
                                        (st, Ok(checked)) => {
                                            match join_hinted(cx, None, &checked, &ty) {
                                                Err(stop) => (st, Err(stop)),
                                                Ok(joined) => {
                                                    (st, Ok(Joined { items: checked, ty: joined }))
                                                },
                                            }
                                        },
                                    }
                                },
                            }
                        },
                    }
                },
            }
        },
    }
}

/// Check the keys of a map literal and join their types.
pub open spec fn synth_keys(cx: &Ctx, st: Checker, entries: &Chain<MapEntry>, joined: Option<Ty>) -> (Checker, Result<Joined, Stop>)
    decreases h_entries(entries), 0int, Chain::<u32>::Nil,
{
    match entries {
        Chain::Nil => {
            match joined {
                Some(ty) => (st, Ok(Joined { items: Chain::Nil, ty: ty })),
                None => (st, Ok(Joined { items: Chain::Nil, ty: Ty::Never })),
            }
        },
        Chain::Cons(head, tail) => {
            match synth_expr(cx, st, &head.key) {
                (st, Err(stop)) => (st, Err(stop)),
                (st, Ok(key)) => {
                    match check_key_now(cx, &st.env, &key.ty, head.key.span) {
                        Err(stop) => (st, Err(stop)),
                        Ok(_hashable) => {
                            match join_key(cx, joined, &key.ty, head.key.span) {
                                Err(stop) => (st, Err(stop)),
                                Ok(next) => {
                                    match synth_keys(cx, st, tail, Some(next)) {
                                        (st, Err(stop)) => (st, Err(stop)),
                                        (st, Ok(rest)) => {
                                            (st, Ok(Joined { items: cons(key, rest.items), ty: rest.ty }))
                                        },
                                    }
                                },
                            }
                        },
                    }
                },
            }
        },
    }
}

/// Join one more key type.
pub open spec fn join_key(cx: &Ctx, joined: Option<Ty>, key: &Ty, span: Span) -> Result<Ty, Stop>
{
    match joined {
        None => Ok(*key),
        Some(previous) => {
            match join(cx, &previous, key) {
                Err(stop) => Err(stop),
                Ok(both) => {
                    match both {
                        Some(ty) => Ok(ty),
                        None => Err(mismatch(&previous, key, span)),
                    }
                },
            }
        },
    }
}

/// Synthesize each value of a map literal alone.
pub open spec fn try_values(cx: &Ctx, st: Checker, entries: &Chain<MapEntry>) -> (Checker, Result<Tried<HExpr>, Stop>)
    decreases h_entries(entries), 0int, Chain::<u32>::Nil,
{
    match entries {
        Chain::Nil => (st, Ok(Tried { found: Chain::Nil, gap: None })),
        Chain::Cons(head, tail) => {
            match synth_expr(cx, st, &head.value) {
                (st, Ok(value)) => {
                    match try_values(cx, st, tail) {
                        (st, Err(stop)) => (st, Err(stop)),
                        (st, Ok(rest)) => {
                            (st, Ok(Tried { found: cons(Some(value), rest.found), gap: rest.gap }))
                        },
                    }
                },
                (st, Err(Stop::Fail(diag))) => {
                    if is_inference_gap(&diag) {
                        match try_values(cx, st, tail) {
                            (st, Err(stop)) => (st, Err(stop)),
                            (st, Ok(rest)) => {
                                (st, Ok(Tried { found: cons(None, rest.found), gap: Some(diag) }))
                            },
                        }
                    } else {
                        (st, Err(Stop::Fail(diag)))
                    }
                },
                (st, Err(stop)) => (st, Err(stop)),
            }
        },
    }
}

/// Check each map value against one type.
pub open spec fn check_values_as(cx: &Ctx, st: Checker, entries: &Chain<MapEntry>, ty: &Ty) -> (Checker, Result<Chain<HExpr>, Stop>)
    decreases h_entries(entries), 0int, Chain::<u32>::Nil,
{
    match entries {
        Chain::Nil => (st, Ok(Chain::Nil)),
        Chain::Cons(head, tail) => {
            match check_expr(cx, st, &head.value, ty) {
                (st, Err(stop)) => (st, Err(stop)),
                (st, Ok(first)) => {
                    match check_values_as(cx, st, tail, ty) {
                        (st, Err(stop)) => (st, Err(stop)),
                        (st, Ok(rest)) => {
                            (st, Ok(cons(first, rest)))
                        },
                    }
                },
            }
        },
    }
}

/// The types of the resolved map values.
pub open spec fn value_types(found: &Chain<Option<HExpr>>, entries: &Chain<MapEntry>) -> Chain<BranchType>
    decreases entries,
{
    match (found, entries) {
        (Chain::Cons(value, found_rest), Chain::Cons(entry, entries_rest)) => {
            let rest = value_types(found_rest, entries_rest);
            match &**value {
                Some(resolved) => cons(BranchType { ty: resolved.ty, mutable: resolved.mutable, span: entry.value.span }, rest),
                None => rest,
            }
        },
        _ => Chain::Nil,
    }
}

/// Check the values of a map literal and join their types, by the rule
/// for the elements of a list.
pub open spec fn synth_join_values(cx: &Ctx, st: Checker, entries: &Chain<MapEntry>) -> (Checker, Result<Joined, Stop>)
    decreases h_entries(entries), 1int, Chain::<u32>::Nil,
{
    match try_values(cx, st, entries) {
        (st, Err(stop)) => (st, Err(stop)),
        (st, Ok(tried)) => {
            let types = value_types(&tried.found, entries);
            match tried.gap {
                None => {
                    match join_in_order(cx, None, &types) {
                        Err(stop) => (st, Err(stop)),
                        Ok(joined) => {
                            match joined {
                                Some(ty) => (st, Ok(Joined { items: resolved_items(tried.found), ty: ty })),
                                None => (st, Ok(Joined { items: Chain::Nil, ty: Ty::Never })),
                            }
                        },
                    }
                },
                Some(gap) => {
                    match widened_hint(cx, None, &types) {
                        Err(stop) => (st, Err(stop)),
                        Ok(hint) => {
                            match hint {
                                None => (st, Err(Stop::Fail(gap))),
                                Some(ty) => {
                                    match check_values_as(cx, st, entries, &ty) {
                                        (st, Err(stop)) => (st, Err(stop)),
                                        (st, Ok(checked)) => {
                                            match join_hinted(cx, None, &checked, &ty) {
                                                Err(stop) => (st, Err(stop)),
                                                Ok(joined) => {
                                                    (st, Ok(Joined { items: checked, ty: joined }))
                                                },
                                            }
                                        },
                                    }
                                },
                            }
                        },
                    }
                },
            }
        },
    }
}

/// The entries of keys and values, position by position.
pub open spec fn pair_entries(keys: Chain<HExpr>, values: Chain<HExpr>) -> Chain<HEntry>
    decreases keys,
{
    match (keys, values) {
        (Chain::Cons(key, keys_rest), Chain::Cons(value, values_rest)) => cons(HEntry { key: *key, value: *value }, pair_entries(*keys_rest, *values_rest)),
        _ => Chain::Nil,
    }
}

/// Check a map literal without an expected type.
pub open spec fn synth_map(cx: &Ctx, st: Checker, entries: &Chain<MapEntry>, span: Span) -> (Checker, Result<HExpr, Stop>)
    decreases h_entries(entries), 2int, Chain::<u32>::Nil,
{
    if entries.is_empty() {
        (st, Err(unnamed(Problem::EmptyMap, span)))
    } else {
        match synth_keys(cx, st, entries, None) {
            (st, Err(stop)) => (st, Err(stop)),
            (st, Ok(keys)) => {
                match synth_join_values(cx, st, entries) {
                    (st, Err(stop)) => (st, Err(stop)),
                    (st, Ok(values)) => {
                        let ty = Ty::MapOf(Box::new(keys.ty), Box::new(values.ty));
                        if contains_callback(&ty) {
                            (st, Err(unnamed(Problem::CallbackInMap, span)))
                        } else {
                            (st, Ok(hexpr(ty, true, HKind::MapLit(pair_entries(keys.items, values.items)))))
                        }
                    },
                }
            },
        }
    }
}

/// Check each map entry against the key and value types.
pub open spec fn check_entries(
    cx: &Ctx,
    st: Checker,
    entries: &Chain<MapEntry>,
    key: &Ty,
    value: &Ty,
) -> (Checker, Result<Chain<HEntry>, Stop>)
    decreases h_entries(entries), 0int, Chain::<u32>::Nil,
{
    match entries {
        Chain::Nil => (st, Ok(Chain::Nil)),
        Chain::Cons(head, tail) => {
            match check_expr(cx, st, &head.key, key) {
                (st, Err(stop)) => (st, Err(stop)),
                (st, Ok(key_h)) => {
                    match check_expr(cx, st, &head.value, value) {
                        (st, Err(stop)) => (st, Err(stop)),
                        (st, Ok(value_h)) => {
                            match check_entries(cx, st, tail, key, value) {
                                (st, Err(stop)) => (st, Err(stop)),
                                (st, Ok(rest)) => {
                                    (st, Ok(cons(HEntry { key: key_h, value: value_h }, rest)))
                                },
                            }
                        },
                    }
                },
            }
        },
    }
}

/// Whether a value can stand inside a string: an integer, a truth value,
/// or any text.
pub open spec fn interpolable(cx: &Ctx, ty: &Ty, span: Span) -> Result<bool, Stop>
{
    match ty {
        Ty::Int => Ok(true),
        Ty::Bool => Ok(true),
        Ty::Str => Ok(true),
        _ => {
            match core_class(cx, "Text", span) {
                Err(stop) => Err(stop),
                Ok(general) => {
                    compatible(cx, &general, ty)
                },
            }
        },
    }
}

/// Check the parts of an interpolated string.
pub open spec fn synth_interp(cx: &Ctx, st: Checker, parts: &Chain<InterpPart>) -> (Checker, Result<Chain<HPart>, Stop>)
    decreases h_parts(parts), 0int, Chain::<u32>::Nil,
{
    match parts {
        Chain::Nil => (st, Ok(Chain::Nil)),
        Chain::Cons(head, tail) => {
            match &**head {
                InterpPart::Lit(lit) => {
                    match synth_interp(cx, st, tail) {
                        (st, Err(stop)) => (st, Err(stop)),
                        (st, Ok(rest)) => {
                            (st, Ok(cons(HPart::Lit(*lit), rest)))
                        },
                    }
                },
                InterpPart::Value(expr) => {
                    match synth_expr(cx, st, expr) {
                        (st, Err(stop)) => (st, Err(stop)),
                        (st, Ok(value)) => {
                            match interpolable(cx, &value.ty, expr.span) {
                                Err(stop) => (st, Err(stop)),
                                Ok(fits) => {
                                    if !fits {
                                        (st, Err(unnamed(Problem::NotInterpolable { ty: value.ty }, expr.span)))
                                    } else {
                                        match synth_interp(cx, st, tail) {
                                            (st, Err(stop)) => (st, Err(stop)),
                                            (st, Ok(rest)) => {
                                                (st, Ok(cons(HPart::Value(value), rest)))
                                            },
                                        }
                                    }
                                },
                            }
                        },
                    }
                },
            }
        },
    }
}

/// Check one arithmetic or ordering operator. The class of the left
/// operand answers through its hook; plain texts and bytes join, and
/// integers compute.
pub open spec fn synth_arith(cx: &Ctx, st: Checker, op: BinOp, left: &Expr, right: &Expr) -> (Checker, Result<HExpr, Stop>)
    decreases h_expr(left) + h_expr(right) + 1, 8int, Chain::<u32>::Nil,
{
    match synth_expr(cx, st, left) {
        (st, Err(stop)) => (st, Err(stop)),
        (st, Ok(l)) => {
            match find_operator_hook(cx, &l.ty, hook_name(op)) {
                Some(hook) => {
                    proof {
                        lemma_one(*right);
                    }
                    operator_hook(cx, st, l, hook, hook_name(op), &one(*right), left.span)
                },
                None => {
                    if op == BinOp::Add && (l.ty == Ty::Str) {
                        match check_expr(cx, st, right, &Ty::Str) {
                            (st, Err(stop)) => (st, Err(stop)),
                            (st, Ok(r)) => {
                                match primitive_operator(cx, "String", "__add__", two(l, r), left.span) {
                                    Err(stop) => (st, Err(stop)),
                                    Ok(value) => {
                                        (st, Ok(value))
                                    },
                                }
                            },
                        }
                    } else if op == BinOp::Add && (l.ty == Ty::Bytes) {
                        match check_expr(cx, st, right, &Ty::Bytes) {
                            (st, Err(stop)) => (st, Err(stop)),
                            (st, Ok(r)) => {
                                match primitive_operator(cx, "Bytes", "__add__", two(l, r), left.span) {
                                    Err(stop) => (st, Err(stop)),
                                    Ok(value) => {
                                        (st, Ok(value))
                                    },
                                }
                            },
                        }
                    } else {
                        match expect_compatible(cx, &Ty::Int, l, left.span) {
                            Err(stop) => (st, Err(stop)),
                            Ok(l) => {
                                match check_expr(cx, st, right, &Ty::Int) {
                                    (st, Err(stop)) => (st, Err(stop)),
                                    (st, Ok(r)) => {
                                        match primitive_operator(cx, "Int", hook_name(op), two(l, r), left.span) {
                                            Err(stop) => (st, Err(stop)),
                                            Ok(value) => {
                                                (st, Ok(value))
                                            },
                                        }
                                    },
                                }
                            },
                        }
                    }
                },
            }
        },
    }
}

/// The primitive class whose equality compares a type.
pub open spec fn primitive_equality(ty: &Ty) -> Option<&'static str>
{
    match ty {
        Ty::Int => Some("Int"),
        Ty::Bool => Some("Bool"),
        Ty::Str => Some("String"),
        Ty::Bytes => Some("Bytes"),
        _ => None,
    }
}

/// Whether two types are compatible one way or the other.
pub open spec fn related(cx: &Ctx, left: &Ty, right: &Ty) -> Result<bool, Stop>
{
    match compatible(cx, left, right) {
        Err(stop) => Err(stop),
        Ok(forward) => {
            if forward {
                Ok(true)
            } else {
                compatible(cx, right, left)
            }
        },
    }
}

/// Whether values of a type compare by `==` without a hook.
pub open spec fn comparable(cx: &Ctx, ty: &Ty) -> Result<bool, Stop>
{
    match ty {
        Ty::Int => Ok(true),
        Ty::Bool => Ok(true),
        Ty::Str => Ok(true),
        _ => is_heap(cx, ty),
    }
}

/// Check an equality of two checked operands.
pub open spec fn equality(
    cx: &Ctx,
    op: BinOp,
    left: HExpr,
    right: HExpr,
    left_span: Span,
    right_span: Span,
) -> Result<HExpr, Stop>
{
    match related(cx, &left.ty, &right.ty) {
        Err(stop) => Err(stop),
        Ok(fits) => {
            if !fits {
                Err(mismatch(&left.ty, &right.ty, right_span))
            } else {
                let operand = if (left.ty == Ty::Never) { right.ty } else { left.ty };
                match &operand {
                    Ty::Tuple(_) => tuple_equality(cx, op, left, right, operand, left_span),
                    _ => {
                        match comparable(cx, &operand) {
                            Err(stop) => Err(stop),
                            Ok(compares) => {
                                if !compares {
                                    Err(Stop::Fail(Diag { problem: Problem::NotComparable { operand: operand }, subject: operator_text(op), span: left_span }))
                                } else {
                                    match primitive_equality(&operand) {
                                        Some(class) => primitive_operator(cx, class, hook_name(op), two(left, right), left_span),
                                        None => Ok(hexpr(Ty::Bool, true, HKind::Binary { op: op, operand_ty: operand, left: left, right: right })),
                                    }
                                }
                            },
                        }
                    },
                }
            }
        },
    }
}

/// Check an equality of tuples: it is structural and needs equal static
/// types.
pub open spec fn tuple_equality(
    cx: &Ctx,
    op: BinOp,
    left: HExpr,
    right: HExpr,
    operand: Ty,
    span: Span,
) -> Result<HExpr, Stop>
{
    if !(left.ty == right.ty) && !(left.ty == Ty::Never) && !(right.ty == Ty::Never) {
        Err(unnamed(Problem::TupleSidesDiffer { left: left.ty, right: right.ty }, span))
    } else {
        match tuple_comparable(cx, &operand) {
            Err(stop) => Err(stop),
            Ok(compares) => {
                if !compares {
                    Err(Stop::Fail(Diag { problem: Problem::TupleNotComparable { operand: operand }, subject: operator_text(op), span: span }))
                } else {
                    Ok(hexpr(Ty::Bool, true, HKind::Binary { op: op, operand_ty: operand, left: left, right: right }))
                }
            },
        }
    }
}

/// Check one binary operator.
pub open spec fn synth_binary(cx: &Ctx, st: Checker, op: BinOp, left: &Expr, right: &Expr) -> (Checker, Result<HExpr, Stop>)
    decreases h_expr(left) + h_expr(right) + 1, 9int, Chain::<u32>::Nil,
{
    if op != BinOp::Eq && op != BinOp::Ne {
        synth_arith(cx, st, op, left, right)
    } else {
        match synth_expr(cx, st, left) {
            (st, Err(stop)) => (st, Err(stop)),
            (st, Ok(l)) => {
                match find_operator_hook(cx, &l.ty, hook_name(op)) {
                    Some(hook) => {
                        proof {
                            lemma_one(*right);
                        }
                        operator_hook(cx, st, l, hook, hook_name(op), &one(*right), left.span)
                    },
                    None => {
                        match synth_expr(cx, st, right) {
                            (st, Err(stop)) => (st, Err(stop)),
                            (st, Ok(r)) => {
                                match equality(cx, op, l, r, left.span, right.span) {
                                    Err(stop) => (st, Err(stop)),
                                    Ok(value) => {
                                        (st, Ok(value))
                                    },
                                }
                            },
                        }
                    },
                }
            },
        }
    }
}

/// Check a negation or an inversion: the hook of the class, or the
/// integer operation.
pub open spec fn synth_unary(cx: &Ctx, st: Checker, hook: &str, inner: &Expr, span: Span) -> (Checker, Result<HExpr, Stop>)
    decreases h_expr(inner), 9int, Chain::<u32>::Nil,
{
    match synth_expr(cx, st, inner) {
        (st, Err(stop)) => (st, Err(stop)),
        (st, Ok(value)) => {
            match find_operator_hook(cx, &value.ty, hook) {
                Some(found) => operator_hook(cx, st, value, found, hook, &Chain::Nil, span),
                None => {
                    match expect_compatible(cx, &Ty::Int, value, inner.span) {
                        Err(stop) => (st, Err(stop)),
                        Ok(value) => {
                            match primitive_operator(cx, "Int", hook, one(value), span) {
                                Err(stop) => (st, Err(stop)),
                                Ok(result) => {
                                    (st, Ok(result))
                                },
                            }
                        },
                    }
                },
            }
        },
    }
}

/// Check `value is Type` and `value as Type`: the target is related to
/// the value and has the same type arguments.
pub open spec fn synth_is(
    cx: &Ctx,
    st: Checker,
    value: &Expr,
    ty: &TypeExpr,
    is_cast: bool,
    span: Span,
) -> (Checker, Result<HExpr, Stop>)
    decreases h_expr(value), 9int, Chain::<u32>::Nil,
{
    let what = if is_cast { chain_of("as"@) } else { chain_of("is"@) };
    match synth_expr(cx, st, value) {
        (st, Err(stop)) => (st, Err(stop)),
        (st, Ok(v)) => {
            match class_of(cx, &v.ty) {
                None => (st, Err(named(Problem::NotAnInstance { found: v.ty }, &what, value.span))),
                Some(from) => {
                    match resolve_now(cx, &st.env, ty) {
                        Err(stop) => (st, Err(stop)),
                        Ok(target) => {
                            match class_of(cx, &target) {
                                None => (st, Err(named(Problem::TargetNotClass { found: target }, &what, ty.span))),
                                Some(to) => {
                                    if !(class_extends(cx, to.class, from.class) || class_extends(cx, from.class, to.class)) || !(from.args == to.args) {
                                        (st, Err(named(Problem::NeverSucceeds { from: v.ty, to: target }, &what, span)))
                                    } else if is_cast {
                                        let mutable = v.mutable;
                                        (st, Ok(hexpr(target, mutable, HKind::CastType { value: v, ty: target })))
                                    } else {
                                        (st, Ok(hexpr(Ty::Bool, true, HKind::IsType { value: v, ty: target })))
                                    }
                                },
                            }
                        },
                    }
                },
            }
        },
    }
}

/// The element of a tuple at a literal index.
pub open spec fn tuple_element(recv: HExpr, items: Chain<Ty>, index: &Expr) -> Result<HExpr, Stop>
{
    match &*index.kind {
        ExprKind::Int(position) => {
            if *position < 0 || *position > 0xffff_ffff {
                Err(unnamed(Problem::TupleIndexRange { len: count(&items) }, index.span))
            } else {
                match nth(&items, *position as u32) {
                    None => Err(unnamed(Problem::TupleIndexRange { len: count(&items) }, index.span)),
                    Some(ty) => {
                        let mutable = recv.mutable;
                        Ok(hexpr(*ty, mutable, HKind::TupleGet { tuple: recv, index: *position as u32 }))
                    },
                }
            }
        },
        _ => Err(unnamed(Problem::TupleIndexNotLiteral, index.span)),
    }
}

/// Check an index: a list by position, a map by key, a tuple by literal.
pub open spec fn synth_index(cx: &Ctx, st: Checker, recv: &Expr, index: &Expr) -> (Checker, Result<HExpr, Stop>)
    decreases h_expr(recv) + h_expr(index), 9int, Chain::<u32>::Nil,
{
    match synth_expr(cx, st, recv) {
        (st, Err(stop)) => (st, Err(stop)),
        (st, Ok(recv_h)) => {
            match recv_h.ty {
                Ty::ListOf(item) => {
                    match check_expr(cx, st, index, &Ty::Int) {
                        (st, Err(stop)) => (st, Err(stop)),
                        (st, Ok(at)) => {
                            let mutable = recv_h.mutable;
                            (st, Ok(hexpr(*item, mutable, HKind::Native { op: NativeOp::ListAt, args: two(recv_h, at) })))
                        },
                    }
                },
                Ty::MapOf(key, value) => {
                    match map_key_parameter(cx, &key, MapKeyUse::Lookup) {
                        Err(stop) => (st, Err(stop)),
                        Ok(param) => {
                            match check_expr(cx, st, index, &param.ty) {
                                (st, Err(stop)) => (st, Err(stop)),
                                (st, Ok(at)) => {
                                    let mutable = recv_h.mutable;
                                    (st, Ok(hexpr(*value, mutable, HKind::Native { op: NativeOp::MapAt, args: two(recv_h, at) })))
                                },
                            }
                        },
                    }
                },
                Ty::Tuple(items) => {
                    match tuple_element(recv_h, items, index) {
                        Err(stop) => (st, Err(stop)),
                        Ok(value) => {
                            (st, Ok(value))
                        },
                    }
                },
                found => (st, Err(unnamed(Problem::NotIndexable { ty: found }, recv.span))),
            }
        },
    }
}

/// Whether an expression is `self`.
pub open spec fn is_self(expr: &Expr) -> bool
{
    match &*expr.kind {
        ExprKind::SelfRef => true,
        _ => false,
    }
}

/// The class whose initializer assigns a field through `self` here.
pub open spec fn ctor_receiver(st: &Checker, recv: &Expr) -> Option<u32>
{
    match &st.ctor {
        Some(c) => {
            if is_self(recv) {
                Some(c.class)
            } else {
                None
            }
        },
        None => None,
    }
}

/// Whether an initializer has assigned one field.
pub open spec fn field_inited(st: &Checker, field: u32) -> bool
{
    match &st.ctor {
        Some(c) => {
            match nth(&c.state.inited, field) {
                Some(set) => *set,
                None => false,
            }
        },
        None => true,
    }
}

/// The declared type of one field.
pub open spec fn field_ty_at(cx: &Ctx, class: u32, field: u32) -> Ty
{
    match nth(&class_at(cx, class).field_tys, field) {
        Some(ty) => *ty,
        None => Ty::Never,
    }
}

/// The problem of a field that a class lacks.
pub open spec fn unknown_field(class: u32, name: &Text, span: Span) -> Stop
{
    named(Problem::UnknownField { class: class }, name, span)
}

/// Read a field of `self` inside an initializer: it has to be assigned.
pub open spec fn ctor_field(cx: &Ctx, st: &Checker, class: u32, name: &Text, span: Span) -> Result<HExpr, Stop>
{
    match find_field(cx, class, name) {
        None => Err(unknown_field(class, name, span)),
        Some(field) => {
            if !field_inited(st, field) {
                Err(named(Problem::FieldReadEarly, name, span))
            } else {
                let recv = self_value(st);
                let mutable = recv.mutable;
                Ok(hexpr(field_ty_at(cx, class, field), mutable, HKind::FieldGet { recv: recv, field: field }))
            }
        },
    }
}

/// Check a read of one field of a value.
pub open spec fn value_field(cx: &Ctx, recv: HExpr, name: &Text, recv_span: Span, name_span: Span) -> Result<HExpr, Stop>
{
    match class_of(cx, &recv.ty) {
        None => Err(unnamed(Problem::NoFields { ty: recv.ty }, recv_span)),
        Some(nominal) => {
            match find_field(cx, nominal.class, name) {
                None => Err(unknown_field(nominal.class, name, name_span)),
                Some(field) => {
                    let ty = substitute(&field_ty_at(cx, nominal.class, field), &nominal.args, &Chain::Nil);
                    let mutable = recv.mutable;
                    Ok(hexpr(ty, mutable, HKind::FieldGet { recv: recv, field: field }))
                },
            }
        },
    }
}

/// Whether a receiver is the bare name `sys` that no local hides.
pub open spec fn is_sys_root(st: Checker, recv: &Expr) -> (Checker, Result<bool, Stop>)
{
    if is_name(recv, "sys") {
        sys_in_scope(st)
    } else {
        (st, Ok(false))
    }
}

/// Check a field of a value, or of the object under initialization.
pub open spec fn synth_own_field(cx: &Ctx, st: Checker, recv: &Expr, name: &Text, name_span: Span) -> (Checker, Result<HExpr, Stop>)
    decreases h_expr(recv), 8int, Chain::<u32>::Nil,
{
    match ctor_receiver(&st, recv) {
        Some(class) => {
            match ctor_field(cx, &st, class, name, name_span) {
                Err(stop) => (st, Err(stop)),
                Ok(value) => {
                    (st, Ok(value))
                },
            }
        },
        None => {
            match synth_expr(cx, st, recv) {
                (st, Err(stop)) => (st, Err(stop)),
                (st, Ok(recv_h)) => {
                    match value_field(cx, recv_h, name, recv.span, name_span) {
                        Err(stop) => (st, Err(stop)),
                        Ok(value) => {
                            (st, Ok(value))
                        },
                    }
                },
            }
        },
    }
}

/// Check a field: a qualified constructor, an operation value, or a
/// field of a value.
pub open spec fn synth_field(
    cx: &Ctx,
    st: Checker,
    recv: &Expr,
    name: &Text,
    name_span: Span,
    expected: Option<&Ty>,
) -> (Checker, Result<HExpr, Stop>)
    decreases h_expr(recv), 9int, Chain::<u32>::Nil,
{
    match enum_qualifier(cx, &st, recv) {
        Some(family) => {
            match qualified_arm(cx, family, name, name_span) {
                Err(stop) => (st, Err(stop)),
                Ok(arm) => {
                    construct_arm(cx, st, arm, &Chain::Nil, &Chain::Nil, expected, name_span)
                },
            }
        },
        None => {
            match sys_group_of(cx, st, recv) {
                (st, Err(stop)) => (st, Err(stop)),
                (st, Ok(group)) => {
                    match group {
                        Some(found) => {
                            match check_sys_value(cx, &found, name, name_span) {
                                Err(stop) => (st, Err(stop)),
                                Ok(value) => {
                                    (st, Ok(value))
                                },
                            }
                        },
                        None => {
                            match is_sys_root(st, recv) {
                                (st, Err(stop)) => (st, Err(stop)),
                                (st, Ok(root)) => {
                                    if root {
                                        if sys_group_name(&cx.bundle.groups, name).is_some() {
                                            (st, Err(named(Problem::SysGroupNotValue, name, name_span)))
                                        } else {
                                            (st, Err(named(Problem::NoSysGroup, name, name_span)))
                                        }
                                    } else {
                                        synth_own_field(cx, st, recv, name, name_span)
                                    }
                                },
                            }
                        },
                    }
                },
            }
        },
    }
}

/// The class that a bare receiver names, for `Class.spawn`.
pub open spec fn named_class(cx: &Ctx, env: &TyEnv, recv: &Expr) -> Option<u32>
{
    match &*recv.kind {
        ExprKind::Name(name) => lookup_type(cx, name, env),
        _ => None,
    }
}

/// Whether a receiver is the type name `Fault`.
pub open spec fn is_fault_type(cx: &Ctx, st: &Checker, recv: &Expr) -> bool
{
    match &*recv.kind {
        ExprKind::Name(name) => ((*name)@ == "Fault"@) && lookup_slot(st, name).is_none() && lookup_type(cx, name, &st.env).is_none(),
        _ => false,
    }
}

/// The qualified name of a member of a module that a `use` line binds.
pub open spec fn module_member(cx: &Ctx, st: Checker, recv: &Expr, name: &Text) -> (Checker, Result<Option<Text>, Stop>)
{
    match &*recv.kind {
        ExprKind::Name(alias) => {
            match use_binding(cx, st, alias) {
                (st, Err(stop)) => (st, Err(stop)),
                (st, Ok(binding)) => {
                    match binding {
                        Some(UseBinding::ModulePath(_)) => (st, Ok(Some(dotted(alias, name)))),
                        _ => (st, Ok(None)),
                    }
                },
            }
        },
        _ => (st, Ok(None)),
    }
}

/// Check a method call: a qualified constructor, an operation call, a
/// spawn, a call into a module, a fault, or a method of a value.
pub open spec fn synth_method_call(
    cx: &Ctx,
    st: Checker,
    recv: &Expr,
    name: &Text,
    name_span: Span,
    type_args: &Chain<TypeExpr>,
    args: &Chain<Expr>,
    expected: Option<&Ty>,
    span: Span,
) -> (Checker, Result<HExpr, Stop>)
    decreases h_expr(recv) + h_exprs(args), 10int, Chain::<u32>::Nil,
{
    match enum_qualifier(cx, &st, recv) {
        Some(family) => {
            match qualified_arm(cx, family, name, name_span) {
                Err(stop) => (st, Err(stop)),
                Ok(arm) => {
                    construct_arm(cx, st, arm, type_args, args, expected, span)
                },
            }
        },
        None => {
            match sys_group_of(cx, st, recv) {
                (st, Err(stop)) => (st, Err(stop)),
                (st, Ok(group)) => {
                    match group {
                        Some(found) => check_sys_call(cx, st, &found, name, name_span, type_args, args, span),
                        None => {
                            let spawned = if ((*name)@ == "spawn"@) { named_class(cx, &st.env, recv) } else { None };
                            match spawned {
                                Some(class) => {
                                    if !type_args.is_empty() {
                                        (st, Err(unnamed(Problem::SpawnTakesNoTypeArguments, name_span)))
                                    } else {
                                        check_spawn(cx, st, class, args, name_span, span)
                                    }
                                },
                                None => synth_member_call(cx, st, recv, name, name_span, type_args, args, expected, span),
                            }
                        },
                    }
                },
            }
        },
    }
}

/// Check a call of a module member, or of a method of a value.
pub open spec fn synth_member_call(
    cx: &Ctx,
    st: Checker,
    recv: &Expr,
    name: &Text,
    name_span: Span,
    type_args: &Chain<TypeExpr>,
    args: &Chain<Expr>,
    expected: Option<&Ty>,
    span: Span,
) -> (Checker, Result<HExpr, Stop>)
    decreases h_expr(recv) + h_exprs(args), 9int, Chain::<u32>::Nil,
{
    match module_member(cx, st, recv, name) {
        (st, Err(stop)) => (st, Err(stop)),
        (st, Ok(member)) => {
            match member {
                Some(qualified) => {
                    if find_id(&cx.func_index, &qualified).is_none() && lookup_type(cx, &qualified, &st.env).is_none() {
                        (st, Err(named(Problem::NoExport, name, name_span)))
                    } else {
                        call_named(cx, st, &qualified, name_span, type_args, args, expected, span)
                    }
                },
                None => {
                    if is_fault_type(cx, &st, recv) {
                        check_fault_denied(cx, st, name, name_span, type_args, args, span)
                    } else {
                        match synth_expr(cx, st, recv) {
                            (st, Err(stop)) => (st, Err(stop)),
                            (st, Ok(value)) => {
                                check_value_method(cx, st, value, name, name_span, type_args, args, expected, span)
                            },
                        }
                    }
                },
            }
        },
    }
}

/// Check a method call on a checked receiver: control methods first,
/// then the methods of the class, its defaults, those of a bound, and
/// the native ones.
pub open spec fn check_value_method(
    cx: &Ctx,
    st: Checker,
    recv: HExpr,
    name: &Text,
    name_span: Span,
    type_args: &Chain<TypeExpr>,
    args: &Chain<Expr>,
    expected: Option<&Ty>,
    span: Span,
) -> (Checker, Result<HExpr, Stop>)
    decreases h_exprs(args), 9int, Chain::<u32>::Nil,
{
    if is_control_type(&recv.ty) {
        let ty = recv.ty;
        match check_control_method(cx, st, recv, name, name_span, type_args, args, span) {
            (st, Err(stop)) => (st, Err(stop)),
            (st, Ok(out)) => {
                match out {
                    Some(value) => (st, Ok(value)),
                    None => (st, Err(no_control_method(&ty, name, name_span))),
                }
            },
        }
    } else {
        match class_of(cx, &recv.ty) {
            Some(nominal) => check_class_method(cx, st, recv, nominal, name, name_span, type_args, args, expected, span),
            None => {
                match bound_method(cx, &st.env, &recv.ty, name, name_span) {
                    Err(stop) => (st, Err(stop)),
                    Ok(bound) => {
                        match bound {
                            Some(method) => check_interface_method(cx, st, recv, method, name, name_span, type_args, args, expected, span),
                            None => {
                                if !type_args.is_empty() {
                                    (st, Err(unnamed(Problem::NativeTakesNoTypeArguments, name_span)))
                                } else {
                                    check_native_method(cx, st, recv, name, name_span, args, span)
                                }
                            },
                        }
                    },
                }
            },
        }
    }
}

/// Check a method call on an instance of a class or enum.
pub open spec fn check_class_method(
    cx: &Ctx,
    st: Checker,
    recv: HExpr,
    nominal: Nominal,
    name: &Text,
    name_span: Span,
    type_args: &Chain<TypeExpr>,
    args: &Chain<Expr>,
    expected: Option<&Ty>,
    span: Span,
) -> (Checker, Result<HExpr, Stop>)
    decreases h_exprs(args), 5int, Chain::<u32>::Nil,
{
    match find_method_owner(cx, nominal.class, name) {
        Some(found) => check_declared_method(cx, st, recv, nominal.class, &nominal.args, found, name, name_span, type_args, args, expected, span),
        None => {
            match default_method(cx, &st.env, &recv.ty, name, name_span) {
                Err(stop) => (st, Err(stop)),
                Ok(default) => {
                    match default {
                        Some(method) => check_interface_method(cx, st, recv, method, name, name_span, type_args, args, expected, span),
                        None => {
                            if args.is_empty() && type_args.is_empty() && ((*name)@ == "freeze"@) {
                                (st, Ok(freeze_expr(recv)))
                            } else if args.is_empty() && type_args.is_empty() && ((*name)@ == "digest"@) {
                                (st, Ok(digest_expr(recv)))
                            } else {
                                (st, Err(named(Problem::NoMethod { class: nominal.class }, name, name_span)))
                            }
                        },
                    }
                },
            }
        },
    }
}

/// The markers of a list with the first ones set.
pub open spec fn set_first(flags: Chain<bool>, total: u32) -> Chain<bool>
    decreases flags,
{
    match flags {
        Chain::Nil => Chain::Nil,
        Chain::Cons(head, tail) => {
            if total == 0 {
                Chain::Cons(head, tail)
            } else {
                cons(true, set_first(*tail, (total - 1) as u32))
            }
        },
    }
}

/// Record that the parent initializer has run: it assigns the inherited
/// fields.
pub open spec fn super_done(st: Checker, inherited: u32) -> Checker
{
    match st.ctor {
        None => Checker { ctor: None, ..st },
        Some(c) => Checker { ctor: Some(CtorCtx { state: CtorState { inited: set_first(c.state.inited, inherited), super_done: true }, ..c }), ..st },
    }
}

/// Why `super.init` is not valid here.
pub open spec fn super_init_problem(st: &Checker) -> Option<Problem>
{
    match &st.ctor {
        None => Some(Problem::SuperInitOutsideInit),
        Some(c) => {
            if !c.needs_super {
                Some(Problem::ParentHasNoInit)
            } else if c.state.super_done {
                Some(Problem::SuperInitTwice)
            } else {
                None
            }
        },
    }
}

/// Check a call of the parent initializer.
pub open spec fn check_super_init(
    cx: &Ctx,
    st: Checker,
    parent: u32,
    parent_args: &Chain<Ty>,
    args: &Chain<Expr>,
    span: Span,
) -> (Checker, Result<HExpr, Stop>)
    decreases h_exprs(args), 4int, Chain::<u32>::Nil,
{
    match super_init_problem(&st) {
        Some(problem) => (st, Err(unnamed(problem, span))),
        None => {
            match &class_at(cx, parent).init {
                None => (st, Err(unnamed(Problem::ParentHasNoInit, span))),
                Some(init) => {
                    let params = substitute_all(&init.params, parent_args, &Chain::Nil);
                    match charge_row(cx, st, &init.row, span) {
                        (st, Err(stop)) => (st, Err(stop)),
                        (st, Ok(_charged)) => {
                            match check_args_simple(cx, st, args, &params, &init.param_muts, &init.param_names, &chain_of("super.init"@), span) {
                                (st, Err(stop)) => (st, Err(stop)),
                                (st, Ok(checked)) => {
                                    let st = super_done(st, count(&class_at(cx, parent).field_tys));
                                    let recv = self_value(&st);
                                    (st, Ok(hexpr(Ty::Unit, true, HKind::Call { func: init.func, targs: *parent_args, rowargs: Chain::Nil, args: cons(recv, checked) })))
                                },
                            }
                        },
                    }
                },
            }
        },
    }
}

/// Check a call of one method of the superclass, read in the view of the
/// subclass.
pub open spec fn check_super_method(
    cx: &Ctx,
    st: Checker,
    class: u32,
    parent: u32,
    parent_args: &Chain<Ty>,
    name: &Text,
    name_span: Span,
    args: &Chain<Expr>,
    span: Span,
) -> (Checker, Result<HExpr, Stop>)
    decreases h_exprs(args), 4int, Chain::<u32>::Nil,
{
    let arity = count(&class_at(cx, class).type_params);
    match lookup_method(cx, parent, *parent_args, arity, name) {
        None => (st, Err(named(Problem::NoSuperMethod, name, name_span))),
        Some(found) => {
            match synth_self(st, span) {
                (st, Err(stop)) => (st, Err(stop)),
                (st, Ok(recv)) => {
                    if found.sig.mut_self && !recv.mutable {
                        (st, Err(named(Problem::ReadOnlyReceiver, name, name_span)))
                    } else {
                        let sig = Signature { type_bounds: found.sig.own_type_bounds, ..method_signature(&Chain::Nil, &found.sig) };
                        let pre = unsolved(&sig);
                        match check_poly_call(cx, st, name, &sig, pre, 0u32, &Chain::Nil, args, None, span) {
                            (st, Err(stop)) => (st, Err(stop)),
                            (st, Ok(call)) => {
                                (st, Ok(hexpr(call.ret, true, HKind::Call { func: found.sig.func, targs: concat(found.owner_args, call.targs), rowargs: call.rowargs, args: cons(recv, call.args) })))
                            },
                        }
                    }
                },
            }
        },
    }
}

/// Check a call through `super`.
pub open spec fn synth_super_call(
    cx: &Ctx,
    st: Checker,
    name: &Text,
    name_span: Span,
    args: &Chain<Expr>,
    span: Span,
) -> (Checker, Result<HExpr, Stop>)
    decreases h_exprs(args), 5int, Chain::<u32>::Nil,
{
    match st.self_class {
        None => (st, Err(unnamed(Problem::SuperOutsideMethod, span))),
        Some(class) => {
            match class_at(cx, class).parent {
                None => (st, Err(unnamed(Problem::NoSuperclass, span))),
                Some(parent) => {
                    let parent_args = &meta_at(cx, class).parent_args;
                    if ((*name)@ == "init"@) {
                        check_super_init(cx, st, parent, parent_args, args, span)
                    } else {
                        check_super_method(cx, st, class, parent, parent_args, name, name_span, args, span)
                    }
                },
            }
        },
    }
}

/// The parameters of a closure. Names are distinct.
pub open spec fn closure_params(cx: &Ctx, env: &TyEnv, params: &Chain<Param>, seen: Chain<Text>) -> Result<Params, Stop>
    decreases params,
{
    match params {
        Chain::Nil => Ok(Params { types: Chain::Nil, muts: Chain::Nil, names: Chain::Nil }),
        Chain::Cons(head, tail) => {
            if holds_name(&seen, &head.name) {
                Err(named(Problem::DuplicateParameter, &head.name, head.span))
            } else {
                match resolve_now(cx, env, &head.ty) {
                    Err(stop) => Err(stop),
                    Ok(ty) => {
                        match closure_params(cx, env, tail, cons(head.name, seen)) {
                            Err(stop) => Err(stop),
                            Ok(rest) => {
                                Ok(Params { types: cons(ty, rest.types), muts: cons(head.mutable, rest.muts), names: cons(head.name, rest.names) })
                            },
                        }
                    },
                }
            }
        },
    }
}

/// The locals of parameters.
pub open spec fn param_locals(types: &Chain<Ty>, muts: &Chain<bool>) -> Chain<LocalVar>
    decreases types,
{
    match (types, muts) {
        (Chain::Cons(ty, types_rest), Chain::Cons(mutable, muts_rest)) => cons(LocalVar { ty: **ty, mutable: **mutable }, param_locals(types_rest, muts_rest)),
        _ => Chain::Nil,
    }
}

/// The scope of parameters: one slot for each name.
pub open spec fn param_scope(names: &Chain<Text>, slot: u32) -> Chain<ScopeEntry>
    decreases names,
{
    match names {
        Chain::Nil => Chain::Nil,
        Chain::Cons(head, tail) => cons(ScopeEntry { name: **head, slot: slot }, param_scope(tail, slot.wrapping_add(1))),
    }
}

/// The types of locals.
pub open spec fn local_types(locals: &Chain<LocalVar>) -> Chain<Ty>
    decreases locals,
{
    match locals {
        Chain::Nil => Chain::Nil,
        Chain::Cons(head, tail) => cons(head.ty, local_types(tail)),
    }
}

/// The types of captures.
pub open spec fn capture_types(captures: &Chain<CaptureRec>) -> Chain<Ty>
    decreases captures,
{
    match captures {
        Chain::Nil => Chain::Nil,
        Chain::Cons(head, tail) => cons(head.ty, capture_types(tail)),
    }
}

/// The values that a closure captures, read in the callable around it.
pub open spec fn capture_values(captures: &Chain<CaptureRec>) -> Chain<HExpr>
    decreases captures,
{
    match captures {
        Chain::Nil => Chain::Nil,
        Chain::Cons(head, tail) => cons(name_expr(NameRes { source: head.source, ty: head.ty, mutable: head.mutable }), capture_values(tail)),
    }
}

/// The result type that a closure declares or that is expected of it.
pub open spec fn closure_ret(cx: &Ctx, env: &TyEnv, ret: &Option<TypeExpr>, expected: Option<Ty>) -> Result<Option<Ty>, Stop>
{
    match ret {
        None => Ok(expected),
        Some(written) => {
            match resolve_now(cx, env, written) {
                Err(stop) => Err(stop),
                Ok(ty) => {
                    Ok(Some(ty))
                },
            }
        },
    }
}

/// The mode in which a body of one result type is checked.
pub open spec fn body_mode(ret: &Ty) -> BlockMode
{
    if (*ret == Ty::Unit) {
        BlockMode::Discard
    } else {
        BlockMode::Value(*ret)
    }
}

/// The block mode of a closure body.
pub open spec fn closure_mode(ret: &Option<Ty>) -> BlockMode
{
    match ret {
        Some(ty) => body_mode(ty),
        None => BlockMode::Synth,
    }
}

/// The result kind of a closure.
pub open spec fn closure_kind(ret: &Option<Ty>) -> RetKind
{
    match ret {
        Some(ty) => RetKind::Known(*ty),
        None => RetKind::ClosureInfer,
    }
}

/// The result type of a checked closure: what it declares, or what its
/// body gives.
pub open spec fn closure_result(ret: Option<Ty>, body: &Ty) -> Ty
{
    match ret {
        Some(ty) => ty,
        None => {
            if (*body == Ty::Never) {
                Ty::Unit
            } else {
                *body
            }
        },
    }
}

/// The state of a closure inside a callable.
pub open spec fn enter_closure(st: Checker, params: &Params, ret: RetKind, row: &Row) -> Checker
{
    let env = st.env;
    let out = Output { next_func: st.out.next_func, made: st.out.made };
    let around = Checker { out: Output { next_func: 0, made: Chain::Nil }, ..st };
    Checker {
        outer: Some(Box::new(around)),
        locals: param_locals(&params.types, &params.muts),
        scopes: one(param_scope(&params.names, 0u32)),
        captures: Chain::Nil,
        is_closure: true,
        loops: Chain::Nil,
        saw_return: false,
        ret: ret,
        self_class: None,
        ctor: None,
        env: env,
        declared_row: *row,
        collect_row: false,
        binds: Chain::Nil,
        out: out,
    }
}

/// The callable around a closure, with what the closure has added to the
/// function table.
pub open spec fn leave_closure(st: Checker) -> Checker
{
    match st.outer {
        Some(around) => Checker { out: st.out, ..*around },
        None => Checker { outer: None, ..st },
    }
}

/// Check a closure.
pub open spec fn check_closure(
    cx: &Ctx,
    st: Checker,
    params: &Chain<Param>,
    ret: &Option<TypeExpr>,
    row: &Chain<RowItem>,
    expected: Option<Ty>,
    body: &Chain<Stmt>,
    span: Span,
) -> (Checker, Result<HExpr, Stop>)
    decreases h_stmts(body), 5int, Chain::<u32>::Nil,
{
    match closure_params(cx, &st.env, params, Chain::Nil) {
        Err(stop) => (st, Err(stop)),
        Ok(declared) => {
            match closure_ret(cx, &st.env, ret, expected) {
                Err(stop) => (st, Err(stop)),
                Ok(ret_ty) => {
                    match resolve_row(cx, &st.env, row) {
                        Err(stop) => (st, Err(stop)),
                        Ok(effects) => {
                            let mode = closure_mode(&ret_ty);
                            let st = enter_closure(st, &declared, closure_kind(&ret_ty), &effects);
                            let (st, result) = check_block(cx, st, body, &mode, span);
                            match result {
                                Err(stop) => (leave_closure(st), Err(stop)),
                                Ok(block) => {
                                    let values = capture_values(&st.captures);
                                    let captures = capture_types(&st.captures);
                                    let locals = local_types(&st.locals);
                                    let ty = closure_result(ret_ty, &block.ty);
                                    let st = leave_closure(st);
                                    let fn_ty = Ty::Fn(declared.types, declared.muts, Box::new(ty), effects);
                                    let func = HirFunc {
                                        imported: false,
                                        core: st.env.core_scope,
                                        source_span: source_span(span, st.env.core_scope),
                                        name: generated_name("<closure ", st.out.next_func),
                                        type_params: count(&st.env.type_names),
                                        type_bounds: st.env.type_bounds,
                                        effect_params: count(&st.env.effect_names),
                                        params: declared.types,
                                        param_muts: declared.muts,
                                        param_names: declared.names,
                                        ret: ty,
                                        row: effects,
                                        captures: captures,
                                        locals: locals,
                                        body: block.body,
                                    };
                                    let (st, index) = push_func(st, func);
                                    (st, Ok(hexpr(fn_ty, true, HKind::MakeClosure { func: index, captures: values })))
                                },
                            }
                        },
                    }
                },
            }
        },
    }
}

/// Check a tuple literal without an expected type.
pub open spec fn synth_tuple(cx: &Ctx, st: Checker, items: &Chain<Expr>, span: Span) -> (Checker, Result<HExpr, Stop>)
    decreases h_exprs(items), 1int, Chain::<u32>::Nil,
{
    match synth_each(cx, st, items) {
        (st, Err(stop)) => (st, Err(stop)),
        (st, Ok(checked)) => {
            let ty = Ty::Tuple(types_of(&checked));
            if contains_callback(&ty) {
                (st, Err(unnamed(Problem::CallbackInTuple, span)))
            } else {
                (st, Ok(hexpr(ty, true, HKind::TupleLit(checked))))
            }
        },
    }
}

/// Check a list literal without an expected type.
pub open spec fn synth_list(cx: &Ctx, st: Checker, items: &Chain<Expr>, span: Span) -> (Checker, Result<HExpr, Stop>)
    decreases h_exprs(items), 2int, Chain::<u32>::Nil,
{
    if items.is_empty() {
        (st, Err(unnamed(Problem::EmptyList, span)))
    } else {
        match synth_join_elems(cx, st, items) {
            (st, Err(stop)) => (st, Err(stop)),
            (st, Ok(found)) => {
                let ty = Ty::ListOf(Box::new(found.ty));
                if contains_callback(&ty) {
                    (st, Err(unnamed(Problem::CallbackInList, span)))
                } else {
                    (st, Ok(hexpr(ty, true, HKind::ListLit(found.items))))
                }
            },
        }
    }
}

/// Check an interpolated string.
pub open spec fn synth_text(cx: &Ctx, st: Checker, parts: &Chain<InterpPart>) -> (Checker, Result<HExpr, Stop>)
    decreases h_parts(parts), 1int, Chain::<u32>::Nil,
{
    match synth_interp(cx, st, parts) {
        (st, Err(stop)) => (st, Err(stop)),
        (st, Ok(checked)) => {
            (st, Ok(literal(Ty::Str, HKind::Interp(checked))))
        },
    }
}

/// Check a negation.
pub open spec fn synth_not(cx: &Ctx, st: Checker, inner: &Expr, span: Span) -> (Checker, Result<HExpr, Stop>)
    decreases h_expr(inner), 9int, Chain::<u32>::Nil,
{
    match check_expr(cx, st, inner, &Ty::Bool) {
        (st, Err(stop)) => (st, Err(stop)),
        (st, Ok(value)) => {
            match primitive_operator(cx, "Bool", "__not__", one(value), span) {
                Err(stop) => (st, Err(stop)),
                Ok(result) => {
                    (st, Ok(result))
                },
            }
        },
    }
}

/// Check `and` and `or`.
pub open spec fn synth_logic(cx: &Ctx, st: Checker, left: &Expr, right: &Expr, both: bool) -> (Checker, Result<HExpr, Stop>)
    decreases h_expr(left) + h_expr(right), 9int, Chain::<u32>::Nil,
{
    match check_expr(cx, st, left, &Ty::Bool) {
        (st, Err(stop)) => (st, Err(stop)),
        (st, Ok(l)) => {
            match check_expr(cx, st, right, &Ty::Bool) {
                (st, Err(stop)) => (st, Err(stop)),
                (st, Ok(r)) => {
                    (st, Ok(literal(Ty::Bool, if both { HKind::And(l, r) } else { HKind::Or(l, r) })))
                },
            }
        },
    }
}

/// Synthesize an expression type.
pub open spec fn synth_expr(cx: &Ctx, st: Checker, expr: &Expr) -> (Checker, Result<HExpr, Stop>)
    decreases h_expr(expr), 0int, Chain::<u32>::Nil,
{
    match &*expr.kind {
        ExprKind::Unit => (st, Ok(literal(Ty::Unit, HKind::Unit))),
        ExprKind::Int(value) => (st, Ok(literal(Ty::Int, HKind::Int(*value)))),
        ExprKind::Float(bits) => (st, Ok(literal(Ty::Float, HKind::Float(*bits)))),
        ExprKind::Str(value) => (st, Ok(literal(Ty::Str, HKind::Str(*value)))),
        ExprKind::Bytes(value) => (st, Ok(literal(Ty::Bytes, HKind::Bytes(*value)))),
        ExprKind::Bool(value) => (st, Ok(literal(Ty::Bool, HKind::Bool(*value)))),
        ExprKind::Interp(parts) => synth_text(cx, st, parts),
        ExprKind::SelfRef => synth_self(st, expr.span),
        ExprKind::Name(name) => synth_name(cx, st, name, expr.span),
        ExprKind::Not(inner) => synth_not(cx, st, inner, expr.span),
        ExprKind::Neg(inner) => synth_unary(cx, st, "__neg__", inner, expr.span),
        ExprKind::Invert(inner) => synth_unary(cx, st, "__invert__", inner, expr.span),
        ExprKind::Binary { op, left, right } => synth_binary(cx, st, *op, left, right),
        ExprKind::And(left, right) => synth_logic(cx, st, left, right, true),
        ExprKind::Or(left, right) => synth_logic(cx, st, left, right, false),
        ExprKind::Is { value, ty } => synth_is(cx, st, value, ty, false, expr.span),
        ExprKind::Cast { value, ty } => synth_is(cx, st, value, ty, true, expr.span),
        ExprKind::Call { name, name_span, type_args, args } => call_named(cx, st, name, *name_span, type_args, args, None, expr.span),
        ExprKind::CallExpr { callee, args } => {
            match synth_expr(cx, st, callee) {
                (st, Err(stop)) => (st, Err(stop)),
                (st, Ok(value)) => {
                    synth_call_value(cx, st, value, args, callee.span, expr.span)
                },
            }
        },
        ExprKind::Field { recv, name, name_span } => synth_field(cx, st, recv, name, *name_span, None),
        ExprKind::MethodCall { recv, name, name_span, type_args, args } => synth_method_call(cx, st, recv, name, *name_span, type_args, args, None, expr.span),
        ExprKind::SuperCall { name, name_span, args } => synth_super_call(cx, st, name, *name_span, args, expr.span),
        ExprKind::Index { recv, index } => synth_index(cx, st, recv, index),
        ExprKind::Propagate(value) => check_propagate(cx, st, value, expr.span),
        ExprKind::TupleLit(items) => synth_tuple(cx, st, items, expr.span),
        ExprKind::ListLit(items) => synth_list(cx, st, items, expr.span),
        ExprKind::MapLit(entries) => synth_map(cx, st, entries, expr.span),
        ExprKind::Closure { params, ret, row, body } => check_closure(cx, st, params, ret, row, None, body, expr.span),
        ExprKind::If { branches, else_body } => check_if(cx, st, branches, else_body, &BlockMode::Synth, expr.span),
        ExprKind::Case { scrut, arms } => check_case(cx, st, scrut, arms, &BlockMode::Synth, expr.span),
        ExprKind::Select(arms) => check_select(cx, st, arms, &BlockMode::Synth, expr.span),
        ExprKind::Loop(body) => check_loop(cx, st, body, &BlockMode::Synth, expr.span),
        ExprKind::Labeled { label, value: _ } => (st, Err(named(Problem::LabelNotValid, label, expr.span))),
    }
}

/// The result type that an expected function type asks of a closure.
pub open spec fn expected_ret(expected: &Ty) -> Option<Ty>
{
    match callable_parts(expected) {
        Some((_, ret, _)) => Some(*ret),
        None => None,
    }
}

/// Check a synthesized expression against an expected type.
pub open spec fn fits_expected(
    cx: &Ctx,
    st: Checker,
    result: Result<HExpr, Stop>,
    expected: &Ty,
    span: Span,
) -> (Checker, Result<HExpr, Stop>)
{
    match result {
        Err(stop) => (st, Err(stop)),
        Ok(found) => {
            match expect_compatible(cx, expected, found, span) {
                Err(stop) => (st, Err(stop)),
                Ok(fits) => {
                    (st, Ok(fits))
                },
            }
        },
    }
}

/// Extend a call mismatch when the constructor name collides with an arm
/// of the expected enum.
pub open spec fn note_ctor_collision(cx: &Ctx, stop: Stop, name: &Text, expected: &Ty) -> Stop
{
    match (stop, expected_arm(cx, Some(expected), name), class_of(cx, expected)) {
        (Stop::Fail(Diag { problem: Problem::Mismatch { expected: wanted, found }, subject: _, span }), Some(_), Some(nominal)) => named(Problem::ConstructorCollision { expected: wanted, found: found, family: family_or_self(cx, nominal.class) }, name, span),
        (other, _, _) => other,
    }
}

/// Check one expression against an expected type.
pub open spec fn check_expr(cx: &Ctx, st: Checker, expr: &Expr, expected: &Ty) -> (Checker, Result<HExpr, Stop>)
    decreases h_expr(expr), 1int, Chain::<u32>::Nil,
{
    match &*expr.kind {
        ExprKind::If { branches, else_body } => check_if(cx, st, branches, else_body, &BlockMode::Value(*expected), expr.span),
        ExprKind::Case { scrut, arms } => check_case(cx, st, scrut, arms, &BlockMode::Value(*expected), expr.span),
        ExprKind::Select(arms) => check_select(cx, st, arms, &BlockMode::Value(*expected), expr.span),
        ExprKind::Loop(body) => check_loop(cx, st, body, &BlockMode::Value(*expected), expr.span),
        ExprKind::TupleLit(items) => {
            match expected {
                Ty::Tuple(tys) => {
                    if same_len(items, tys) {
                        match check_pairwise(cx, st, items, tys) {
                            (st, Err(stop)) => (st, Err(stop)),
                            (st, Ok(checked)) => {
                                (st, Ok(hexpr(*expected, true, HKind::TupleLit(checked))))
                            },
                        }
                    } else {
                        let (st, found) = synth_expr(cx, st, expr);
                        fits_expected(cx, st, found, expected, expr.span)
                    }
                },
                _ => {
                    let (st, found) = synth_expr(cx, st, expr);
                    fits_expected(cx, st, found, expected, expr.span)
                },
            }
        },
        ExprKind::ListLit(items) => {
            match expected {
                Ty::ListOf(item) => {
                    match check_each_as(cx, st, items, item) {
                        (st, Err(stop)) => (st, Err(stop)),
                        (st, Ok(checked)) => {
                            (st, Ok(hexpr(*expected, true, HKind::ListLit(checked))))
                        },
                    }
                },
                _ => {
                    let (st, found) = synth_expr(cx, st, expr);
                    fits_expected(cx, st, found, expected, expr.span)
                },
            }
        },
        ExprKind::MapLit(entries) => {
            match expected {
                Ty::MapOf(key, value) => {
                    match check_entries(cx, st, entries, key, value) {
                        (st, Err(stop)) => (st, Err(stop)),
                        (st, Ok(checked)) => {
                            (st, Ok(hexpr(*expected, true, HKind::MapLit(checked))))
                        },
                    }
                },
                _ => {
                    let (st, found) = synth_expr(cx, st, expr);
                    fits_expected(cx, st, found, expected, expr.span)
                },
            }
        },
        ExprKind::Closure { params, ret, row, body } => {
            let (st, found) = check_closure(cx, st, params, ret, row, expected_ret(expected), body, expr.span);
            fits_expected(cx, st, found, expected, expr.span)
        },
        ExprKind::Name(name) => {
            if lookup_slot(&st, name).is_some() {
                let (st, found) = synth_expr(cx, st, expr);
                fits_expected(cx, st, found, expected, expr.span)
            } else {
                match try_ctor_name(cx, st, name, Some(expected), expr.span) {
                    (st, Err(stop)) => (st, Err(stop)),
                    (st, Ok(ctor)) => {
                        match ctor {
                            Some(value) => fits_expected(cx, st, Ok(value), expected, expr.span),
                            None => {
                                let (st, found) = synth_expr(cx, st, expr);
                                fits_expected(cx, st, found, expected, expr.span)
                            },
                        }
                    },
                }
            }
        },
        ExprKind::Call { name, name_span, type_args, args } => {
            let (st, found) = call_named(cx, st, name, *name_span, type_args, args, Some(expected), expr.span);
            match found {
                Err(stop) => (st, Err(stop)),
                Ok(value) => {
                    match expect_compatible(cx, expected, value, expr.span) {
                        Ok(fits) => (st, Ok(fits)),
                        Err(stop) => (st, Err(note_ctor_collision(cx, stop, name, expected))),
                    }
                },
            }
        },
        ExprKind::MethodCall { recv, name, name_span, type_args, args } => {
            let (st, found) = synth_method_call(cx, st, recv, name, *name_span, type_args, args, Some(expected), expr.span);
            fits_expected(cx, st, found, expected, expr.span)
        },
        ExprKind::Field { recv, name, name_span } => {
            let (st, found) = synth_field(cx, st, recv, name, *name_span, Some(expected));
            fits_expected(cx, st, found, expected, expr.span)
        },
        _ => {
            let (st, found) = synth_expr(cx, st, expr);
            fits_expected(cx, st, found, expected, expr.span)
        },
    }
}

} // verus!
