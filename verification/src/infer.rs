//! First-order inference of type and effect arguments.

use vstd::prelude::*;
use crate::answers::{compatible, is_heap, join};
use crate::ast::{Expr, ExprKind, Span, joined};
use crate::chain::{Chain, chain_of, copy_chain};
use crate::conform::{type_conformance, type_conforms};
use crate::context::{ClassInfo, ClassKind, Ctx, InterfaceUse, TyEnv};
use crate::lists::{append, concat, cons, count, find_literal, holds_id, nth, one, position, same_len, set_nth};
use crate::lookup::{class_at, class_extends, ctor_families, family_of, find_arm, lookup_type};
use crate::problem::{Diag, Problem, Stop};
use crate::resolve::{named, unnamed};
use crate::rows::canonical_row;
use crate::scope::{lookup_slot, mismatch, module_func};
use crate::state::{BorrowedKeyRelation, BranchType, Checker, MapKeyParameter, MapKeyUse, Solution};
use crate::subst::{substitute, substitute_interface_use};
use crate::text::{Text, is_text, text};
use crate::types::{Row, RowElem, Ty, clone_tys, same_ty};
use crate::model;

verus! {

/// The variables that types name.
pub fn vars_in_all(items: &Chain<Ty>, found: Chain<u32>) -> (r: Chain<u32>)
    ensures
        r == model::infer::vars_in_all(items, found),
    decreases items,
{
    match items {
        Chain::Nil => found,
        Chain::Cons(head, tail) => vars_in_all(tail, collect_vars(head, found)),
    }
}

/// Collect the type-variable indices inside one type.
pub fn collect_vars(ty: &Ty, found: Chain<u32>) -> (r: Chain<u32>)
    ensures
        r == model::infer::collect_vars(ty, found),
    decreases ty,
{
    match ty {
        Ty::Var(index) => {
            if holds_id(&found, *index) {
                found
            } else {
                append(found, *index)
            }
        },
        Ty::Inst(_, args) => vars_in_all(args, found),
        Ty::ListOf(item) => collect_vars(item, found),
        Ty::MapOf(key, value) => collect_vars(value, collect_vars(key, found)),
        Ty::Tuple(items) => vars_in_all(items, found),
        Ty::Fn(params, _, ret, _) => collect_vars(ret, vars_in_all(params, found)),
        Ty::Callback(params, _, ret, _) => collect_vars(ret, vars_in_all(params, found)),
        _ => found,
    }
}

/// Whether a list holds every number below a bound.
pub fn holds_all_below(ids: &Chain<u32>, total: u32) -> (r: bool)
    ensures
        r == model::infer::holds_all_below(ids, total),
    decreases total,
{
    total == 0 || (holds_id(ids, (total - 1) as u32) && holds_all_below(ids, (total - 1) as u32))
}

/// Whether the field types of a constructor determine every type
/// parameter of its class.
pub fn ctor_determined(field_tys: &Chain<Ty>, params: u32) -> (r: bool)
    ensures
        r == model::infer::ctor_determined(field_tys, params),
{
    holds_all_below(&vars_in_all(field_tys, Chain::Nil), params)
}

/// No arguments found yet.
pub fn open_types<T>(items: &Chain<T>) -> (r: Chain<Option<Ty>>)
    ensures
        r == model::infer::open_types(items),
    decreases items,
{
    match items {
        Chain::Nil => Chain::Nil,
        Chain::Cons(_, tail) => cons(None, open_types(tail)),
    }
}

/// Arguments that a receiver fixes.
pub fn fixed_types(items: &Chain<Ty>) -> (r: Chain<Option<Ty>>)
    ensures
        r == model::infer::fixed_types(items),
    decreases items,
{
    match items {
        Chain::Nil => Chain::Nil,
        Chain::Cons(head, tail) => cons(Some((**head).clone()), fixed_types(tail)),
    }
}

/// Open effect arguments of the given number.
pub fn open_rows(total: u32) -> (r: Chain<Option<Row>>)
    ensures
        r == model::infer::open_rows(total),
    decreases total,
{
    if total == 0 {
        Chain::Nil
    } else {
        cons(None, open_rows((total - 1) as u32))
    }
}

/// Bind one type variable. A second, different type joins the first in
/// a covariant position and is ignored in any other.
pub fn bind_type_var(
    cx: &Ctx,
    solution: Solution,
    index: u32,
    actual: &Ty,
    covariant: bool,
) -> (r: Result<Solution, Stop>)
    ensures
        r == model::infer::bind_type_var(cx, solution, index, actual, covariant),
{
    match nth(&solution.types, index) {
        None => Ok(solution),
        Some(None) => Ok(Solution { types: set_nth(solution.types, index, Some((*actual).clone())), ..solution }),
        Some(Some(previous)) => {
            if same_ty(&*previous, &*actual) || !covariant {
                Ok(solution)
            } else {
                let joined = match join(cx, previous, actual) {
                    Ok(found) => found,
                    Err(stop) => {
                        return Err(stop);
                    },
                };
                match joined {
                    None => Ok(solution),
                    Some(ty) => Ok(Solution { types: set_nth(solution.types, index, Some(ty)), ..solution }),
                }
            }
        },
    }
}

/// The row that one open or found effect argument has so far.
pub fn row_so_far(rows: &Chain<Option<Row>>, index: u32) -> (r: Row)
    ensures
        r == model::infer::row_so_far(rows, index),
{
    match nth(rows, index) {
        Some(Some(row)) => copy_chain(&*row),
        _ => Chain::Nil,
    }
}

/// Bind the effect variable that a declared row consists of.
pub fn bind_row_var(declared: &Row, actual: &Row, solution: Solution) -> (r: Solution)
    ensures
        r == model::infer::bind_row_var(declared, actual, solution),
{
    match declared {
        Chain::Cons(only, rest) => {
            match (**only, rest.is_empty()) {
                (RowElem::Var(index), true) => {
                    if nth(&solution.rows, index).is_none() {
                        solution
                    } else {
                        let merged = canonical_row(&concat(row_so_far(&solution.rows, index), copy_chain(&*actual)));
                        Solution { rows: set_nth(solution.rows, index, Some(merged)), ..solution }
                    }
                },
                _ => solution,
            }
        },
        Chain::Nil => solution,
    }
}

/// Unify types position by position.
pub fn unify_all(
    cx: &Ctx,
    decls: &Chain<Ty>,
    actuals: &Chain<Ty>,
    solution: Solution,
    covariant: bool,
) -> (r: Result<Solution, Stop>)
    ensures
        r == model::infer::unify_all(cx, decls, actuals, solution, covariant),
    decreases decls,
{
    match (decls, actuals) {
        (Chain::Cons(decl, decls_rest), Chain::Cons(actual, actuals_rest)) => {
            let next = match unify(cx, decl, actual, solution, covariant) {
                Ok(found) => found,
                Err(stop) => {
                    return Err(stop);
                },
            };
            unify_all(cx, decls_rest, actuals_rest, next, covariant)
        },
        _ => Ok(solution),
    }
}

/// The parameters, the result and the row of a callable type.
pub fn callable_parts<'a>(ty: &'a Ty) -> (r: Option<(&'a Chain<Ty>, &'a Ty, &'a Row)>)
    ensures
        r == model::infer::callable_parts(ty),
{
    match ty {
        Ty::Fn(params, _, ret, row) => Some((params, ret, row)),
        Ty::Callback(params, _, ret, row) => Some((params, ret, row)),
        _ => None,
    }
}

/// Bind the type variables of a declared type against an actual type.
/// Binding is best effort; the later check of each argument reports
/// mismatches.
pub fn unify(cx: &Ctx, decl: &Ty, actual: &Ty, solution: Solution, covariant: bool) -> (r: Result<Solution, Stop>)
    ensures
        r == model::infer::unify(cx, decl, actual, solution, covariant),
    decreases decl,
{
    if same_ty(&*actual, &Ty::Never) {
        return Ok(solution);
    }
    match decl {
        Ty::Var(index) => bind_type_var(cx, solution, *index, actual, covariant),
        Ty::Inst(class, args) => {
            match actual {
                Ty::Inst(actual_class, actual_args) => {
                    if same_len(args, actual_args) && (class_extends(cx, *actual_class, *class) || class_extends(cx, *class, *actual_class)) {
                        unify_all(cx, args, actual_args, solution, false)
                    } else {
                        Ok(solution)
                    }
                },
                _ => Ok(solution),
            }
        },
        Ty::ListOf(item) => {
            match actual {
                Ty::ListOf(actual_item) => unify(cx, item, actual_item, solution, false),
                _ => Ok(solution),
            }
        },
        Ty::MapOf(key, value) => {
            match actual {
                Ty::MapOf(actual_key, actual_value) => {
                    let next = match unify(cx, key, actual_key, solution, false) {
                        Ok(found) => found,
                        Err(stop) => {
                            return Err(stop);
                        },
                    };
                    unify(cx, value, actual_value, next, false)
                },
                _ => Ok(solution),
            }
        },
        Ty::Tuple(items) => {
            match actual {
                Ty::Tuple(actual_items) => {
                    if same_len(items, actual_items) {
                        unify_all(cx, items, actual_items, solution, covariant)
                    } else {
                        Ok(solution)
                    }
                },
                _ => Ok(solution),
            }
        },
        Ty::Fn(params, _, ret, row) => {
            match callable_parts(actual) {
                Some((actual_params, actual_ret, actual_row)) => {
                    if same_len(params, actual_params) {
                        let next = match unify_all(cx, params, actual_params, solution, false) {
                            Ok(found) => found,
                            Err(stop) => {
                                return Err(stop);
                            },
                        };
                        let next = match unify(cx, ret, actual_ret, next, true) {
                            Ok(found) => found,
                            Err(stop) => {
                                return Err(stop);
                            },
                        };
                        Ok(bind_row_var(row, actual_row, next))
                    } else {
                        Ok(solution)
                    }
                },
                None => Ok(solution),
            }
        },
        Ty::Callback(params, _, ret, row) => {
            match callable_parts(actual) {
                Some((actual_params, actual_ret, actual_row)) => {
                    if same_len(params, actual_params) {
                        let next = match unify_all(cx, params, actual_params, solution, false) {
                            Ok(found) => found,
                            Err(stop) => {
                                return Err(stop);
                            },
                        };
                        let next = match unify(cx, ret, actual_ret, next, true) {
                            Ok(found) => found,
                            Err(stop) => {
                                return Err(stop);
                            },
                        };
                        Ok(bind_row_var(row, actual_row, next))
                    } else {
                        Ok(solution)
                    }
                },
                None => Ok(solution),
            }
        },
        _ => Ok(solution),
    }
}

/// The found type arguments, with the variable itself for an open one.
pub fn filled_types(types: &Chain<Option<Ty>>, at: u32) -> (r: Chain<Ty>)
    ensures
        r == model::infer::filled_types(types, at),
    decreases types,
{
    match types {
        Chain::Nil => Chain::Nil,
        Chain::Cons(head, tail) => {
            let first = match &**head {
                Some(ty) => (*ty).clone(),
                None => Ty::Var(at),
            };
            cons(first, filled_types(tail, at.wrapping_add(1)))
        },
    }
}

/// The found effect arguments, with the variable itself for an open one.
pub fn filled_rows(rows: &Chain<Option<Row>>, at: u32) -> (r: Chain<Row>)
    ensures
        r == model::infer::filled_rows(rows, at),
    decreases rows,
{
    match rows {
        Chain::Nil => Chain::Nil,
        Chain::Cons(head, tail) => {
            let first = match &**head {
                Some(row) => copy_chain(&*row),
                None => one(RowElem::Var(at)),
            };
            cons(first, filled_rows(tail, at.wrapping_add(1)))
        },
    }
}

/// The found effect arguments, with the empty row for an open one.
pub fn settled_rows(rows: &Chain<Option<Row>>) -> (r: Chain<Row>)
    ensures
        r == model::infer::settled_rows(rows),
    decreases rows,
{
    match rows {
        Chain::Nil => Chain::Nil,
        Chain::Cons(head, tail) => {
            let first = match &**head {
                Some(row) => copy_chain(&*row),
                None => Chain::Nil,
            };
            cons(first, settled_rows(tail))
        },
    }
}

/// The first type argument that is still open.
pub fn first_open(types: &Chain<Option<Ty>>) -> (r: Option<u32>)
    ensures
        r == model::infer::first_open(types),
    decreases types,
{
    match types {
        Chain::Nil => None,
        Chain::Cons(head, tail) => {
            if head.is_none() {
                Some(0u32)
            } else {
                match first_open(tail) {
                    None => None,
                    Some(at) => Some(at.wrapping_add(1)),
                }
            }
        },
    }
}

/// Substitute the type parameters that are bound so far and keep the
/// unresolved ones as variables.
pub fn partial_substitute(ty: &Ty, solution: &Solution) -> (r: Ty)
    ensures
        r == model::infer::partial_substitute(ty, solution),
{
    substitute(ty, &filled_types(&solution.types, 0u32), &filled_rows(&solution.rows, 0u32))
}

/// Bind effect variables row by row.
pub fn bind_bound_rows(declared: &Chain<Row>, actual: &Chain<Row>, solution: Solution) -> (r: Solution)
    ensures
        r == model::infer::bind_bound_rows(declared, actual, solution),
    decreases declared,
{
    match (declared, actual) {
        (Chain::Cons(row, rows), Chain::Cons(found, more)) => bind_bound_rows(rows, more, bind_row_var(row, found, solution)),
        _ => solution,
    }
}

/// Bind effect variables from the bounds of one argument.
pub fn bind_rows_of(
    cx: &Ctx,
    env: &TyEnv,
    argument: &Ty,
    bounds: &Chain<InterfaceUse>,
    solution: Solution,
) -> (r: Solution)
    ensures
        r == model::infer::bind_rows_of(cx, env, argument, bounds, solution),
    decreases bounds,
{
    match bounds {
        Chain::Nil => solution,
        Chain::Cons(head, tail) => {
            match type_conformance(cx, env, argument, head.interface) {
                None => bind_rows_of(cx, env, argument, tail, solution),
                Some(found) => {
                    if same_len(&head.row_args, &found.row_args) {
                        bind_rows_of(cx, env, argument, tail, bind_bound_rows(&head.row_args, &found.row_args, solution))
                    } else {
                        bind_rows_of(cx, env, argument, tail, solution)
                    }
                },
            }
        },
    }
}

/// Bind the effect arguments that the bounds of the type arguments fix.
pub fn infer_bound_row(
    cx: &Ctx,
    env: &TyEnv,
    arguments: &Chain<Ty>,
    bounds: &Chain<Chain<InterfaceUse>>,
    solution: Solution,
) -> (r: Solution)
    ensures
        r == model::infer::infer_bound_row(cx, env, arguments, bounds, solution),
    decreases bounds,
{
    match (arguments, bounds) {
        (Chain::Cons(argument, arguments_rest), Chain::Cons(list, rest)) => infer_bound_row(cx, env, arguments_rest, rest, bind_rows_of(cx, env, argument, list, solution)),
        _ => solution,
    }
}

/// Require one type argument to meet its bounds.
pub fn check_argument_bounds(
    cx: &Ctx,
    env: &TyEnv,
    argument: &Ty,
    bounds: &Chain<InterfaceUse>,
    types: &Chain<Ty>,
    rows: &Chain<Row>,
    span: Span,
) -> (r: Result<(), Stop>)
    ensures
        r == model::infer::check_argument_bounds(cx, env, argument, bounds, types, rows, span),
    decreases bounds,
{
    match bounds {
        Chain::Nil => Ok(()),
        Chain::Cons(head, tail) => {
            let required = substitute_interface_use(head, types, rows);
            if type_conforms(cx, env, argument, &required) {
                check_argument_bounds(cx, env, argument, tail, types, rows, span)
            } else {
                Err(unnamed(Problem::TypeArgumentConformance { argument: (*argument).clone(), interface: required.interface }, span))
            }
        },
    }
}

/// Require every type argument to meet its bounds.
pub fn check_type_arguments(
    cx: &Ctx,
    env: &TyEnv,
    arguments: &Chain<Ty>,
    bounds: &Chain<Chain<InterfaceUse>>,
    types: &Chain<Ty>,
    rows: &Chain<Row>,
    span: Span,
) -> (r: Result<(), Stop>)
    ensures
        r == model::infer::check_type_arguments(cx, env, arguments, bounds, types, rows, span),
    decreases bounds,
{
    match (arguments, bounds) {
        (Chain::Cons(argument, arguments_rest), Chain::Cons(list, rest)) => {
            let _met = match check_argument_bounds(cx, env, argument, list, types, rows, span) {
                Ok(found) => found,
                Err(stop) => {
                    return Err(stop);
                },
            };
            check_type_arguments(cx, env, arguments_rest, rest, types, rows, span)
        },
        _ => Ok(()),
    }
}

/// Widen each type.
pub fn deep_widen_all(cx: &Ctx, items: &Chain<Ty>) -> (r: Chain<Ty>)
    ensures
        r == model::infer::deep_widen_all(cx, items),
    decreases items,
{
    match items {
        Chain::Nil => Chain::Nil,
        Chain::Cons(head, tail) => cons(deep_widen(cx, head), deep_widen_all(cx, tail)),
    }
}

/// The enum family of an arm, the class itself for any other.
pub fn family_or_self(cx: &Ctx, class: u32) -> (r: u32)
    ensures
        r == model::infer::family_or_self(cx, class),
{
    match family_of(cx, class) {
        Some(family) => family,
        None => class,
    }
}

/// Widen every arm-typed nominal position to its enum family, at the
/// top level and inside collection, tuple, and application arguments.
/// The result is the type that every sibling of a literal or branch can
/// adopt.
pub fn deep_widen(cx: &Ctx, ty: &Ty) -> (r: Ty)
    ensures
        r == model::infer::deep_widen(cx, ty),
    decreases ty,
{
    match ty {
        Ty::Class(class) => Ty::Class(family_or_self(cx, *class)),
        Ty::Inst(class, args) => Ty::Inst(family_or_self(cx, *class), deep_widen_all(cx, args)),
        Ty::ListOf(item) => Ty::ListOf(Box::new(deep_widen(cx, item))),
        Ty::MapOf(key, value) => Ty::MapOf(Box::new(deep_widen(cx, key)), Box::new(deep_widen(cx, value))),
        Ty::Tuple(items) => Ty::Tuple(deep_widen_all(cx, items)),
        _ => (*ty).clone(),
    }
}

/// The common hint of branch types.
pub fn hint_from(cx: &Ctx, hint: Option<Ty>, branches: &Chain<BranchType>) -> (r: Result<Option<Ty>, Stop>)
    ensures
        r == model::infer::hint_from(cx, hint, branches),
    decreases branches,
{
    match branches {
        Chain::Nil => Ok(hint),
        Chain::Cons(head, tail) => {
            if same_ty(&head.ty, &Ty::Never) {
                hint_from(cx, hint, tail)
            } else {
                let wide = deep_widen(cx, &head.ty);
                match hint {
                    None => hint_from(cx, Some(wide), tail),
                    Some(previous) => {
                        let joined = match join(cx, &previous, &wide) {
                            Ok(found) => found,
                            Err(stop) => {
                                return Err(stop);
                            },
                        };
                        match joined {
                            Some(ty) => hint_from(cx, Some(ty), tail),
                            None => Err(mismatch(&previous, &wide, head.span)),
                        }
                    },
                }
            }
        },
    }
}

/// The sibling hint for deferred branches: the family-widened join of
/// the branch types that resolved alone. `None` when no branch resolved.
pub fn branch_hint(cx: &Ctx, branches: &Chain<BranchType>) -> (r: Result<Option<Ty>, Stop>)
    ensures
        r == model::infer::branch_hint(cx, branches),
{
    hint_from(cx, None, branches)
}

/// Join branch types in order.
pub fn join_from(cx: &Ctx, joined: Option<Ty>, branches: &Chain<BranchType>) -> (r: Result<Option<Ty>, Stop>)
    ensures
        r == model::infer::join_from(cx, joined, branches),
    decreases branches,
{
    match branches {
        Chain::Nil => Ok(joined),
        Chain::Cons(head, tail) => {
            if same_ty(&head.ty, &Ty::Never) {
                join_from(cx, joined, tail)
            } else {
                match joined {
                    None => join_from(cx, Some(head.ty.clone()), tail),
                    Some(first) => {
                        let both = match join(cx, &first, &head.ty) {
                            Ok(found) => found,
                            Err(stop) => {
                                return Err(stop);
                            },
                        };
                        match both {
                            Some(ty) => join_from(cx, Some(ty), tail),
                            None => Err(mismatch(&first, &head.ty, head.span)),
                        }
                    },
                }
            }
        },
    }
}

/// Join branch types. `Never` branches do not contribute.
pub fn join_branches(cx: &Ctx, branches: &Chain<BranchType>) -> (r: Result<Ty, Stop>)
    ensures
        r == model::infer::join_branches(cx, branches),
{
    let joined = match join_from(cx, None, branches) {
        Ok(found) => found,
        Err(stop) => {
            return Err(stop);
        },
    };
    match joined {
        Some(ty) => Ok(ty),
        None => Ok(Ty::Never),
    }
}

/// The type of branches that adopted a hint: their join where there is
/// one, the hint otherwise.
pub fn join_or_hint(cx: &Ctx, hint: Option<Ty>, branches: &Chain<BranchType>) -> (r: Result<Ty, Stop>)
    ensures
        r == model::infer::join_or_hint(cx, hint, branches),
{
    match join_branches(cx, branches) {
        Ok(ty) => Ok(ty),
        Err(Stop::Ask(asked)) => Err(Stop::Ask(asked)),
        Err(stop) => {
            match hint {
                Some(ty) => Ok(ty),
                None => Err(stop),
            }
        },
    }
}

/// Whether every branch gives a mutable value.
pub fn all_mutable(branches: &Chain<BranchType>) -> (r: bool)
    ensures
        r == model::infer::all_mutable(branches),
    decreases branches,
{
    match branches {
        Chain::Nil => true,
        Chain::Cons(head, tail) => head.mutable && all_mutable(tail),
    }
}

/// Whether a problem reports type arguments that a sibling can decide.
pub fn is_inference_gap(diag: &Diag) -> (r: bool)
    ensures
        r == model::infer::is_inference_gap(diag),
{
    match &diag.problem {
        Problem::AmbiguousConstructor { family: _ } => true,
        Problem::CannotInfer { parameter: _ } => true,
        _ => false,
    }
}

/// Whether the only family of a constructor name determines its type
/// arguments from its fields; `true` for any other name.
pub fn ctor_synthesizes(cx: &Ctx, env: &TyEnv, name: &Text) -> (r: bool)
    ensures
        r == model::infer::ctor_synthesizes(cx, env, name),
{
    match ctor_families(cx, env, name) {
        Chain::Cons(family, rest) => {
            match (rest.is_empty(), find_arm(cx, *family, name)) {
                (true, Some(arm)) => ctor_determined(&class_at(cx, arm).field_tys, count(&class_at(cx, arm).type_params)),
                _ => true,
            }
        },
        Chain::Nil => true,
    }
}

/// The parameter types of a class constructor.
pub fn init_params(info: &ClassInfo) -> (r: Chain<Ty>)
    ensures
        r == model::infer::init_params(info),
{
    match &info.init {
        Some(init) => clone_tys(&init.params),
        None => Chain::Nil,
    }
}

/// Whether a call of one name needs no expected type.
pub fn call_synthesizes(cx: &Ctx, st: &Checker, name: &Text, explicit: bool) -> (r: bool)
    ensures
        r == model::infer::call_synthesizes(cx, st, name, explicit),
{
    if explicit || lookup_slot(st, name).is_some() || module_func(cx, &st.env, name).is_some() {
        return true;
    }
    match lookup_type(cx, name, &st.env) {
        Some(class) => {
            let info = class_at(cx, class);
            if info.kind == ClassKind::Normal {
                ctor_determined(&init_params(info), count(&info.type_params))
            } else {
                ctor_synthesizes(cx, &st.env, name)
            }
        },
        None => ctor_synthesizes(cx, &st.env, name),
    }
}

/// Whether each expression can be synthesized.
pub fn all_can_synth(cx: &Ctx, st: &Checker, items: &Chain<Expr>) -> (r: bool)
    ensures
        r == model::infer::all_can_synth(cx, st, items),
    decreases items,
{
    match items {
        Chain::Nil => true,
        Chain::Cons(head, tail) => can_synth(cx, st, head) && all_can_synth(cx, st, tail),
    }
}

/// Whether an argument can be synthesized without an expected type. A
/// wrong `true` degrades to an inner problem that asks for explicit
/// arguments.
pub fn can_synth(cx: &Ctx, st: &Checker, expr: &Expr) -> (r: bool)
    ensures
        r == model::infer::can_synth(cx, st, expr),
    decreases expr,
{
    match &*expr.kind {
        ExprKind::ListLit(items) => !items.is_empty(),
        ExprKind::MapLit(entries) => !entries.is_empty(),
        ExprKind::TupleLit(items) => all_can_synth(cx, st, items),
        ExprKind::Name(name) => lookup_slot(st, name).is_some() || module_func(cx, &st.env, name).is_some() || ctor_synthesizes(cx, &st.env, name),
        ExprKind::Call { name, name_span: _, type_args, args: _ } => call_synthesizes(cx, st, name, !type_args.is_empty()),
        _ => true,
    }
}

/// Whether a call labels an argument.
pub fn has_label(args: &Chain<Expr>) -> (r: bool)
    ensures
        r == model::infer::has_label(args),
    decreases args,
{
    match args {
        Chain::Nil => false,
        Chain::Cons(head, tail) => {
            let labeled = match &*head.kind {
                ExprKind::Labeled { label: _, value: _ } => true,
                _ => false,
            };
            labeled || has_label(tail)
        },
    }
}

/// The positions of arguments in written order.
pub fn written_order(args: &Chain<Expr>, from: u32) -> (r: Chain<u32>)
    ensures
        r == model::infer::written_order(args, from),
    decreases args,
{
    match args {
        Chain::Nil => Chain::Nil,
        Chain::Cons(_, tail) => cons(from, written_order(tail, from.wrapping_add(1))),
    }
}

/// One empty slot for each argument.
pub fn empty_slots(args: &Chain<Expr>) -> (r: Chain<Option<u32>>)
    ensures
        r == model::infer::empty_slots(args),
    decreases args,
{
    match args {
        Chain::Nil => Chain::Nil,
        Chain::Cons(_, tail) => cons(None, empty_slots(tail)),
    }
}

/// Whether an argument already fills one parameter.
pub fn slot_filled(slots: &Chain<Option<u32>>, at: u32) -> (r: bool)
    ensures
        r == model::infer::slot_filled(slots, at),
{
    match nth(slots, at) {
        Some(Some(_)) => true,
        _ => false,
    }
}

/// Put arguments into their slots.
pub fn fill_slots(
    args: &Chain<Expr>,
    names: &Chain<Text>,
    at: u32,
    positional: u32,
    in_labels: bool,
    slots: Chain<Option<u32>>,
) -> (r: Result<Chain<Option<u32>>, Stop>)
    ensures
        r == model::infer::fill_slots(args, names, at, positional, in_labels, slots),
    decreases args,
{
    match args {
        Chain::Nil => Ok(slots),
        Chain::Cons(head, tail) => {
            match &*head.kind {
                ExprKind::Labeled { label, value: _ } => {
                    match position(names, label) {
                        None => Err(named(Problem::LabelNotDeclared, label, head.span)),
                        Some(param) => {
                            if param < positional {
                                Err(named(Problem::LabelAlreadyFilled, label, head.span))
                            } else if slot_filled(&slots, param) {
                                Err(named(Problem::LabelRepeated, label, head.span))
                            } else {
                                fill_slots(tail, names, at.wrapping_add(1), positional, true, set_nth(slots, param, Some(at)))
                            }
                        },
                    }
                },
                _ => {
                    if in_labels {
                        Err(unnamed(Problem::PositionalAfterLabel, head.span))
                    } else {
                        fill_slots(tail, names, at.wrapping_add(1), positional.wrapping_add(1), false, set_nth(slots, positional, Some(at)))
                    }
                },
            }
        },
    }
}

/// The argument of each parameter; a parameter without one takes a
/// position outside the argument list.
pub fn slot_order(slots: &Chain<Option<u32>>) -> (r: Chain<u32>)
    ensures
        r == model::infer::slot_order(slots),
    decreases slots,
{
    match slots {
        Chain::Nil => Chain::Nil,
        Chain::Cons(head, tail) => {
            let first = match &**head {
                Some(at) => *at,
                None => 0xffff_ffffu32,
            };
            cons(first, slot_order(tail))
        },
    }
}

/// Arrange call arguments against the declared parameter names: the
/// position of the argument of each parameter.
///
/// Labels follow the positional arguments and match declared names in
/// any order. The caller checks the argument count first.
pub fn arrange_args(args: &Chain<Expr>, names: &Chain<Text>) -> (r: Result<Chain<u32>, Stop>)
    ensures
        r == model::infer::arrange_args(args, names),
{
    if has_label(args) {
        let slots = match fill_slots(args, names, 0u32, 0u32, false, empty_slots(args)) {
            Ok(found) => found,
            Err(stop) => {
                return Err(stop);
            },
        };
        Ok(slot_order(&slots))
    } else {
        Ok(written_order(args, 0u32))
    }
}

/// Whether one element of a tuple supports equality.
pub fn element_comparable(cx: &Ctx, ty: &Ty) -> (r: Result<bool, Stop>)
    ensures
        r == model::infer::element_comparable(cx, ty),
    decreases ty,
{
    match ty {
        Ty::Tuple(items) => elements_comparable(cx, items),
        Ty::Unit => Ok(true),
        Ty::Int => Ok(true),
        Ty::Bool => Ok(true),
        Ty::Str => Ok(true),
        _ => is_heap(cx, ty),
    }
}

/// Whether each element type supports equality.
pub fn elements_comparable(cx: &Ctx, items: &Chain<Ty>) -> (r: Result<bool, Stop>)
    ensures
        r == model::infer::elements_comparable(cx, items),
    decreases items,
{
    match items {
        Chain::Nil => Ok(true),
        Chain::Cons(head, tail) => {
            let first = match element_comparable(cx, head) {
                Ok(found) => found,
                Err(stop) => {
                    return Err(stop);
                },
            };
            if first {
                elements_comparable(cx, tail)
            } else {
                Ok(false)
            }
        },
    }
}

/// Whether every element of a tuple type supports equality.
pub fn tuple_comparable(cx: &Ctx, ty: &Ty) -> (r: Result<bool, Stop>)
    ensures
        r == model::infer::tuple_comparable(cx, ty),
{
    match ty {
        Ty::Tuple(items) => elements_comparable(cx, items),
        _ => Ok(false),
    }
}

/// The key use of one built-in map method.
pub fn map_key_use(name: &Text) -> (r: Option<MapKeyUse>)
    ensures
        r == model::infer::map_key_use(name),
{
    if is_text(&*name, "has") || is_text(&*name, "at") || is_text(&*name, "get") || is_text(&*name, "remove") {
        Some(MapKeyUse::Lookup)
    } else if is_text(&*name, "put") {
        Some(MapKeyUse::Insert)
    } else {
        None
    }
}

impl MapKeyUse {
    /// The key use of one built-in map method.
    pub fn for_method(name: &str) -> (r: Option<MapKeyUse>)
        ensures
            r == model::infer::map_key_use(&chain_of(name@)),
    {
        map_key_use(&text(name))
    }
}

impl MapKeyParameter {
    /// Whether the operation borrows its argument.
    pub fn is_borrowed(&self) -> (r: bool)
        ensures
            r == (self.relation is Some),
    {
        self.relation.is_some()
    }
}

/// Resolve the closed borrowed-key relation for one map operation: a
/// lookup in a map of texts accepts any text, an insertion into a map of
/// strings too.
pub fn map_key_parameter(cx: &Ctx, key: &Ty, usage: MapKeyUse) -> (r: Result<MapKeyParameter, Stop>)
    ensures
        r == model::infer::map_key_parameter(cx, key, usage),
{
    match find_literal(&cx.core_types, "Text") {
        None => Ok(MapKeyParameter { ty: (*key).clone(), relation: None }),
        Some(class) => {
            let general = (class_at(cx, class).self_ty).clone();
            let borrows = match accepts_text(cx, &general, key, usage) {
                Ok(found) => found,
                Err(stop) => {
                    return Err(stop);
                },
            };
            if !borrows || same_ty(&general, &*key) {
                Ok(MapKeyParameter { ty: (*key).clone(), relation: None })
            } else {
                Ok(MapKeyParameter { ty: general, relation: Some(BorrowedKeyRelation::TextContent) })
            }
        },
    }
}

/// Whether a general text can stand for the key in one map use.
pub fn accepts_text(cx: &Ctx, general: &Ty, key: &Ty, usage: MapKeyUse) -> (r: Result<bool, Stop>)
    ensures
        r == model::infer::accepts_text(cx, general, key, usage),
{
    match usage {
        MapKeyUse::Lookup => compatible(cx, general, key),
        MapKeyUse::Insert => Ok(same_ty(&*key, &Ty::Str)),
    }
}

} // verus!
