//! Call resolution, arguments, and polymorphic inference.

use vstd::prelude::*;
use crate::ast::{Expr, ExprKind, Span, TypeExpr};
use crate::chain::{Chain, copy_chain};
use crate::conform::{bound_method, find_method_owner, instantiate_interface_method, normalize_associated};
use crate::context::{BoundMethod, ClassInfo, ClassKind, Ctx, Decl, FnSig, InterfaceInfo, InterfaceMethodSig, MethodFound, MethodSig, NativeRepr, TyEnv, UseBinding, clone_interface_use_lists, clone_texts};
use crate::control::check_sys_call;
use crate::exprs::{check_expr, synth_expr};
use crate::hir::{HExpr, HKind, NativeOp};
use crate::infer::{arrange_args, can_synth, check_type_arguments, filled_types, first_open, fixed_types, infer_bound_row, open_rows, open_types, partial_substitute, settled_rows, unify};
use crate::lists::{concat, cons, count, falses, nth, one, set_nth, skip, truncate};
use crate::lookup::{class_at, class_of, interface_at, lookup_type, sig_at};
use crate::problem::{Diag, Problem, Stop};
use crate::resolve::{check_key_type, named, resolve_type, resolve_types, unnamed};
use crate::rows::substitute_row;
use crate::scope::{charge_row, expect_compatible, guard_argument, hexpr, module_func, name_expr, resolve_value, use_binding};
use crate::state::{Callee, CapSource, Checker, NameRes, OperatorHook, PolyOut, Presynth, Signature, Solution};
use crate::subst::{contains_callback, contains_callback_in, contains_effect_var, contains_var, substitute, substitute_all, variables};
use crate::system::{abi_type, abi_types, charge_op, construct_problem, find_intrinsic, resolve_ctor};
use crate::text::{Text, is_text, text};
use crate::types::{Row, Ty, clone_tys};
use crate::model::heights::{h_expr, h_exprs};
use crate::model::fits::fits_as;
use crate::model::sound::{answers, callee_covered, callee_ok, construct_covered, declares_row, expr_ok, exprs_ok, is_arm, method_covered, named_func, op_of_type, opt_expr_ok, requirement_covered, room, row_in, row_of_type, step, tried_ok, lemma_bound_method, lemma_lookup_row};
use crate::model::keeps::kept;
use crate::model;

verus! {

broadcast use {crate::model::keeps::group_kept, crate::model::sound::group_sound};

/// Resolve a written type inside a body.
pub fn resolve_now(cx: &Ctx, env: &TyEnv, ty: &TypeExpr) -> (r: Result<Ty, Stop>)
    ensures
        r == model::calls::resolve_now(cx, env, ty),
{
    match resolve_type(cx, env, Decl { keys: Chain::Nil, next_func: 0, values: Chain::Nil }, ty) {
        (_, found) => found,
    }
}

/// Resolve written types inside a body.
pub fn resolve_all_now(cx: &Ctx, env: &TyEnv, items: &Chain<TypeExpr>) -> (r: Result<Chain<Ty>, Stop>)
    ensures
        r == model::calls::resolve_all_now(cx, env, items),
{
    match resolve_types(cx, env, Decl { keys: Chain::Nil, next_func: 0, values: Chain::Nil }, items) {
        (_, found) => found,
    }
}

/// Require a map key inside a body to be hashable.
pub fn check_key_now(cx: &Ctx, env: &TyEnv, key: &Ty, span: Span) -> (r: Result<(), Stop>)
    ensures
        r == model::calls::check_key_now(cx, env, key, span),
{
    match check_key_type(cx, env, Decl { keys: Chain::Nil, next_func: 0, values: Chain::Nil }, key, span) {
        (_, found) => found,
    }
}

/// The value of an argument, its label left out.
pub fn unlabeled<'a>(arg: &'a Expr) -> (r: &'a Expr)
    ensures
        r == model::calls::unlabeled(arg),
{
    match &*arg.kind {
        ExprKind::Labeled { label: _, value } => value,
        _ => arg,
    }
}

/// The argument at one position, its label left out.
pub fn nth_arg<'a>(args: &'a Chain<Expr>, at: u32) -> (r: Option<&'a Expr>)
    ensures
        r == model::calls::nth_arg(args, at),
{
    match nth(args, at) {
        Some(arg) => Some(unlabeled(arg)),
        None => None,
    }
}

/// Where the argument at one position stands.
pub fn arg_span(args: &Chain<Expr>, at: u32, span: Span) -> (r: Span)
    ensures
        r == model::calls::arg_span(args, at, span),
{
    match nth_arg(args, at) {
        Some(arg) => arg.span,
        None => span,
    }
}

/// The position at one place of an argument order.
pub fn placed(order: &Chain<u32>, at: u32) -> (r: u32)
    ensures
        r == model::calls::placed(order, at),
{
    match nth(order, at) {
        Some(found) => *found,
        None => 0xffff_ffffu32,
    }
}

/// The problem of a missing argument.
pub fn missing_argument(at: u32, span: Span) -> (r: Stop)
    ensures
        r == model::calls::missing_argument(at, span),
{
    unnamed(Problem::WrongArgumentCount { expected: at.wrapping_add(1), found: 0 }, span)
}

/// Synthesize the first argument as it is written.
pub fn synth_first(cx: &Ctx, st: Checker, args: &Chain<Expr>, span: Span) -> (r: (Checker, Result<HExpr, Stop>))
    ensures
        r == model::calls::synth_first(cx, st, args, span),
        kept(st, r.0),
        step(cx, st, r.0, true, (r.1 matches Ok(found) ==> expr_ok(room(cx, r.0), found))),
    decreases h_exprs(args), 0int, Chain::<u32>::Nil,
{
    match args {
        Chain::Nil => (st, Err(missing_argument(0u32, span))),
        Chain::Cons(head, _) => synth_expr(cx, st, head),
    }
}

/// Check the first argument as it is written.
pub fn check_first(cx: &Ctx, st: Checker, args: &Chain<Expr>, expected: &Ty, span: Span) -> (r: (Checker, Result<HExpr, Stop>))
    ensures
        r == model::calls::check_first(cx, st, args, expected, span),
        kept(st, r.0),
        step(cx, st, r.0, true, (r.1 matches Ok(found) ==> expr_ok(room(cx, r.0), found))),
        fits_as(cx, *expected, r.1),
    decreases h_exprs(args), 0int, Chain::<u32>::Nil,
{
    match args {
        Chain::Nil => (st, Err(missing_argument(0u32, span))),
        Chain::Cons(head, _) => check_expr(cx, st, head, expected),
    }
}

/// Synthesize one argument, below its label.
pub fn synth_argument(cx: &Ctx, st: Checker, arg: &Expr) -> (r: (Checker, Result<HExpr, Stop>))
    ensures
        r == model::calls::synth_argument(cx, st, arg),
        kept(st, r.0),
        step(cx, st, r.0, true, (r.1 matches Ok(found) ==> expr_ok(room(cx, r.0), found))),
    decreases h_expr(arg), 1int, Chain::<u32>::Nil,
{
    match &*arg.kind {
        ExprKind::Labeled { label: _, value } => synth_expr(cx, st, value),
        _ => synth_expr(cx, st, arg),
    }
}

/// Check one argument, below its label.
pub fn check_argument(cx: &Ctx, st: Checker, arg: &Expr, expected: &Ty) -> (r: (Checker, Result<HExpr, Stop>))
    ensures
        r == model::calls::check_argument(cx, st, arg, expected),
        kept(st, r.0),
        step(cx, st, r.0, true, (r.1 matches Ok(found) ==> expr_ok(room(cx, r.0), found))),
        fits_as(cx, *expected, r.1),
    decreases h_expr(arg), 2int, Chain::<u32>::Nil,
{
    match &*arg.kind {
        ExprKind::Labeled { label: _, value } => check_expr(cx, st, value, expected),
        _ => check_expr(cx, st, arg, expected),
    }
}

/// Synthesize the argument at one position.
pub fn synth_nth(cx: &Ctx, st: Checker, args: &Chain<Expr>, at: u32, span: Span) -> (r: (Checker, Result<HExpr, Stop>))
    ensures
        r == model::calls::synth_nth(cx, st, args, at, span),
        kept(st, r.0),
        step(cx, st, r.0, true, (r.1 matches Ok(found) ==> expr_ok(room(cx, r.0), found))),
    decreases h_exprs(args), 0int, Chain::<u32>::Nil,
{
    match args {
        Chain::Nil => (st, Err(missing_argument(at, span))),
        Chain::Cons(head, tail) => {
            if at != 0 {
                synth_nth(cx, st, tail, (at - 1) as u32, span)
            } else {
                synth_argument(cx, st, head)
            }
        },
    }
}

/// Check the argument at one position.
pub fn check_nth(
    cx: &Ctx,
    st: Checker,
    args: &Chain<Expr>,
    at: u32,
    expected: &Ty,
    span: Span,
) -> (r: (Checker, Result<HExpr, Stop>))
    ensures
        r == model::calls::check_nth(cx, st, args, at, expected, span),
        kept(st, r.0),
        step(cx, st, r.0, true, (r.1 matches Ok(found) ==> expr_ok(room(cx, r.0), found))),
        fits_as(cx, *expected, r.1),
    decreases h_exprs(args), 0int, Chain::<u32>::Nil,
{
    match args {
        Chain::Nil => (st, Err(missing_argument(at, span))),
        Chain::Cons(head, tail) => {
            if at != 0 {
                check_nth(cx, st, tail, (at - 1) as u32, expected, span)
            } else {
                check_argument(cx, st, head, expected)
            }
        },
    }
}

/// Check arguments in parameter order.
/// A `mut` parameter needs a mutable value that no loop around the call
/// walks.
pub fn check_each(
    cx: &Ctx,
    st: Checker,
    args: &Chain<Expr>,
    order: &Chain<u32>,
    params: &Chain<Ty>,
    muts: &Chain<bool>,
    span: Span,
) -> (r: (Checker, Result<Chain<HExpr>, Stop>))
    ensures
        r == model::calls::check_each(cx, st, args, order, params, muts, span),
        kept(st, r.0),
        step(cx, st, r.0, true, (r.1 matches Ok(found) ==> exprs_ok(room(cx, r.0), found))),
    decreases h_exprs(args), 1int, order,
{
    match (order, params, muts) {
        (Chain::Cons(at, order_rest), Chain::Cons(param, params_rest), Chain::Cons(mutable, muts_rest)) => {
            let (st, out) = check_nth(cx, st, args, **at, param, span);
            let value = match out {
                Ok(found) => found,
                Err(stop) => {
                    return (st, Err(stop));
                },
            };
            if **mutable && !value.mutable {
                (st, Err(unnamed(Problem::ReadOnlyArgument, arg_span(args, **at, span))))
            } else {
                let _guarded = match guard_argument(cx, &st, &value, **mutable, arg_span(args, **at, span)) {
                    Ok(found) => found,
                    Err(stop) => {
                        return (st, Err(stop));
                    },
                };
                let (st, out) = check_each(cx, st, args, order_rest, params_rest, muts_rest, span);
                let rest = match out {
                    Ok(found) => found,
                    Err(stop) => {
                        return (st, Err(stop));
                    },
                };
                (st, Ok(cons(value, rest)))
            }
        },
        _ => (st, Ok(Chain::Nil)),
    }
}

/// Check arguments against concrete parameter types. A declaration with
/// names accepts labels; an empty list accepts positional arguments
/// only.
pub fn check_args_simple(
    cx: &Ctx,
    st: Checker,
    args: &Chain<Expr>,
    params: &Chain<Ty>,
    muts: &Chain<bool>,
    names: &Chain<Text>,
    what: &Text,
    span: Span,
) -> (r: (Checker, Result<Chain<HExpr>, Stop>))
    ensures
        r == model::calls::check_args_simple(cx, st, args, params, muts, names, what, span),
        kept(st, r.0),
        step(cx, st, r.0, true, (r.1 matches Ok(found) ==> exprs_ok(room(cx, r.0), found))),
    decreases h_exprs(args), 2int, Chain::<u32>::Nil,
{
    if count(args) != count(params) {
        return (st, Err(named(Problem::WrongArgumentCount { expected: count(params), found: count(args) }, what, span)));
    }
    let order = match arrange_args(args, names) {
        Ok(found) => found,
        Err(stop) => {
            return (st, Err(stop));
        },
    };
    check_each(cx, st, args, &order, params, muts, span)
}

/// The argument list with explicit types from one position on.
pub fn set_from(types: Chain<Option<Ty>>, at: u32, found: Chain<Ty>) -> (r: Chain<Option<Ty>>)
    ensures
        r == model::calls::set_from(types, at, found),
    decreases found,
{
    match found {
        Chain::Nil => types,
        Chain::Cons(head, tail) => set_from(set_nth(types, at, Some(*head)), at.wrapping_add(1), *tail),
    }
}

/// Fill the type arguments that a call writes.
pub fn explicit_types(
    cx: &Ctx,
    env: &TyEnv,
    what: &Text,
    solution: Solution,
    names: u32,
    own_start: u32,
    explicit: &Chain<TypeExpr>,
    span: Span,
) -> (r: Result<Solution, Stop>)
    ensures
        r == model::calls::explicit_types(cx, env, what, solution, names, own_start, explicit, span),
{
    if explicit.is_empty() {
        return Ok(solution);
    }
    let own = names.wrapping_sub(own_start);
    if count(explicit) != own {
        return Err(named(Problem::TypeArgumentCount { expected: own, found: count(explicit) }, what, span));
    }
    let found = match resolve_all_now(cx, env, explicit) {
        Ok(found) => found,
        Err(stop) => {
            return Err(stop);
        },
    };
    Ok(Solution { types: set_from(solution.types, own_start, found), ..solution })
}

/// Bind variables from the expected result.
pub fn expected_types(cx: &Ctx, ret: &Ty, expected: Option<&Ty>, solution: Solution) -> (r: Result<Solution, Stop>)
    ensures
        r == model::calls::expected_types(cx, ret, expected, solution),
{
    match expected {
        None => Ok(solution),
        Some(ty) => unify(cx, ret, ty, solution, false),
    }
}

/// Whether an argument is synthesized to bind variables: its declared
/// type still holds an open one.
pub fn binds_variables(cx: &Ctx, st: &Checker, args: &Chain<Expr>, at: u32, part: &Ty) -> (r: bool)
    ensures
        r == model::calls::binds_variables(cx, st, args, at, part),
{
    (contains_var(part) || contains_effect_var(part)) && match nth_arg(args, at) {
        Some(arg) => can_synth(cx, st, arg),
        None => false,
    }
}

/// Synthesize the arguments that bind open variables.
pub fn presynth(
    cx: &Ctx,
    st: Checker,
    args: &Chain<Expr>,
    order: &Chain<u32>,
    params: &Chain<Ty>,
    solution: Solution,
    span: Span,
) -> (r: (Checker, Result<Presynth, Stop>))
    ensures
        r == model::calls::presynth(cx, st, args, order, params, solution, span),
        kept(st, r.0),
        step(cx, st, r.0, true, (r.1 matches Ok(found) ==> tried_ok(room(cx, r.0), found.values))),
    decreases h_exprs(args), 1int, order,
{
    match (order, params) {
        (Chain::Cons(at, order_rest), Chain::Cons(param, params_rest)) => {
            let part = partial_substitute(param, &solution);
            if binds_variables(cx, &st, args, **at, &part) {
                let (st, out) = synth_nth(cx, st, args, **at, span);
                let value = match out {
                    Ok(found) => found,
                    Err(stop) => {
                        return (st, Err(stop));
                    },
                };
                let next = match unify(cx, &part, &value.ty, solution, true) {
                    Ok(found) => found,
                    Err(stop) => {
                        return (st, Err(stop));
                    },
                };
                let (st, out) = presynth(cx, st, args, order_rest, params_rest, next, span);
                let rest = match out {
                    Ok(found) => found,
                    Err(stop) => {
                        return (st, Err(stop));
                    },
                };
                (st, Ok(Presynth { values: cons(Some(value), rest.values), solution: rest.solution }))
            } else {
                let (st, out) = presynth(cx, st, args, order_rest, params_rest, solution, span);
                let rest = match out {
                    Ok(found) => found,
                    Err(stop) => {
                        return (st, Err(stop));
                    },
                };
                (st, Ok(Presynth { values: cons(None, rest.values), solution: rest.solution }))
            }
        },
        _ => (st, Ok(Presynth { values: Chain::Nil, solution: solution })),
    }
}

/// Check one argument against its substituted type.
pub fn settle_one(
    cx: &Ctx,
    st: Checker,
    args: &Chain<Expr>,
    at: u32,
    value: Option<HExpr>,
    want: &Ty,
    span: Span,
) -> (r: (Checker, Result<HExpr, Stop>))
    ensures
        r == model::calls::settle_one(cx, st, args, at, value, want, span),
        kept(st, r.0),
        step(
            cx,
            st,
            r.0,
            opt_expr_ok(room(cx, st), value),
            (r.1 matches Ok(found) ==> expr_ok(room(cx, r.0), found)),
        ),
    decreases h_exprs(args), 1int, Chain::<u32>::Nil,
{
    match value {
        Some(found) => {
            let fits = match expect_compatible(cx, want, found, arg_span(args, at, span)) {
                Ok(found) => found,
                Err(stop) => {
                    return (st, Err(stop));
                },
            };
            (st, Ok(fits))
        },
        None => check_nth(cx, st, args, at, want, span),
    }
}

/// Check each argument against its substituted type.
/// A `mut` parameter needs a mutable value that no loop around the call
/// walks.
pub fn settle_args(
    cx: &Ctx,
    st: Checker,
    args: &Chain<Expr>,
    order: &Chain<u32>,
    params: &Chain<Ty>,
    muts: &Chain<bool>,
    values: Chain<Option<HExpr>>,
    types: &Chain<Ty>,
    rows: &Chain<Row>,
    span: Span,
) -> (r: (Checker, Result<Chain<HExpr>, Stop>))
    ensures
        r == model::calls::settle_args(cx, st, args, order, params, muts, values, types, rows, span),
        kept(st, r.0),
        step(cx, st, r.0, tried_ok(room(cx, st), values), (r.1 matches Ok(found) ==> exprs_ok(room(cx, r.0), found))),
    decreases h_exprs(args), 2int, order,
{
    match (order, params, muts, values) {
        (Chain::Cons(at, order_rest), Chain::Cons(param, params_rest), Chain::Cons(mutable, muts_rest), Chain::Cons(early, values_rest)) => {
            let want = substitute(param, types, rows);
            let (st, out) = settle_one(cx, st, args, **at, *early, &want, span);
            let value = match out {
                Ok(found) => found,
                Err(stop) => {
                    return (st, Err(stop));
                },
            };
            if **mutable && !value.mutable {
                (st, Err(unnamed(Problem::ReadOnlyArgument, arg_span(args, **at, span))))
            } else {
                let _guarded = match guard_argument(cx, &st, &value, **mutable, arg_span(args, **at, span)) {
                    Ok(found) => found,
                    Err(stop) => {
                        return (st, Err(stop));
                    },
                };
                let (st, out) = settle_args(cx, st, args, order_rest, params_rest, muts_rest, *values_rest, types, rows, span);
                let rest = match out {
                    Ok(found) => found,
                    Err(stop) => {
                        return (st, Err(stop));
                    },
                };
                (st, Ok(cons(value, rest)))
            }
        },
        _ => (st, Ok(Chain::Nil)),
    }
}

/// Check one call with first-order generic inference.
///
/// `pre` holds the arguments that a receiver fixes. `own_start` is the
/// first position that explicit arguments fill.
pub fn check_poly_call(
    cx: &Ctx,
    st: Checker,
    what: &Text,
    sig: &Signature,
    pre: Solution,
    own_start: u32,
    explicit: &Chain<TypeExpr>,
    args: &Chain<Expr>,
    expected: Option<&Ty>,
    span: Span,
) -> (r: (Checker, Result<PolyOut, Stop>))
    ensures
        r == model::calls::check_poly_call(cx, st, what, sig, pre, own_start, explicit, args, expected, span),
        kept(st, r.0),
        step(cx, st, r.0, true, (r.1 matches Ok(found) ==> exprs_ok(room(cx, r.0), found.args))),
        r.1 matches Ok(found) ==> row_in(room(cx, r.0), model::rows::substitute_row(&sig.row, &found.rowargs)),
    decreases h_exprs(args), 3int, Chain::<u32>::Nil,
{
    if count(args) != count(&sig.params) {
        return (st, Err(named(Problem::WrongArgumentCount { expected: count(&sig.params), found: count(args) }, what, span)));
    }
    let order = match arrange_args(args, &sig.names) {
        Ok(found) => found,
        Err(stop) => {
            return (st, Err(stop));
        },
    };
    let solution = match explicit_types(cx, &st.env, what, pre, count(&sig.type_names), own_start, explicit, span) {
        Ok(found) => found,
        Err(stop) => {
            return (st, Err(stop));
        },
    };
    let solution = match expected_types(cx, &sig.ret, expected, solution) {
        Ok(found) => found,
        Err(stop) => {
            return (st, Err(stop));
        },
    };
    let (st, out) = presynth(cx, st, args, &order, &sig.params, solution, span);
    let early = match out {
        Ok(found) => found,
        Err(stop) => {
            return (st, Err(stop));
        },
    };
    if first_open(&early.solution.types).is_some() {
        return (st, Err(cannot_infer(what, &sig.type_names, &early.solution.types, span)));
    }
    let types = filled_types(&early.solution.types, 0u32);
    if contains_callback_in(&types) {
        return (st, Err(unnamed(Problem::CallbackArgument, span)));
    }
    let solution = infer_bound_row(cx, &st.env, &types, &sig.type_bounds, early.solution);
    let rows = settled_rows(&solution.rows);
    let _bounds = match check_type_arguments(cx, &st.env, &types, &sig.type_bounds, &types, &rows, span) {
        Ok(found) => found,
        Err(stop) => {
            return (st, Err(stop));
        },
    };
    let (st, out) = settle_args(cx, st, args, &order, &sig.params, &sig.muts, early.values, &types, &rows, span);
    let checked = match out {
        Ok(found) => found,
        Err(stop) => {
            return (st, Err(stop));
        },
    };
    let row = substitute_row(&sig.row, &rows);
    let (st, out) = charge_row(cx, st, &row, span);
    let _charged = match out {
        Ok(found) => found,
        Err(stop) => {
            return (st, Err(stop));
        },
    };
    let ret = substitute(&sig.ret, &types, &rows);
    (st, Ok(PolyOut { targs: types, rowargs: rows, args: checked, ret: ret }))
}

/// The problem of a type argument that nothing decides. It names the
/// type parameter.
pub fn cannot_infer(
    what: &Text,
    names: &Chain<Text>,
    types: &Chain<Option<Ty>>,
    span: Span,
) -> (r: Stop)
    ensures
        r == model::calls::cannot_infer(what, names, types, span),
{
    match first_open(types) {
        Some(at) => {
            match nth(names, at) {
                Some(name) => named(Problem::CannotInfer { parameter: copy_chain(&*name) }, what, span),
                None => named(Problem::CannotInfer { parameter: Chain::Nil }, what, span),
            }
        },
        None => named(Problem::CannotInfer { parameter: Chain::Nil }, what, span),
    }
}

/// The signature of a function.
pub fn function_signature(sig: &FnSig) -> (r: Signature)
    ensures
        r == model::calls::function_signature(sig),
{
    Signature {
        type_names: clone_texts(&sig.type_params),
        type_bounds: clone_interface_use_lists(&sig.type_bounds),
        effects: count(&sig.effect_params),
        params: clone_tys(&sig.params),
        muts: copy_chain(&sig.param_muts),
        names: clone_texts(&sig.param_names),
        ret: sig.ret.clone(),
        row: copy_chain(&sig.row),
    }
}

/// The signature of an enum arm as a constructor.
pub fn arm_signature(info: &ClassInfo) -> (r: Signature)
    ensures
        r == model::calls::arm_signature(info),
{
    Signature {
        type_names: clone_texts(&info.type_params),
        type_bounds: clone_interface_use_lists(&info.type_bounds),
        effects: 0,
        params: clone_tys(&info.field_tys),
        muts: falses(&info.field_tys),
        names: clone_texts(&info.field_names),
        ret: info.self_ty.clone(),
        row: Chain::Nil,
    }
}

/// The signature of a class as a constructor: that of its initializer.
pub fn class_signature(info: &ClassInfo) -> (r: Signature)
    ensures
        r == model::calls::class_signature(info),
{
    match &info.init {
        Some(init) => {
            Signature {
                type_names: clone_texts(&info.type_params),
                type_bounds: clone_interface_use_lists(&info.type_bounds),
                effects: 0,
                params: clone_tys(&init.params),
                muts: copy_chain(&init.param_muts),
                names: clone_texts(&init.param_names),
                ret: info.self_ty.clone(),
                row: copy_chain(&init.row),
            }
        },
        None => {
            Signature {
                type_names: clone_texts(&info.type_params),
                type_bounds: clone_interface_use_lists(&info.type_bounds),
                effects: 0,
                params: Chain::Nil,
                muts: Chain::Nil,
                names: Chain::Nil,
                ret: info.self_ty.clone(),
                row: Chain::Nil,
            }
        },
    }
}

/// The signature of a method, seen with the type parameters of a class.
pub fn method_signature(class_names: &Chain<Text>, sig: &MethodSig) -> (r: Signature)
    ensures
        r == model::calls::method_signature(class_names, sig),
{
    Signature {
        type_names: concat(clone_texts(&*class_names), clone_texts(&sig.own_type_params)),
        type_bounds: concat(clone_interface_use_lists(&sig.class_type_bounds), clone_interface_use_lists(&sig.own_type_bounds)),
        effects: count(&sig.own_effect_params),
        params: clone_tys(&sig.params),
        muts: copy_chain(&sig.param_muts),
        names: clone_texts(&sig.param_names),
        ret: sig.ret.clone(),
        row: copy_chain(&sig.row),
    }
}

/// The signature of an interface method: `Self` is the first type
/// parameter, those of the interface follow, then its own.
pub fn requirement_signature(info: &InterfaceInfo, sig: &InterfaceMethodSig) -> (r: Signature)
    ensures
        r == model::calls::requirement_signature(info, sig),
{
    Signature {
        type_names: cons(text("Self"), concat(clone_texts(&info.type_params), clone_texts(&sig.own_type_params))),
        type_bounds: cons(Chain::Nil, concat(clone_interface_use_lists(&info.type_bounds), clone_interface_use_lists(&sig.own_type_bounds))),
        effects: count(&info.effect_params).wrapping_add(count(&sig.own_effect_params)),
        params: clone_tys(&sig.params),
        muts: copy_chain(&sig.param_muts),
        names: clone_texts(&sig.param_names),
        ret: sig.ret.clone(),
        row: copy_chain(&sig.row),
    }
}

/// No argument of a signature is found yet.
pub fn unsolved(sig: &Signature) -> (r: Solution)
    ensures
        r == model::calls::unsolved(sig),
{
    Solution { types: open_types(&sig.type_names), rows: open_rows(sig.effects) }
}

/// Effect arguments that an application fixes.
pub fn fixed_rows(items: &Chain<Row>) -> (r: Chain<Option<Row>>)
    ensures
        r == model::calls::fixed_rows(items),
    decreases items,
{
    match items {
        Chain::Nil => Chain::Nil,
        Chain::Cons(head, tail) => cons(Some(copy_chain(&**head)), fixed_rows(tail)),
    }
}

/// The type of a constructed arm: the whole enum, unless an expected
/// type fixed the result. Narrowing to an arm is what a case does.
pub fn constructed_type(family: Option<u32>, expects: bool, targs: &Chain<Ty>, ret: Ty) -> (r: Ty)
    ensures
        r == model::calls::constructed_type(family, expects, targs, ret),
{
    match family {
        None => ret,
        Some(parent) => {
            if expects {
                ret
            } else if targs.is_empty() {
                Ty::Class(parent)
            } else {
                Ty::Inst(parent, clone_tys(&*targs))
            }
        },
    }
}

/// Construct one enum arm with inference over the family parameters.
pub fn construct_arm(
    cx: &Ctx,
    st: Checker,
    arm: u32,
    explicit: &Chain<TypeExpr>,
    args: &Chain<Expr>,
    expected: Option<&Ty>,
    span: Span,
) -> (r: (Checker, Result<HExpr, Stop>))
    ensures
        r == model::calls::construct_arm(cx, st, arm, explicit, args, expected, span),
        kept(st, r.0),
        step(cx, st, r.0, is_arm(cx, arm), (r.1 matches Ok(found) ==> expr_ok(room(cx, r.0), found))),
    decreases h_exprs(args), 4int, Chain::<u32>::Nil,
{
    proof {
        reveal(construct_covered);
    }
    let info = class_at(cx, arm);
    let sig = arm_signature(info);
    let pre = unsolved(&sig);
    let (st, out) = check_poly_call(cx, st, &info.arm_short, &sig, pre, 0u32, explicit, args, expected, span);
    let found = match out {
        Ok(found) => found,
        Err(stop) => {
            return (st, Err(stop));
        },
    };
    let ty = constructed_type(info.family, expected.is_some(), &found.targs, found.ret);
    (st, Ok(hexpr(ty, true, HKind::Construct { class: arm, targs: found.targs, args: found.args })))
}

/// Resolve a bare name as a zero-field enum constructor.
pub fn try_ctor_name(cx: &Ctx, st: Checker, name: &Text, expected: Option<&Ty>, span: Span) -> (r: (Checker, Result<Option<HExpr>, Stop>))
    ensures
        r == model::calls::try_ctor_name(cx, st, name, expected, span),
        kept(st, r.0),
        step(cx, st, r.0, true, (r.1 matches Ok(found) ==> opt_expr_ok(room(cx, r.0), found))),
    decreases h_exprs(&Chain::<Expr>::Nil), 5int, Chain::<u32>::Nil,
{
    let arm = match resolve_ctor(cx, &st.env, name, expected, span) {
        Ok(found) => found,
        Err(stop) => {
            return (st, Err(stop));
        },
    };
    match arm {
        None => (st, Ok(None)),
        Some(class) => {
            let (st, out) = construct_arm(cx, st, class, &Chain::Nil, &Chain::Nil, expected, span);
            let value = match out {
                Ok(found) => found,
                Err(stop) => {
                    return (st, Err(stop));
                },
            };
            (st, Ok(Some(value)))
        },
    }
}

/// Check a call of one method that a class declares. The operator sugar
/// takes the same path with a hook name: the same dispatch rule, the
/// same effect charge, and the same generic binding.
pub fn check_declared_method(
    cx: &Ctx,
    st: Checker,
    recv: HExpr,
    class: u32,
    class_args: &Chain<Ty>,
    found: MethodFound,
    name: &Text,
    name_span: Span,
    type_args: &Chain<TypeExpr>,
    args: &Chain<Expr>,
    expected: Option<&Ty>,
    span: Span,
) -> (r: (Checker, Result<HExpr, Stop>))
    ensures
        r == model::calls::check_declared_method(cx, st, recv, class, class_args, found, name, name_span, type_args, args, expected, span),
        kept(st, r.0),
        step(
            cx,
            st,
            r.0,
            expr_ok(room(cx, st), recv) && answers(cx, recv.ty, class, *name, found),
            (r.1 matches Ok(found) ==> expr_ok(room(cx, r.0), found)),
        ),
    decreases h_exprs(args), 4int, Chain::<u32>::Nil,
{
    proof {
        reveal(callee_covered);
        reveal(method_covered);
    }
    if is_text(&found.sig.name, "init") {
        return (st, Err(unnamed(Problem::InitIsNotMethod, name_span)));
    }
    if found.sig.mut_self && !recv.mutable {
        return (st, Err(named(Problem::ReadOnlyReceiver, name, name_span)));
    }
    let info = class_at(cx, class);
    let sig = method_signature(&info.type_params, &found.sig);
    let own_start = count(&info.type_params);
    proof {
        lemma_lookup_row(cx, class, Chain::Nil, own_start, *name);
    }
    let pre = Solution { types: concat(fixed_types(class_args), open_types(&found.sig.own_type_params)), rows: open_rows(sig.effects) };
    let (st, out) = check_poly_call(cx, st, name, &sig, pre, own_start, type_args, args, expected, span);
    let call = match out {
        Ok(found) => found,
        Err(stop) => {
            return (st, Err(stop));
        },
    };
    if info.is_final {
        let outer = if found.owner == class { truncate(clone_tys(&call.targs), own_start) } else { substitute_all(&found.owner_args, &call.targs, &Chain::Nil) };
        let targs = concat(outer, skip(call.targs, own_start));
        (st, Ok(hexpr(call.ret, true, HKind::Call { func: found.sig.func, targs: targs, rowargs: call.rowargs, args: cons(recv, call.args) })))
    } else {
        (st, Ok(hexpr(call.ret, true, HKind::MethodCall {
            recv: recv,
            selector: copy_chain(&*name),
            generic_owner: !found.owner_args.is_empty(),
            own_targs: skip(call.targs, own_start),
            own_rowargs: call.rowargs,
            args: call.args,
        })))
    }
}

/// Check a call of one method that a bound or a default answers.
pub fn check_interface_method(
    cx: &Ctx,
    st: Checker,
    recv: HExpr,
    bound: BoundMethod,
    name: &Text,
    name_span: Span,
    type_args: &Chain<TypeExpr>,
    args: &Chain<Expr>,
    expected: Option<&Ty>,
    span: Span,
) -> (r: (Checker, Result<HExpr, Stop>))
    ensures
        r == model::calls::check_interface_method(cx, st, recv, bound, name, name_span, type_args, args, expected, span),
        kept(st, r.0),
        step(cx, st, r.0, expr_ok(room(cx, st), recv), (r.1 matches Ok(found) ==> expr_ok(room(cx, r.0), found))),
    decreases h_exprs(args), 4int, Chain::<u32>::Nil,
{
    proof {
        reveal(requirement_covered);
    }
    let info = interface_at(cx, bound.interface);
    let requirement = match nth(&info.methods, bound.method) {
        Some(found) => found,
        None => {
            return (st, Err(named(Problem::NoInterfaceMethod { ty: recv.ty }, name, name_span)));
        },
    };
    if requirement.mut_self && !recv.mutable {
        return (st, Err(named(Problem::ReadOnlyReceiver, name, name_span)));
    }
    let sig = requirement_signature(info, requirement);
    let own_start = count(&info.type_params).wrapping_add(1);
    let pre = Solution {
        types: cons(Some(recv.ty.clone()), concat(fixed_types(&bound.application.type_args), open_types(&requirement.own_type_params))),
        rows: concat(fixed_rows(&bound.application.row_args), open_rows(count(&requirement.own_effect_params))),
    };
    let (st, out) = check_poly_call(cx, st, name, &sig, pre, own_start, type_args, args, expected, span);
    let call = match out {
        Ok(found) => found,
        Err(stop) => {
            return (st, Err(stop));
        },
    };
    let ty = normalize_associated(cx, &st.env, &call.ret);
    (st, Ok(hexpr(ty, true, HKind::InterfaceCall {
        recv: recv,
        interface: bound.interface,
        method: bound.method,
        selector: copy_chain(&*name),
        own_targs: skip(call.targs, own_start),
        own_rowargs: skip(call.rowargs, count(&info.effect_params)),
        args: call.args,
    })))
}

/// Check one operator against the hook of the receiver class.
pub fn operator_hook(
    cx: &Ctx,
    st: Checker,
    recv: HExpr,
    hook: OperatorHook,
    name: &str,
    operands: &Chain<Expr>,
    span: Span,
) -> (r: (Checker, Result<HExpr, Stop>))
    ensures
        r == model::calls::operator_hook(cx, st, recv, hook, name, operands, span),
        kept(st, r.0),
        step(
            cx,
            st,
            r.0,
            expr_ok(room(cx, st), recv) && model::system::find_operator_hook(cx, &recv.ty, name) == Some(hook),
            (r.1 matches Ok(found) ==> expr_ok(room(cx, r.0), found)),
        ),
    decreases h_exprs(operands), 5int, Chain::<u32>::Nil,
{
    if count(&hook.found.sig.params) != count(operands) {
        return (st, Err(Stop::Fail(Diag { problem: Problem::HookOperandCount { expected: count(&hook.found.sig.params) }, subject: text(name), span: span })));
    }
    check_declared_method(cx, st, recv, hook.class, &hook.args, hook.found, &text(name), span, &Chain::Nil, operands, None, span)
}

/// Call a method without arguments.
pub fn call_zero_method(cx: &Ctx, st: Checker, recv: HExpr, name: &str, span: Span) -> (r: (Checker, Result<HExpr, Stop>))
    ensures
        r == model::calls::call_zero_method(cx, st, recv, name, span),
        kept(st, r.0),
        step(cx, st, r.0, expr_ok(room(cx, st), recv), (r.1 matches Ok(found) ==> expr_ok(room(cx, r.0), found))),
    decreases h_exprs(&Chain::<Expr>::Nil), 5int, Chain::<u32>::Nil,
{
    proof {
        reveal(requirement_covered);
    }
    let selector = text(name);
    match class_of(cx, &recv.ty) {
        Some(nominal) => {
            match find_method_owner(cx, nominal.class, &selector) {
                None => (st, Err(named(Problem::NoMethod { class: nominal.class }, &selector, span))),
                Some(found) => check_declared_method(cx, st, recv, nominal.class, &nominal.args, found, &selector, span, &Chain::Nil, &Chain::Nil, None, span),
            }
        },
        None => {
            proof {
                lemma_bound_method(cx, st.env, recv.ty, selector, span);
            }
            let bound = match bound_method(cx, &st.env, &recv.ty, &selector, span) {
                Ok(found) => found,
                Err(stop) => {
                    return (st, Err(stop));
                },
            };
            match bound {
                None => (st, Err(named(Problem::NoInterfaceMethod { ty: recv.ty }, &selector, span))),
                Some(method) => {
                    let sig = instantiate_interface_method(&recv.ty, &method.application, &method.sig);
                    if sig.mut_self && !recv.mutable {
                        (st, Err(named(Problem::ReadOnlyReceiver, &selector, span)))
                    } else {
                        let _guarded = match guard_argument(cx, &st, &recv, sig.mut_self, span) {
                            Ok(found) => found,
                            Err(stop) => {
                                return (st, Err(stop));
                            },
                        };
                        if !sig.params.is_empty() {
                            return (st, Err(named(Problem::InterfaceMethodArguments, &selector, span)));
                        }
                        let (st, out) = charge_row(cx, st, &sig.row, span);
                        let _charged = match out {
                            Ok(found) => found,
                            Err(stop) => {
                                return (st, Err(stop));
                            },
                        };
                        let ret = normalize_associated(cx, &st.env, &sig.ret);
                        (st, Ok(hexpr(ret, true, HKind::InterfaceCall {
                            recv: recv,
                            interface: method.interface,
                            method: method.method,
                            selector: selector,
                            own_targs: Chain::Nil,
                            own_rowargs: Chain::Nil,
                            args: Chain::Nil,
                        })))
                    }
                },
            }
        },
    }
}

/// Check a call of an operation value.
pub fn call_operation(
    cx: &Ctx,
    st: Checker,
    callee: HExpr,
    op: u32,
    args: &Chain<Expr>,
    params: &Chain<Ty>,
    ret: Ty,
    span: Span,
) -> (r: (Checker, Result<HExpr, Stop>))
    ensures
        r == model::calls::call_operation(cx, st, callee, op, args, params, ret, span),
        kept(st, r.0),
        step(
            cx,
            st,
            r.0,
            expr_ok(room(cx, st), callee) && op_of_type(callee.ty) == Some(op),
            (r.1 matches Ok(found) ==> expr_ok(room(cx, r.0), found)),
        ),
    decreases h_exprs(args), 3int, Chain::<u32>::Nil,
{
    let (st, out) = charge_op(cx, st, op, span);
    let _charged = match out {
        Ok(found) => found,
        Err(stop) => {
            return (st, Err(stop));
        },
    };
    let (st, out) = check_args_simple(cx, st, args, params, &falses(params), &Chain::Nil, &text("operation"), span);
    let checked = match out {
        Ok(found) => found,
        Err(stop) => {
            return (st, Err(stop));
        },
    };
    (st, Ok(hexpr(ret, true, HKind::CallValue { callee: callee, args: checked })))
}

/// Check a call of a closure-typed value. Calling an operation value
/// performs the operation, and the charge follows its identity.
pub fn synth_call_value(
    cx: &Ctx,
    st: Checker,
    callee: HExpr,
    args: &Chain<Expr>,
    callee_span: Span,
    span: Span,
) -> (r: (Checker, Result<HExpr, Stop>))
    ensures
        r == model::calls::synth_call_value(cx, st, callee, args, callee_span, span),
        kept(st, r.0),
        step(cx, st, r.0, expr_ok(room(cx, st), callee), (r.1 matches Ok(found) ==> expr_ok(room(cx, r.0), found))),
    decreases h_exprs(args), 4int, Chain::<u32>::Nil,
{
    match callee.ty.clone() {
        Ty::Op(op, fn_ty) => {
            match *fn_ty {
                Ty::Fn(params, _, ret, _) => call_operation(cx, st, callee, op, args, &params, *ret, span),
                _ => (st, Err(unnamed(Problem::NotCallable { ty: callee.ty }, callee_span))),
            }
        },
        Ty::Fn(params, muts, ret, row) => call_closure(cx, st, callee, args, &params, &muts, *ret, &row, span),
        Ty::Callback(params, muts, ret, row) => call_closure(cx, st, callee, args, &params, &muts, *ret, &row, span),
        _ => (st, Err(unnamed(Problem::NotCallable { ty: callee.ty }, callee_span))),
    }
}

/// Check a call through a function value: its type carries the `mut`
/// markers and the row.
pub fn call_closure(
    cx: &Ctx,
    st: Checker,
    callee: HExpr,
    args: &Chain<Expr>,
    params: &Chain<Ty>,
    muts: &Chain<bool>,
    ret: Ty,
    row: &Row,
    span: Span,
) -> (r: (Checker, Result<HExpr, Stop>))
    ensures
        r == model::calls::call_closure(cx, st, callee, args, params, muts, ret, row, span),
        kept(st, r.0),
        step(
            cx,
            st,
            r.0,
            expr_ok(room(cx, st), callee) && row_of_type(callee.ty) == Some(*row),
            (r.1 matches Ok(found) ==> expr_ok(room(cx, r.0), found)),
        ),
    decreases h_exprs(args), 3int, Chain::<u32>::Nil,
{
    let (st, out) = charge_row(cx, st, row, span);
    let _charged = match out {
        Ok(found) => found,
        Err(stop) => {
            return (st, Err(stop));
        },
    };
    let (st, out) = check_args_simple(cx, st, args, params, muts, &Chain::Nil, &text("closure"), span);
    let checked = match out {
        Ok(found) => found,
        Err(stop) => {
            return (st, Err(stop));
        },
    };
    (st, Ok(hexpr(ret, true, HKind::CallValue { callee: callee, args: checked })))
}

/// Resolve `List` or `Map` as a builder constructor.
pub fn resolve_builder(
    cx: &Ctx,
    env: &TyEnv,
    name: &Text,
    name_span: Span,
    type_args: &Chain<TypeExpr>,
) -> (r: Result<Option<Callee>, Stop>)
    ensures
        r == model::calls::resolve_builder(cx, env, name, name_span, type_args),
{
    if is_text(&*name, "List") {
        if count(type_args) != 1 {
            Err(named(Problem::BuilderNeedsTypeArguments { expected: 1 }, name, name_span))
        } else {
            let found = match resolve_all_now(cx, env, type_args) {
                Ok(found) => found,
                Err(stop) => {
                    return Err(stop);
                },
            };
            match found {
                Chain::Cons(element, _) => Ok(Some(Callee::ListCtor(*element))),
                Chain::Nil => Ok(None),
            }
        }
    } else if is_text(&*name, "Map") {
        match type_args {
            Chain::Cons(key, rest) => {
                match &**rest {
                    Chain::Cons(value, more) => {
                        if !more.is_empty() {
                            Err(named(Problem::BuilderNeedsTypeArguments { expected: 2 }, name, name_span))
                        } else {
                            let key_ty = match resolve_now(cx, env, key) {
                                Ok(found) => found,
                                Err(stop) => {
                                    return Err(stop);
                                },
                            };
                            let _hashable = match check_key_now(cx, env, &key_ty, key.span) {
                                Ok(found) => found,
                                Err(stop) => {
                                    return Err(stop);
                                },
                            };
                            let value_ty = match resolve_now(cx, env, value) {
                                Ok(found) => found,
                                Err(stop) => {
                                    return Err(stop);
                                },
                            };
                            Ok(Some(Callee::MapCtor(key_ty, value_ty)))
                        }
                    },
                    Chain::Nil => Err(named(Problem::BuilderNeedsTypeArguments { expected: 2 }, name, name_span)),
                }
            },
            Chain::Nil => Err(named(Problem::BuilderNeedsTypeArguments { expected: 2 }, name, name_span)),
        }
    } else {
        Ok(None)
    }
}

/// Resolve a called name to a declaration of the module or the core
/// image.
pub fn resolve_declared(
    cx: &Ctx,
    env: &TyEnv,
    name: &Text,
    name_span: Span,
    type_args: &Chain<TypeExpr>,
) -> (r: Result<Option<Callee>, Stop>)
    ensures
        r == model::calls::resolve_declared(cx, env, name, name_span, type_args),
        r matches Ok(Some(callee)) ==> !(callee is Value) && (callee matches Callee::Func(func) ==> named_func(cx, func)) && !(callee is Ctor),
{
    match module_func(cx, env, name) {
        Some(func) => Ok(Some(Callee::Func(func))),
        None => {
            match lookup_type(cx, name, env) {
                None => resolve_builder(cx, env, name, name_span, type_args),
                Some(class) => {
                    match class_at(cx, class).kind {
                        ClassKind::Normal => Ok(Some(Callee::Class(class))),
                        ClassKind::EnumParent => Err(named(Problem::EnumNotConstructible, name, name_span)),
                        ClassKind::EnumCase => resolve_builder(cx, env, name, name_span, type_args),
                    }
                },
            }
        },
    }
}

/// Resolve a called name through the `use` lines.
pub fn resolve_used(cx: &Ctx, st: Checker, name: &Text, name_span: Span) -> (r: (Checker, Result<Callee, Stop>))
    ensures
        r == model::calls::resolve_used(cx, st, name, name_span),
        kept(st, r.0),
        step(cx, st, r.0, true, (r.1 matches Ok(found) ==> callee_ok(room(cx, r.0), found))),
{
    let (st, out) = use_binding(cx, st, name);
    let binding = match out {
        Ok(found) => found,
        Err(stop) => {
            return (st, Err(stop));
        },
    };
    match binding {
        Some(UseBinding::SysMember { group, member }) => (st, Ok(Callee::SysMember { group: group, member: member })),
        Some(UseBinding::SysGroup(group)) => (st, Ok(Callee::SysGroup(group))),
        Some(UseBinding::ModulePath(_)) => (st, Err(named(Problem::ModuleNotCallable, name, name_span))),
        None => (st, Err(named(Problem::NoFunction, name, name_span))),
    }
}

/// Resolve one called name to its meaning.
pub fn resolve_callee(
    cx: &Ctx,
    st: Checker,
    name: &Text,
    name_span: Span,
    type_args: &Chain<TypeExpr>,
    expected: Option<&Ty>,
    span: Span,
) -> (r: (Checker, Result<Callee, Stop>))
    ensures
        r == model::calls::resolve_callee(cx, st, name, name_span, type_args, expected, span),
        kept(st, r.0),
        step(cx, st, r.0, true, (r.1 matches Ok(found) ==> callee_ok(room(cx, r.0), found))),
{
    let (st, out) = resolve_value(st, name);
    let local = match out {
        Ok(found) => found,
        Err(stop) => {
            return (st, Err(stop));
        },
    };
    match local {
        Some(found) => {
            if is_captured_callback(&found) {
                (st, Err(unnamed(Problem::CallbackCaptured, name_span)))
            } else {
                (st, Ok(Callee::Value(name_expr(NameRes { mutable: true, ..found }))))
            }
        },
        None => {
            let declared = match resolve_declared(cx, &st.env, name, name_span, type_args) {
                Ok(found) => found,
                Err(stop) => {
                    return (st, Err(stop));
                },
            };
            match declared {
                Some(callee) => (st, Ok(callee)),
                None => {
                    let arm = match resolve_ctor(cx, &st.env, name, expected, span) {
                        Ok(found) => found,
                        Err(stop) => {
                            return (st, Err(stop));
                        },
                    };
                    match arm {
                        Some(class) => (st, Ok(Callee::Ctor(class))),
                        None => resolve_used(cx, st, name, name_span),
                    }
                },
            }
        },
    }
}

/// Whether a name is a capture of a callback that may not escape.
pub fn is_captured_callback(found: &NameRes) -> (r: bool)
    ensures
        r == model::calls::is_captured_callback(found),
{
    match found.source {
        CapSource::Capture(_) => contains_callback(&found.ty),
        CapSource::Local(_) => false,
    }
}

/// Check the key of a map that a constructor call makes.
pub fn check_map_key(
    cx: &Ctx,
    env: &TyEnv,
    targs: &Chain<Ty>,
    type_args: &Chain<TypeExpr>,
    name_span: Span,
    span: Span,
) -> (r: Result<(), Stop>)
    ensures
        r == model::calls::check_map_key(cx, env, targs, type_args, name_span, span),
{
    match targs {
        Chain::Nil => Err(unnamed(Problem::MapNeedsKey, span)),
        Chain::Cons(key, _) => {
            match type_args {
                Chain::Cons(written, _) => check_key_now(cx, env, key, written.span),
                Chain::Nil => check_key_now(cx, env, key, name_span),
            }
        },
    }
}

/// Check a call of a class as a constructor.
pub fn construct_class(
    cx: &Ctx,
    st: Checker,
    class: u32,
    name: &Text,
    name_span: Span,
    type_args: &Chain<TypeExpr>,
    args: &Chain<Expr>,
    expected: Option<&Ty>,
    span: Span,
) -> (r: (Checker, Result<HExpr, Stop>))
    ensures
        r == model::calls::construct_class(cx, st, class, name, name_span, type_args, args, expected, span),
        kept(st, r.0),
        step(cx, st, r.0, true, (r.1 matches Ok(found) ==> expr_ok(room(cx, r.0), found))),
    decreases h_exprs(args), 5int, Chain::<u32>::Nil,
{
    proof {
        reveal(construct_covered);
    }
    let info = class_at(cx, class);
    match construct_problem(cx, &st.env, class) {
        Some(problem) => (st, Err(named(problem, name, name_span))),
        None => {
            if info.native_repr == Some(NativeRepr::Bytes) && count(args) == 1 {
                if !type_args.is_empty() {
                    (st, Err(unnamed(Problem::BytesTakesNoTypeArguments, name_span)))
                } else {
                    let (st, out) = check_first(cx, st, args, &Ty::Str, span);
                    let source = match out {
                        Ok(found) => found,
                        Err(stop) => {
                            return (st, Err(stop));
                        },
                    };
                    (st, Ok(hexpr(Ty::Bytes, false, HKind::Native { op: NativeOp::BytesNew, args: one(source) })))
                }
            } else {
                let sig = class_signature(info);
                let pre = unsolved(&sig);
                let (st, out) = check_poly_call(cx, st, name, &sig, pre, 0u32, type_args, args, expected, span);
                let found = match out {
                    Ok(found) => found,
                    Err(stop) => {
                        return (st, Err(stop));
                    },
                };
                if info.native_repr == Some(NativeRepr::MapRepr) {
                    let _key = match check_map_key(cx, &st.env, &found.targs, type_args, name_span, span) {
                        Ok(found) => found,
                        Err(stop) => {
                            return (st, Err(stop));
                        },
                    };
                    (st, Ok(hexpr(found.ret, true, HKind::Construct { class: class, targs: found.targs, args: found.args })))
                } else {
                    (st, Ok(hexpr(found.ret, true, HKind::Construct { class: class, targs: found.targs, args: found.args })))
                }
            }
        },
    }
}

/// Check one named intrinsic inside the core image. The first argument
/// is its manifest name.
pub fn call_intrinsic(
    cx: &Ctx,
    st: Checker,
    type_args: &Chain<TypeExpr>,
    args: &Chain<Expr>,
    span: Span,
) -> (r: (Checker, Result<HExpr, Stop>))
    ensures
        r == model::calls::call_intrinsic(cx, st, type_args, args, span),
        kept(st, r.0),
        step(cx, st, r.0, true, (r.1 matches Ok(found) ==> expr_ok(room(cx, r.0), found))),
    decreases h_exprs(args), 5int, Chain::<u32>::Nil,
{
    if !type_args.is_empty() {
        return (st, Err(unnamed(Problem::IntrinsicTakesNoTypeArguments, span)));
    }
    match args {
        Chain::Nil => (st, Err(unnamed(Problem::IntrinsicNeedsName, span))),
        Chain::Cons(name_expr, operands) => {
            match &*name_expr.kind {
                ExprKind::Str(name) => {
                    match find_intrinsic(&cx.bundle.intrinsics, name, 0u32) {
                        None => (st, Err(named(Problem::NoIntrinsic, name, name_expr.span))),
                        Some(slot) => perform_intrinsic(cx, st, slot, name, operands, span),
                    }
                },
                _ => (st, Err(unnamed(Problem::IntrinsicNameNotLiteral, name_expr.span))),
            }
        },
    }
}

/// Check the operands of one intrinsic.
pub fn perform_intrinsic(
    cx: &Ctx,
    st: Checker,
    slot: u32,
    name: &Text,
    operands: &Chain<Expr>,
    span: Span,
) -> (r: (Checker, Result<HExpr, Stop>))
    ensures
        r == model::calls::perform_intrinsic(cx, st, slot, name, operands, span),
        kept(st, r.0),
        step(cx, st, r.0, true, (r.1 matches Ok(found) ==> expr_ok(room(cx, r.0), found))),
    decreases h_exprs(operands), 4int, Chain::<u32>::Nil,
{
    let def = match nth(&cx.bundle.intrinsics, slot) {
        Some(found) => found,
        None => {
            return (st, Err(named(Problem::NoIntrinsic, name, span)));
        },
    };
    let vars = variables(&st.env.type_names, st.env.type_offset);
    let params = match abi_types(cx, &def.params, &vars, span) {
        Ok(found) => found,
        Err(stop) => {
            return (st, Err(stop));
        },
    };
    let reply = match abi_type(cx, &def.reply, &vars, span) {
        Ok(found) => found,
        Err(stop) => {
            return (st, Err(stop));
        },
    };
    let (st, out) = check_args_simple(cx, st, operands, &params, &falses(&params), &Chain::Nil, name, span);
    let checked = match out {
        Ok(found) => found,
        Err(stop) => {
            return (st, Err(stop));
        },
    };
    (st, Ok(hexpr(reply, true, HKind::Intrinsic { slot: slot, args: checked })))
}

/// Check a call of a plain name: a local closure, a top-level function,
/// a class constructor, an enum constructor, a builder, or a `sys`
/// member that a `use` line binds.
pub fn call_named(
    cx: &Ctx,
    st: Checker,
    name: &Text,
    name_span: Span,
    type_args: &Chain<TypeExpr>,
    args: &Chain<Expr>,
    expected: Option<&Ty>,
    span: Span,
) -> (r: (Checker, Result<HExpr, Stop>))
    ensures
        r == model::calls::call_named(cx, st, name, name_span, type_args, args, expected, span),
        kept(st, r.0),
        step(cx, st, r.0, true, (r.1 matches Ok(found) ==> expr_ok(room(cx, r.0), found))),
    decreases h_exprs(args), 8int, Chain::<u32>::Nil,
{
    proof {
        reveal(callee_covered);
    }
    if st.env.core_scope && is_text(&*name, "intrinsic") {
        return call_intrinsic(cx, st, type_args, args, span);
    }
    let (st, out) = resolve_callee(cx, st, name, name_span, type_args, expected, span);
    let callee = match out {
        Ok(found) => found,
        Err(stop) => {
            return (st, Err(stop));
        },
    };
    match callee {
        Callee::Value(value) => {
            if !type_args.is_empty() {
                (st, Err(unnamed(Problem::ClosureTakesNoTypeArguments, name_span)))
            } else {
                synth_call_value(cx, st, value, args, name_span, span)
            }
        },
        Callee::Func(func) => {
            let sig = function_signature(sig_at(cx, func));
            proof {
                assert(declares_row(cx, func, sig.row));
            }
            let pre = unsolved(&sig);
            let (st, out) = check_poly_call(cx, st, name, &sig, pre, 0u32, type_args, args, expected, span);
            let found = match out {
                Ok(found) => found,
                Err(stop) => {
                    return (st, Err(stop));
                },
            };
            (st, Ok(hexpr(found.ret, true, HKind::Call { func: func, targs: found.targs, rowargs: found.rowargs, args: found.args })))
        },
        Callee::Class(class) => construct_class(cx, st, class, name, name_span, type_args, args, expected, span),
        Callee::Ctor(arm) => construct_arm(cx, st, arm, type_args, args, expected, span),
        Callee::ListCtor(element) => {
            if !args.is_empty() {
                (st, Err(named(Problem::BuilderTakesNoArguments, name, span)))
            } else {
                (st, Ok(hexpr(Ty::ListOf(Box::new(element)), true, HKind::ListLit(Chain::Nil))))
            }
        },
        Callee::MapCtor(key, value) => {
            if !args.is_empty() {
                (st, Err(named(Problem::BuilderTakesNoArguments, name, span)))
            } else {
                (st, Ok(hexpr(Ty::MapOf(Box::new(key), Box::new(value)), true, HKind::MapLit(Chain::Nil))))
            }
        },
        Callee::SysMember { group, member } => check_sys_call(cx, st, &group, &member, name_span, type_args, args, span),
        Callee::SysGroup(_) => (st, Err(named(Problem::GroupNotCallable, name, name_span))),
    }
}

} // verus!
