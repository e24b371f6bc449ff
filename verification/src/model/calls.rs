//! Call resolution, arguments, and polymorphic inference.
//!
//! The functions here state what the functions of the same name compute.

use vstd::prelude::*;
use crate::ast::{Expr, ExprKind, Span, TypeExpr};
use crate::chain::{Chain, chain_of};
use crate::context::{BoundMethod, ClassInfo, ClassKind, Ctx, Decl, FnSig, InterfaceInfo, InterfaceMethodSig, MethodFound, MethodSig, NativeRepr, TyEnv, UseBinding};
use crate::hir::{HExpr, HKind, NativeOp};
use crate::model::conform::{bound_method, find_method_owner, instantiate_interface_method, normalize_associated};
use crate::model::control::check_sys_call;
use crate::model::exprs::{check_expr, synth_expr};
use crate::model::infer::{arrange_args, can_synth, check_type_arguments, filled_types, first_open, fixed_types, infer_bound_row, open_rows, open_types, partial_substitute, settled_rows, unify};
use crate::model::lists::{concat, cons, count, falses, nth, one, set_nth, skip, truncate};
use crate::model::lookup::{class_at, class_of, interface_at, lookup_type, sig_at};
use crate::model::resolve::{check_key_type, named, resolve_type, resolve_types, unnamed};
use crate::model::rows::substitute_row;
use crate::model::scope::{charge_row, expect_compatible, guard_argument, hexpr, module_func, name_expr, resolve_value, use_binding};
use crate::model::subst::{contains_callback, contains_callback_in, contains_effect_var, contains_var, substitute, substitute_all, variables};
use crate::model::system::{abi_type, abi_types, charge_op, construct_problem, find_intrinsic, resolve_ctor};
use crate::problem::{Diag, Problem, Stop};
use crate::state::{Callee, CapSource, Checker, NameRes, OperatorHook, PolyOut, Presynth, Signature, Solution};
use crate::text::Text;
use crate::types::{Row, Ty};
use crate::model::heights::{h_expr, h_exprs};

verus! {

/// Resolve a written type inside a body.
pub open spec fn resolve_now(cx: &Ctx, env: &TyEnv, ty: &TypeExpr) -> Result<Ty, Stop>
{
    match resolve_type(cx, env, Decl { keys: Chain::Nil, next_func: 0, values: Chain::Nil }, ty) {
        (_, found) => found,
    }
}

/// Resolve written types inside a body.
pub open spec fn resolve_all_now(cx: &Ctx, env: &TyEnv, items: &Chain<TypeExpr>) -> Result<Chain<Ty>, Stop>
{
    match resolve_types(cx, env, Decl { keys: Chain::Nil, next_func: 0, values: Chain::Nil }, items) {
        (_, found) => found,
    }
}

/// Require a map key inside a body to be hashable.
pub open spec fn check_key_now(cx: &Ctx, env: &TyEnv, key: &Ty, span: Span) -> Result<(), Stop>
{
    match check_key_type(cx, env, Decl { keys: Chain::Nil, next_func: 0, values: Chain::Nil }, key, span) {
        (_, found) => found,
    }
}

/// The value of an argument, its label left out.
pub open spec fn unlabeled<'a>(arg: &'a Expr) -> &'a Expr
{
    match &*arg.kind {
        ExprKind::Labeled { label: _, value } => value,
        _ => arg,
    }
}

/// The argument at one position, its label left out.
pub open spec fn nth_arg<'a>(args: &'a Chain<Expr>, at: u32) -> Option<&'a Expr>
{
    match nth(args, at) {
        Some(arg) => Some(unlabeled(arg)),
        None => None,
    }
}

/// Where the argument at one position stands.
pub open spec fn arg_span(args: &Chain<Expr>, at: u32, span: Span) -> Span
{
    match nth_arg(args, at) {
        Some(arg) => arg.span,
        None => span,
    }
}

/// The position at one place of an argument order.
pub open spec fn placed(order: &Chain<u32>, at: u32) -> u32
{
    match nth(order, at) {
        Some(found) => *found,
        None => 0xffff_ffffu32,
    }
}

/// The problem of a missing argument.
pub open spec fn missing_argument(at: u32, span: Span) -> Stop
{
    unnamed(Problem::WrongArgumentCount { expected: at.wrapping_add(1), found: 0 }, span)
}

/// Synthesize the first argument as it is written.
pub open spec fn synth_first(cx: &Ctx, st: Checker, args: &Chain<Expr>, span: Span) -> (Checker, Result<HExpr, Stop>)
    decreases h_exprs(args), 0int, Chain::<u32>::Nil,
{
    match args {
        Chain::Nil => (st, Err(missing_argument(0u32, span))),
        Chain::Cons(head, _) => synth_expr(cx, st, head),
    }
}

/// Check the first argument as it is written.
pub open spec fn check_first(cx: &Ctx, st: Checker, args: &Chain<Expr>, expected: &Ty, span: Span) -> (Checker, Result<HExpr, Stop>)
    decreases h_exprs(args), 0int, Chain::<u32>::Nil,
{
    match args {
        Chain::Nil => (st, Err(missing_argument(0u32, span))),
        Chain::Cons(head, _) => check_expr(cx, st, head, expected),
    }
}

/// Synthesize one argument, below its label.
pub open spec fn synth_argument(cx: &Ctx, st: Checker, arg: &Expr) -> (Checker, Result<HExpr, Stop>)
    decreases h_expr(arg), 1int, Chain::<u32>::Nil,
{
    match &*arg.kind {
        ExprKind::Labeled { label: _, value } => synth_expr(cx, st, value),
        _ => synth_expr(cx, st, arg),
    }
}

/// Check one argument, below its label.
pub open spec fn check_argument(cx: &Ctx, st: Checker, arg: &Expr, expected: &Ty) -> (Checker, Result<HExpr, Stop>)
    decreases h_expr(arg), 2int, Chain::<u32>::Nil,
{
    match &*arg.kind {
        ExprKind::Labeled { label: _, value } => check_expr(cx, st, value, expected),
        _ => check_expr(cx, st, arg, expected),
    }
}

/// Synthesize the argument at one position.
pub open spec fn synth_nth(cx: &Ctx, st: Checker, args: &Chain<Expr>, at: u32, span: Span) -> (Checker, Result<HExpr, Stop>)
    decreases h_exprs(args), 0int, Chain::<u32>::Nil,
{
    match args {
        Chain::Nil => (st, Err(missing_argument(at, span))),
        Chain::Cons(head, tail) => {
            if at != 0 {
                synth_nth(cx, st, tail, (at - 1) as u32, span)
            } else {
                synth_argument(cx, st, head)
            }
        },
    }
}

/// Check the argument at one position.
pub open spec fn check_nth(
    cx: &Ctx,
    st: Checker,
    args: &Chain<Expr>,
    at: u32,
    expected: &Ty,
    span: Span,
) -> (Checker, Result<HExpr, Stop>)
    decreases h_exprs(args), 0int, Chain::<u32>::Nil,
{
    match args {
        Chain::Nil => (st, Err(missing_argument(at, span))),
        Chain::Cons(head, tail) => {
            if at != 0 {
                check_nth(cx, st, tail, (at - 1) as u32, expected, span)
            } else {
                check_argument(cx, st, head, expected)
            }
        },
    }
}

/// Check arguments in parameter order.
/// A `mut` parameter needs a mutable value that no loop around the call
/// walks.
pub open spec fn check_each(
    cx: &Ctx,
    st: Checker,
    args: &Chain<Expr>,
    order: &Chain<u32>,
    params: &Chain<Ty>,
    muts: &Chain<bool>,
    span: Span,
) -> (Checker, Result<Chain<HExpr>, Stop>)
    decreases h_exprs(args), 1int, order,
{
    match (order, params, muts) {
        (Chain::Cons(at, order_rest), Chain::Cons(param, params_rest), Chain::Cons(mutable, muts_rest)) => {
            match check_nth(cx, st, args, **at, param, span) {
                (st, Err(stop)) => (st, Err(stop)),
                (st, Ok(value)) => {
                    if **mutable && !value.mutable {
                        (st, Err(unnamed(Problem::ReadOnlyArgument, arg_span(args, **at, span))))
                    } else {
                        match guard_argument(cx, &st, &value, **mutable, arg_span(args, **at, span)) {
                            Err(stop) => (st, Err(stop)),
                            Ok(_guarded) => {
                                match check_each(cx, st, args, order_rest, params_rest, muts_rest, span) {
                                    (st, Err(stop)) => (st, Err(stop)),
                                    (st, Ok(rest)) => {
                                        (st, Ok(cons(value, rest)))
                                    },
                                }
                            },
                        }
                    }
                },
            }
        },
        _ => (st, Ok(Chain::Nil)),
    }
}

/// Check arguments against concrete parameter types. A declaration with
/// names accepts labels; an empty list accepts positional arguments
/// only.
pub open spec fn check_args_simple(
    cx: &Ctx,
    st: Checker,
    args: &Chain<Expr>,
    params: &Chain<Ty>,
    muts: &Chain<bool>,
    names: &Chain<Text>,
    what: &Text,
    span: Span,
) -> (Checker, Result<Chain<HExpr>, Stop>)
    decreases h_exprs(args), 2int, Chain::<u32>::Nil,
{
    if count(args) != count(params) {
        (st, Err(named(Problem::WrongArgumentCount { expected: count(params), found: count(args) }, what, span)))
    } else {
        match arrange_args(args, names) {
            Err(stop) => (st, Err(stop)),
            Ok(order) => {
                check_each(cx, st, args, &order, params, muts, span)
            },
        }
    }
}

/// The argument list with explicit types from one position on.
pub open spec fn set_from(types: Chain<Option<Ty>>, at: u32, found: Chain<Ty>) -> Chain<Option<Ty>>
    decreases found,
{
    match found {
        Chain::Nil => types,
        Chain::Cons(head, tail) => set_from(set_nth(types, at, Some(*head)), at.wrapping_add(1), *tail),
    }
}

/// Fill the type arguments that a call writes.
pub open spec fn explicit_types(
    cx: &Ctx,
    env: &TyEnv,
    what: &Text,
    solution: Solution,
    names: u32,
    own_start: u32,
    explicit: &Chain<TypeExpr>,
    span: Span,
) -> Result<Solution, Stop>
{
    if explicit.is_empty() {
        Ok(solution)
    } else {
        let own = names.wrapping_sub(own_start);
        if count(explicit) != own {
            Err(named(Problem::TypeArgumentCount { expected: own, found: count(explicit) }, what, span))
        } else {
            match resolve_all_now(cx, env, explicit) {
                Err(stop) => Err(stop),
                Ok(found) => {
                    Ok(Solution { types: set_from(solution.types, own_start, found), ..solution })
                },
            }
        }
    }
}

/// Bind variables from the expected result.
pub open spec fn expected_types(cx: &Ctx, ret: &Ty, expected: Option<&Ty>, solution: Solution) -> Result<Solution, Stop>
{
    match expected {
        None => Ok(solution),
        Some(ty) => unify(cx, ret, ty, solution, false),
    }
}

/// Whether an argument is synthesized to bind variables: its declared
/// type still holds an open one.
pub open spec fn binds_variables(cx: &Ctx, st: &Checker, args: &Chain<Expr>, at: u32, part: &Ty) -> bool
{
    (contains_var(part) || contains_effect_var(part)) && match nth_arg(args, at) {
        Some(arg) => can_synth(cx, st, arg),
        None => false,
    }
}

/// Synthesize the arguments that bind open variables.
pub open spec fn presynth(
    cx: &Ctx,
    st: Checker,
    args: &Chain<Expr>,
    order: &Chain<u32>,
    params: &Chain<Ty>,
    solution: Solution,
    span: Span,
) -> (Checker, Result<Presynth, Stop>)
    decreases h_exprs(args), 1int, order,
{
    match (order, params) {
        (Chain::Cons(at, order_rest), Chain::Cons(param, params_rest)) => {
            let part = partial_substitute(param, &solution);
            if binds_variables(cx, &st, args, **at, &part) {
                match synth_nth(cx, st, args, **at, span) {
                    (st, Err(stop)) => (st, Err(stop)),
                    (st, Ok(value)) => {
                        match unify(cx, &part, &value.ty, solution, true) {
                            Err(stop) => (st, Err(stop)),
                            Ok(next) => {
                                match presynth(cx, st, args, order_rest, params_rest, next, span) {
                                    (st, Err(stop)) => (st, Err(stop)),
                                    (st, Ok(rest)) => {
                                        (st, Ok(Presynth { values: cons(Some(value), rest.values), solution: rest.solution }))
                                    },
                                }
                            },
                        }
                    },
                }
            } else {
                match presynth(cx, st, args, order_rest, params_rest, solution, span) {
                    (st, Err(stop)) => (st, Err(stop)),
                    (st, Ok(rest)) => {
                        (st, Ok(Presynth { values: cons(None, rest.values), solution: rest.solution }))
                    },
                }
            }
        },
        _ => (st, Ok(Presynth { values: Chain::Nil, solution: solution })),
    }
}

/// Check one argument against its substituted type.
pub open spec fn settle_one(
    cx: &Ctx,
    st: Checker,
    args: &Chain<Expr>,
    at: u32,
    value: Option<HExpr>,
    want: &Ty,
    span: Span,
) -> (Checker, Result<HExpr, Stop>)
    decreases h_exprs(args), 1int, Chain::<u32>::Nil,
{
    match value {
        Some(found) => {
            match expect_compatible(cx, want, found, arg_span(args, at, span)) {
                Err(stop) => (st, Err(stop)),
                Ok(fits) => {
                    (st, Ok(fits))
                },
            }
        },
        None => check_nth(cx, st, args, at, want, span),
    }
}

/// Check each argument against its substituted type.
/// A `mut` parameter needs a mutable value that no loop around the call
/// walks.
pub open spec fn settle_args(
    cx: &Ctx,
    st: Checker,
    args: &Chain<Expr>,
    order: &Chain<u32>,
    params: &Chain<Ty>,
    muts: &Chain<bool>,
    values: Chain<Option<HExpr>>,
    types: &Chain<Ty>,
    rows: &Chain<Row>,
    span: Span,
) -> (Checker, Result<Chain<HExpr>, Stop>)
    decreases h_exprs(args), 2int, order,
{
    match (order, params, muts, values) {
        (Chain::Cons(at, order_rest), Chain::Cons(param, params_rest), Chain::Cons(mutable, muts_rest), Chain::Cons(early, values_rest)) => {
            let want = substitute(param, types, rows);
            match settle_one(cx, st, args, **at, *early, &want, span) {
                (st, Err(stop)) => (st, Err(stop)),
                (st, Ok(value)) => {
                    if **mutable && !value.mutable {
                        (st, Err(unnamed(Problem::ReadOnlyArgument, arg_span(args, **at, span))))
                    } else {
                        match guard_argument(cx, &st, &value, **mutable, arg_span(args, **at, span)) {
                            Err(stop) => (st, Err(stop)),
                            Ok(_guarded) => {
                                match settle_args(cx, st, args, order_rest, params_rest, muts_rest, *values_rest, types, rows, span) {
                                    (st, Err(stop)) => (st, Err(stop)),
                                    (st, Ok(rest)) => {
                                        (st, Ok(cons(value, rest)))
                                    },
                                }
                            },
                        }
                    }
                },
            }
        },
        _ => (st, Ok(Chain::Nil)),
    }
}

/// Check one call with first-order generic inference.
///
/// `pre` holds the arguments that a receiver fixes. `own_start` is the
/// first position that explicit arguments fill.
pub open spec fn check_poly_call(
    cx: &Ctx,
    st: Checker,
    what: &Text,
    sig: &Signature,
    pre: Solution,
    own_start: u32,
    explicit: &Chain<TypeExpr>,
    args: &Chain<Expr>,
    expected: Option<&Ty>,
    span: Span,
) -> (Checker, Result<PolyOut, Stop>)
    decreases h_exprs(args), 3int, Chain::<u32>::Nil,
{
    if count(args) != count(&sig.params) {
        (st, Err(named(Problem::WrongArgumentCount { expected: count(&sig.params), found: count(args) }, what, span)))
    } else {
        match arrange_args(args, &sig.names) {
            Err(stop) => (st, Err(stop)),
            Ok(order) => {
                match explicit_types(cx, &st.env, what, pre, count(&sig.type_names), own_start, explicit, span) {
                    Err(stop) => (st, Err(stop)),
                    Ok(solution) => {
                        match expected_types(cx, &sig.ret, expected, solution) {
                            Err(stop) => (st, Err(stop)),
                            Ok(solution) => {
                                match presynth(cx, st, args, &order, &sig.params, solution, span) {
                                    (st, Err(stop)) => (st, Err(stop)),
                                    (st, Ok(early)) => {
                                        if first_open(&early.solution.types).is_some() {
                                            (st, Err(cannot_infer(what, &sig.type_names, &early.solution.types, span)))
                                        } else {
                                            let types = filled_types(&early.solution.types, 0u32);
                                            if contains_callback_in(&types) {
                                                (st, Err(unnamed(Problem::CallbackArgument, span)))
                                            } else {
                                                let solution = infer_bound_row(cx, &st.env, &types, &sig.type_bounds, early.solution);
                                                let rows = settled_rows(&solution.rows);
                                                match check_type_arguments(cx, &st.env, &types, &sig.type_bounds, &types, &rows, span) {
                                                    Err(stop) => (st, Err(stop)),
                                                    Ok(_bounds) => {
                                                        match settle_args(cx, st, args, &order, &sig.params, &sig.muts, early.values, &types, &rows, span) {
                                                            (st, Err(stop)) => (st, Err(stop)),
                                                            (st, Ok(checked)) => {
                                                                let row = substitute_row(&sig.row, &rows);
                                                                match charge_row(cx, st, &row, span) {
                                                                    (st, Err(stop)) => (st, Err(stop)),
                                                                    (st, Ok(_charged)) => {
                                                                        let ret = substitute(&sig.ret, &types, &rows);
                                                                        (st, Ok(PolyOut { targs: types, rowargs: rows, args: checked, ret: ret }))
                                                                    },
                                                                }
                                                            },
                                                        }
                                                    },
                                                }
                                            }
                                        }
                                    },
                                }
                            },
                        }
                    },
                }
            },
        }
    }
}

/// The problem of a type argument that nothing decides. It names the
/// type parameter.
pub open spec fn cannot_infer(
    what: &Text,
    names: &Chain<Text>,
    types: &Chain<Option<Ty>>,
    span: Span,
) -> Stop
{
    match first_open(types) {
        Some(at) => {
            match nth(names, at) {
                Some(name) => named(Problem::CannotInfer { parameter: *name }, what, span),
                None => named(Problem::CannotInfer { parameter: Chain::Nil }, what, span),
            }
        },
        None => named(Problem::CannotInfer { parameter: Chain::Nil }, what, span),
    }
}

/// The signature of a function.
pub open spec fn function_signature(sig: &FnSig) -> Signature
{
    Signature {
        type_names: sig.type_params,
        type_bounds: sig.type_bounds,
        effects: count(&sig.effect_params),
        params: sig.params,
        muts: sig.param_muts,
        names: sig.param_names,
        ret: sig.ret,
        row: sig.row,
    }
}

/// The signature of an enum arm as a constructor.
pub open spec fn arm_signature(info: &ClassInfo) -> Signature
{
    Signature {
        type_names: info.type_params,
        type_bounds: info.type_bounds,
        effects: 0,
        params: info.field_tys,
        muts: falses(&info.field_tys),
        names: info.field_names,
        ret: info.self_ty,
        row: Chain::Nil,
    }
}

/// The signature of a class as a constructor: that of its initializer.
pub open spec fn class_signature(info: &ClassInfo) -> Signature
{
    match &info.init {
        Some(init) => {
            Signature {
                type_names: info.type_params,
                type_bounds: info.type_bounds,
                effects: 0,
                params: init.params,
                muts: init.param_muts,
                names: init.param_names,
                ret: info.self_ty,
                row: init.row,
            }
        },
        None => {
            Signature {
                type_names: info.type_params,
                type_bounds: info.type_bounds,
                effects: 0,
                params: Chain::Nil,
                muts: Chain::Nil,
                names: Chain::Nil,
                ret: info.self_ty,
                row: Chain::Nil,
            }
        },
    }
}

/// The signature of a method, seen with the type parameters of a class.
pub open spec fn method_signature(class_names: &Chain<Text>, sig: &MethodSig) -> Signature
{
    Signature {
        type_names: concat(*class_names, sig.own_type_params),
        type_bounds: concat(sig.class_type_bounds, sig.own_type_bounds),
        effects: count(&sig.own_effect_params),
        params: sig.params,
        muts: sig.param_muts,
        names: sig.param_names,
        ret: sig.ret,
        row: sig.row,
    }
}

/// The signature of an interface method: `Self` is the first type
/// parameter, those of the interface follow, then its own.
pub open spec fn requirement_signature(info: &InterfaceInfo, sig: &InterfaceMethodSig) -> Signature
{
    Signature {
        type_names: cons(chain_of("Self"@), concat(info.type_params, sig.own_type_params)),
        type_bounds: cons(Chain::Nil, concat(info.type_bounds, sig.own_type_bounds)),
        effects: count(&info.effect_params).wrapping_add(count(&sig.own_effect_params)),
        params: sig.params,
        muts: sig.param_muts,
        names: sig.param_names,
        ret: sig.ret,
        row: sig.row,
    }
}

/// No argument of a signature is found yet.
pub open spec fn unsolved(sig: &Signature) -> Solution
{
    Solution { types: open_types(&sig.type_names), rows: open_rows(sig.effects) }
}

/// Effect arguments that an application fixes.
pub open spec fn fixed_rows(items: &Chain<Row>) -> Chain<Option<Row>>
    decreases items,
{
    match items {
        Chain::Nil => Chain::Nil,
        Chain::Cons(head, tail) => cons(Some(**head), fixed_rows(tail)),
    }
}

/// The type of a constructed arm: the whole enum, unless an expected
/// type fixed the result. Narrowing to an arm is what a case does.
pub open spec fn constructed_type(family: Option<u32>, expects: bool, targs: &Chain<Ty>, ret: Ty) -> Ty
{
    match family {
        None => ret,
        Some(parent) => {
            if expects {
                ret
            } else if targs.is_empty() {
                Ty::Class(parent)
            } else {
                Ty::Inst(parent, *targs)
            }
        },
    }
}

/// Construct one enum arm with inference over the family parameters.
pub open spec fn construct_arm(
    cx: &Ctx,
    st: Checker,
    arm: u32,
    explicit: &Chain<TypeExpr>,
    args: &Chain<Expr>,
    expected: Option<&Ty>,
    span: Span,
) -> (Checker, Result<HExpr, Stop>)
    decreases h_exprs(args), 4int, Chain::<u32>::Nil,
{
    let info = class_at(cx, arm);
    let sig = arm_signature(info);
    let pre = unsolved(&sig);
    match check_poly_call(cx, st, &info.arm_short, &sig, pre, 0u32, explicit, args, expected, span) {
        (st, Err(stop)) => (st, Err(stop)),
        (st, Ok(found)) => {
            let ty = constructed_type(info.family, expected.is_some(), &found.targs, found.ret);
            (st, Ok(hexpr(ty, true, HKind::Construct { class: arm, targs: found.targs, args: found.args })))
        },
    }
}

/// Resolve a bare name as a zero-field enum constructor.
pub open spec fn try_ctor_name(cx: &Ctx, st: Checker, name: &Text, expected: Option<&Ty>, span: Span) -> (Checker, Result<Option<HExpr>, Stop>)
    decreases h_exprs(&Chain::<Expr>::Nil), 5int, Chain::<u32>::Nil,
{
    match resolve_ctor(cx, &st.env, name, expected, span) {
        Err(stop) => (st, Err(stop)),
        Ok(arm) => {
            match arm {
                None => (st, Ok(None)),
                Some(class) => {
                    match construct_arm(cx, st, class, &Chain::Nil, &Chain::Nil, expected, span) {
                        (st, Err(stop)) => (st, Err(stop)),
                        (st, Ok(value)) => {
                            (st, Ok(Some(value)))
                        },
                    }
                },
            }
        },
    }
}

/// Check a call of one method that a class declares. The operator sugar
/// takes the same path with a hook name: the same dispatch rule, the
/// same effect charge, and the same generic binding.
pub open spec fn check_declared_method(
    cx: &Ctx,
    st: Checker,
    recv: HExpr,
    class: u32,
    class_args: &Chain<Ty>,
    found: MethodFound,
    name: &Text,
    name_span: Span,
    type_args: &Chain<TypeExpr>,
    args: &Chain<Expr>,
    expected: Option<&Ty>,
    span: Span,
) -> (Checker, Result<HExpr, Stop>)
    decreases h_exprs(args), 4int, Chain::<u32>::Nil,
{
    if (found.sig.name@ == "init"@) {
        (st, Err(unnamed(Problem::InitIsNotMethod, name_span)))
    } else if found.sig.mut_self && !recv.mutable {
        (st, Err(named(Problem::ReadOnlyReceiver, name, name_span)))
    } else {
        let info = class_at(cx, class);
        let sig = method_signature(&info.type_params, &found.sig);
        let own_start = count(&info.type_params);
        let pre = Solution { types: concat(fixed_types(class_args), open_types(&found.sig.own_type_params)), rows: open_rows(sig.effects) };
        match check_poly_call(cx, st, name, &sig, pre, own_start, type_args, args, expected, span) {
            (st, Err(stop)) => (st, Err(stop)),
            (st, Ok(call)) => {
                if info.is_final {
                    let outer = if found.owner == class { truncate(call.targs, own_start) } else { substitute_all(&found.owner_args, &call.targs, &Chain::Nil) };
                    let targs = concat(outer, skip(call.targs, own_start));
                    (st, Ok(hexpr(call.ret, true, HKind::Call { func: found.sig.func, targs: targs, rowargs: call.rowargs, args: cons(recv, call.args) })))
                } else {
                    (st, Ok(hexpr(call.ret, true, HKind::MethodCall {
                        recv: recv,
                        selector: *name,
                        generic_owner: !found.owner_args.is_empty(),
                        own_targs: skip(call.targs, own_start),
                        own_rowargs: call.rowargs,
                        args: call.args,
                    })))
                }
            },
        }
    }
}

/// Check a call of one method that a bound or a default answers.
pub open spec fn check_interface_method(
    cx: &Ctx,
    st: Checker,
    recv: HExpr,
    bound: BoundMethod,
    name: &Text,
    name_span: Span,
    type_args: &Chain<TypeExpr>,
    args: &Chain<Expr>,
    expected: Option<&Ty>,
    span: Span,
) -> (Checker, Result<HExpr, Stop>)
    decreases h_exprs(args), 4int, Chain::<u32>::Nil,
{
    let info = interface_at(cx, bound.interface);
    match nth(&info.methods, bound.method) {
        None => (st, Err(named(Problem::NoInterfaceMethod { ty: recv.ty }, name, name_span))),
        Some(requirement) => {
            if requirement.mut_self && !recv.mutable {
                (st, Err(named(Problem::ReadOnlyReceiver, name, name_span)))
            } else {
                let sig = requirement_signature(info, requirement);
                let own_start = count(&info.type_params).wrapping_add(1);
                let pre = Solution {
                    types: cons(Some(recv.ty), concat(fixed_types(&bound.application.type_args), open_types(&requirement.own_type_params))),
                    rows: concat(fixed_rows(&bound.application.row_args), open_rows(count(&requirement.own_effect_params))),
                };
                match check_poly_call(cx, st, name, &sig, pre, own_start, type_args, args, expected, span) {
                    (st, Err(stop)) => (st, Err(stop)),
                    (st, Ok(call)) => {
                        let ty = normalize_associated(cx, &st.env, &call.ret);
                        (st, Ok(hexpr(ty, true, HKind::InterfaceCall {
                            recv: recv,
                            interface: bound.interface,
                            method: bound.method,
                            selector: *name,
                            own_targs: skip(call.targs, own_start),
                            own_rowargs: skip(call.rowargs, count(&info.effect_params)),
                            args: call.args,
                        })))
                    },
                }
            }
        },
    }
}

/// Check one operator against the hook of the receiver class.
pub open spec fn operator_hook(
    cx: &Ctx,
    st: Checker,
    recv: HExpr,
    hook: OperatorHook,
    name: &str,
    operands: &Chain<Expr>,
    span: Span,
) -> (Checker, Result<HExpr, Stop>)
    decreases h_exprs(operands), 5int, Chain::<u32>::Nil,
{
    if count(&hook.found.sig.params) != count(operands) {
        (st, Err(Stop::Fail(Diag { problem: Problem::HookOperandCount { expected: count(&hook.found.sig.params) }, subject: chain_of(name@), span: span })))
    } else {
        check_declared_method(cx, st, recv, hook.class, &hook.args, hook.found, &chain_of(name@), span, &Chain::Nil, operands, None, span)
    }
}

/// Call a method without arguments.
pub open spec fn call_zero_method(cx: &Ctx, st: Checker, recv: HExpr, name: &str, span: Span) -> (Checker, Result<HExpr, Stop>)
    decreases h_exprs(&Chain::<Expr>::Nil), 5int, Chain::<u32>::Nil,
{
    let selector = chain_of(name@);
    match class_of(cx, &recv.ty) {
        Some(nominal) => {
            match find_method_owner(cx, nominal.class, &selector) {
                None => (st, Err(named(Problem::NoMethod { class: nominal.class }, &selector, span))),
                Some(found) => check_declared_method(cx, st, recv, nominal.class, &nominal.args, found, &selector, span, &Chain::Nil, &Chain::Nil, None, span),
            }
        },
        None => {
            match bound_method(cx, &st.env, &recv.ty, &selector, span) {
                Err(stop) => (st, Err(stop)),
                Ok(bound) => {
                    match bound {
                        None => (st, Err(named(Problem::NoInterfaceMethod { ty: recv.ty }, &selector, span))),
                        Some(method) => {
                            let sig = instantiate_interface_method(&recv.ty, &method.application, &method.sig);
                            if sig.mut_self && !recv.mutable {
                                (st, Err(named(Problem::ReadOnlyReceiver, &selector, span)))
                            } else {
                                match guard_argument(cx, &st, &recv, sig.mut_self, span) {
                                    Err(stop) => (st, Err(stop)),
                                    Ok(_guarded) => {
                                        if !sig.params.is_empty() {
                                            (st, Err(named(Problem::InterfaceMethodArguments, &selector, span)))
                                        } else {
                                            match charge_row(cx, st, &sig.row, span) {
                                                (st, Err(stop)) => (st, Err(stop)),
                                                (st, Ok(_charged)) => {
                                                    let ret = normalize_associated(cx, &st.env, &sig.ret);
                                                    (st, Ok(hexpr(ret, true, HKind::InterfaceCall {
                                                        recv: recv,
                                                        interface: method.interface,
                                                        method: method.method,
                                                        selector: selector,
                                                        own_targs: Chain::Nil,
                                                        own_rowargs: Chain::Nil,
                                                        args: Chain::Nil,
                                                    })))
                                                },
                                            }
                                        }
                                    },
                                }
                            }
                        },
                    }
                },
            }
        },
    }
}

/// Check a call of an operation value.
pub open spec fn call_operation(
    cx: &Ctx,
    st: Checker,
    callee: HExpr,
    op: u32,
    args: &Chain<Expr>,
    params: &Chain<Ty>,
    ret: Ty,
    span: Span,
) -> (Checker, Result<HExpr, Stop>)
    decreases h_exprs(args), 3int, Chain::<u32>::Nil,
{
    match charge_op(cx, st, op, span) {
        (st, Err(stop)) => (st, Err(stop)),
        (st, Ok(_charged)) => {
            match check_args_simple(cx, st, args, params, &falses(params), &Chain::Nil, &chain_of("operation"@), span) {
                (st, Err(stop)) => (st, Err(stop)),
                (st, Ok(checked)) => {
                    (st, Ok(hexpr(ret, true, HKind::CallValue { callee: callee, args: checked })))
                },
            }
        },
    }
}

/// Check a call of a closure-typed value. Calling an operation value
/// performs the operation, and the charge follows its identity.
pub open spec fn synth_call_value(
    cx: &Ctx,
    st: Checker,
    callee: HExpr,
    args: &Chain<Expr>,
    callee_span: Span,
    span: Span,
) -> (Checker, Result<HExpr, Stop>)
    decreases h_exprs(args), 4int, Chain::<u32>::Nil,
{
    match callee.ty {
        Ty::Op(op, fn_ty) => {
            match *fn_ty {
                Ty::Fn(params, _, ret, _) => call_operation(cx, st, callee, op, args, &params, *ret, span),
                _ => (st, Err(unnamed(Problem::NotCallable { ty: callee.ty }, callee_span))),
            }
        },
        Ty::Fn(params, muts, ret, row) => call_closure(cx, st, callee, args, &params, &muts, *ret, &row, span),
        Ty::Callback(params, muts, ret, row) => call_closure(cx, st, callee, args, &params, &muts, *ret, &row, span),
        _ => (st, Err(unnamed(Problem::NotCallable { ty: callee.ty }, callee_span))),
    }
}

/// Check a call through a function value: its type carries the `mut`
/// markers and the row.
pub open spec fn call_closure(
    cx: &Ctx,
    st: Checker,
    callee: HExpr,
    args: &Chain<Expr>,
    params: &Chain<Ty>,
    muts: &Chain<bool>,
    ret: Ty,
    row: &Row,
    span: Span,
) -> (Checker, Result<HExpr, Stop>)
    decreases h_exprs(args), 3int, Chain::<u32>::Nil,
{
    match charge_row(cx, st, row, span) {
        (st, Err(stop)) => (st, Err(stop)),
        (st, Ok(_charged)) => {
            match check_args_simple(cx, st, args, params, muts, &Chain::Nil, &chain_of("closure"@), span) {
                (st, Err(stop)) => (st, Err(stop)),
                (st, Ok(checked)) => {
                    (st, Ok(hexpr(ret, true, HKind::CallValue { callee: callee, args: checked })))
                },
            }
        },
    }
}

/// Resolve `List` or `Map` as a builder constructor.
pub open spec fn resolve_builder(
    cx: &Ctx,
    env: &TyEnv,
    name: &Text,
    name_span: Span,
    type_args: &Chain<TypeExpr>,
) -> Result<Option<Callee>, Stop>
{
    if ((*name)@ == "List"@) {
        if count(type_args) != 1 {
            Err(named(Problem::BuilderNeedsTypeArguments { expected: 1 }, name, name_span))
        } else {
            match resolve_all_now(cx, env, type_args) {
                Err(stop) => Err(stop),
                Ok(found) => {
                    match found {
                        Chain::Cons(element, _) => Ok(Some(Callee::ListCtor(*element))),
                        Chain::Nil => Ok(None),
                    }
                },
            }
        }
    } else if ((*name)@ == "Map"@) {
        match type_args {
            Chain::Cons(key, rest) => {
                match &**rest {
                    Chain::Cons(value, more) => {
                        if !more.is_empty() {
                            Err(named(Problem::BuilderNeedsTypeArguments { expected: 2 }, name, name_span))
                        } else {
                            match resolve_now(cx, env, key) {
                                Err(stop) => Err(stop),
                                Ok(key_ty) => {
                                    match check_key_now(cx, env, &key_ty, key.span) {
                                        Err(stop) => Err(stop),
                                        Ok(_hashable) => {
                                            match resolve_now(cx, env, value) {
                                                Err(stop) => Err(stop),
                                                Ok(value_ty) => {
                                                    Ok(Some(Callee::MapCtor(key_ty, value_ty)))
                                                },
                                            }
                                        },
                                    }
                                },
                            }
                        }
                    },
                    Chain::Nil => Err(named(Problem::BuilderNeedsTypeArguments { expected: 2 }, name, name_span)),
                }
            },
            Chain::Nil => Err(named(Problem::BuilderNeedsTypeArguments { expected: 2 }, name, name_span)),
        }
    } else {
        Ok(None)
    }
}

/// Resolve a called name to a declaration of the module or the core
/// image.
pub open spec fn resolve_declared(
    cx: &Ctx,
    env: &TyEnv,
    name: &Text,
    name_span: Span,
    type_args: &Chain<TypeExpr>,
) -> Result<Option<Callee>, Stop>
{
    match module_func(cx, env, name) {
        Some(func) => Ok(Some(Callee::Func(func))),
        None => {
            match lookup_type(cx, name, env) {
                None => resolve_builder(cx, env, name, name_span, type_args),
                Some(class) => {
                    match class_at(cx, class).kind {
                        ClassKind::Normal => Ok(Some(Callee::Class(class))),
                        ClassKind::EnumParent => Err(named(Problem::EnumNotConstructible, name, name_span)),
                        ClassKind::EnumCase => resolve_builder(cx, env, name, name_span, type_args),
                    }
                },
            }
        },
    }
}

/// Resolve a called name through the `use` lines.
pub open spec fn resolve_used(cx: &Ctx, st: Checker, name: &Text, name_span: Span) -> (Checker, Result<Callee, Stop>)
{
    match use_binding(cx, st, name) {
        (st, Err(stop)) => (st, Err(stop)),
        (st, Ok(binding)) => {
            match binding {
                Some(UseBinding::SysMember { group, member }) => (st, Ok(Callee::SysMember { group: group, member: member })),
                Some(UseBinding::SysGroup(group)) => (st, Ok(Callee::SysGroup(group))),
                Some(UseBinding::ModulePath(_)) => (st, Err(named(Problem::ModuleNotCallable, name, name_span))),
                None => (st, Err(named(Problem::NoFunction, name, name_span))),
            }
        },
    }
}

/// Resolve one called name to its meaning.
pub open spec fn resolve_callee(
    cx: &Ctx,
    st: Checker,
    name: &Text,
    name_span: Span,
    type_args: &Chain<TypeExpr>,
    expected: Option<&Ty>,
    span: Span,
) -> (Checker, Result<Callee, Stop>)
{
    match resolve_value(st, name) {
        (st, Err(stop)) => (st, Err(stop)),
        (st, Ok(local)) => {
            match local {
                Some(found) => {
                    if is_captured_callback(&found) {
                        (st, Err(unnamed(Problem::CallbackCaptured, name_span)))
                    } else {
                        (st, Ok(Callee::Value(name_expr(NameRes { mutable: true, ..found }))))
                    }
                },
                None => {
                    match resolve_declared(cx, &st.env, name, name_span, type_args) {
                        Err(stop) => (st, Err(stop)),
                        Ok(declared) => {
                            match declared {
                                Some(callee) => (st, Ok(callee)),
                                None => {
                                    match resolve_ctor(cx, &st.env, name, expected, span) {
                                        Err(stop) => (st, Err(stop)),
                                        Ok(arm) => {
                                            match arm {
                                                Some(class) => (st, Ok(Callee::Ctor(class))),
                                                None => resolve_used(cx, st, name, name_span),
                                            }
                                        },
                                    }
                                },
                            }
                        },
                    }
                },
            }
        },
    }
}

/// Whether a name is a capture of a callback that may not escape.
pub open spec fn is_captured_callback(found: &NameRes) -> bool
{
    match found.source {
        CapSource::Capture(_) => contains_callback(&found.ty),
        CapSource::Local(_) => false,
    }
}

/// Check the key of a map that a constructor call makes.
pub open spec fn check_map_key(
    cx: &Ctx,
    env: &TyEnv,
    targs: &Chain<Ty>,
    type_args: &Chain<TypeExpr>,
    name_span: Span,
    span: Span,
) -> Result<(), Stop>
{
    match targs {
        Chain::Nil => Err(unnamed(Problem::MapNeedsKey, span)),
        Chain::Cons(key, _) => {
            match type_args {
                Chain::Cons(written, _) => check_key_now(cx, env, key, written.span),
                Chain::Nil => check_key_now(cx, env, key, name_span),
            }
        },
    }
}

/// Check a call of a class as a constructor.
pub open spec fn construct_class(
    cx: &Ctx,
    st: Checker,
    class: u32,
    name: &Text,
    name_span: Span,
    type_args: &Chain<TypeExpr>,
    args: &Chain<Expr>,
    expected: Option<&Ty>,
    span: Span,
) -> (Checker, Result<HExpr, Stop>)
    decreases h_exprs(args), 5int, Chain::<u32>::Nil,
{
    let info = class_at(cx, class);
    match construct_problem(cx, &st.env, class) {
        Some(problem) => (st, Err(named(problem, name, name_span))),
        None => {
            if info.native_repr == Some(NativeRepr::Bytes) && count(args) == 1 {
                if !type_args.is_empty() {
                    (st, Err(unnamed(Problem::BytesTakesNoTypeArguments, name_span)))
                } else {
                    match check_first(cx, st, args, &Ty::Str, span) {
                        (st, Err(stop)) => (st, Err(stop)),
                        (st, Ok(source)) => {
                            (st, Ok(hexpr(Ty::Bytes, false, HKind::Native { op: NativeOp::BytesNew, args: one(source) })))
                        },
                    }
                }
            } else {
                let sig = class_signature(info);
                let pre = unsolved(&sig);
                match check_poly_call(cx, st, name, &sig, pre, 0u32, type_args, args, expected, span) {
                    (st, Err(stop)) => (st, Err(stop)),
                    (st, Ok(found)) => {
                        if info.native_repr == Some(NativeRepr::MapRepr) {
                            match check_map_key(cx, &st.env, &found.targs, type_args, name_span, span) {
                                Err(stop) => (st, Err(stop)),
                                Ok(_key) => {
                                    (st, Ok(hexpr(found.ret, true, HKind::Construct { class: class, targs: found.targs, args: found.args })))
                                },
                            }
                        } else {
                            (st, Ok(hexpr(found.ret, true, HKind::Construct { class: class, targs: found.targs, args: found.args })))
                        }
                    },
                }
            }
        },
    }
}

/// Check one named intrinsic inside the core image. The first argument
/// is its manifest name.
pub open spec fn call_intrinsic(
    cx: &Ctx,
    st: Checker,
    type_args: &Chain<TypeExpr>,
    args: &Chain<Expr>,
    span: Span,
) -> (Checker, Result<HExpr, Stop>)
    decreases h_exprs(args), 5int, Chain::<u32>::Nil,
{
    if !type_args.is_empty() {
        (st, Err(unnamed(Problem::IntrinsicTakesNoTypeArguments, span)))
    } else {
        match args {
            Chain::Nil => (st, Err(unnamed(Problem::IntrinsicNeedsName, span))),
            Chain::Cons(name_expr, operands) => {
                match &*name_expr.kind {
                    ExprKind::Str(name) => {
                        match find_intrinsic(&cx.bundle.intrinsics, name, 0u32) {
                            None => (st, Err(named(Problem::NoIntrinsic, name, name_expr.span))),
                            Some(slot) => perform_intrinsic(cx, st, slot, name, operands, span),
                        }
                    },
                    _ => (st, Err(unnamed(Problem::IntrinsicNameNotLiteral, name_expr.span))),
                }
            },
        }
    }
}

/// Check the operands of one intrinsic.
pub open spec fn perform_intrinsic(
    cx: &Ctx,
    st: Checker,
    slot: u32,
    name: &Text,
    operands: &Chain<Expr>,
    span: Span,
) -> (Checker, Result<HExpr, Stop>)
    decreases h_exprs(operands), 4int, Chain::<u32>::Nil,
{
    match nth(&cx.bundle.intrinsics, slot) {
        None => (st, Err(named(Problem::NoIntrinsic, name, span))),
        Some(def) => {
            let vars = variables(&st.env.type_names, st.env.type_offset);
            match abi_types(cx, &def.params, &vars, span) {
                Err(stop) => (st, Err(stop)),
                Ok(params) => {
                    match abi_type(cx, &def.reply, &vars, span) {
                        Err(stop) => (st, Err(stop)),
                        Ok(reply) => {
                            match check_args_simple(cx, st, operands, &params, &falses(&params), &Chain::Nil, name, span) {
                                (st, Err(stop)) => (st, Err(stop)),
                                (st, Ok(checked)) => {
                                    (st, Ok(hexpr(reply, true, HKind::Intrinsic { slot: slot, args: checked })))
                                },
                            }
                        },
                    }
                },
            }
        },
    }
}

/// Check a call of a plain name: a local closure, a top-level function,
/// a class constructor, an enum constructor, a builder, or a `sys`
/// member that a `use` line binds.
pub open spec fn call_named(
    cx: &Ctx,
    st: Checker,
    name: &Text,
    name_span: Span,
    type_args: &Chain<TypeExpr>,
    args: &Chain<Expr>,
    expected: Option<&Ty>,
    span: Span,
) -> (Checker, Result<HExpr, Stop>)
    decreases h_exprs(args), 8int, Chain::<u32>::Nil,
{
    if st.env.core_scope && ((*name)@ == "intrinsic"@) {
        call_intrinsic(cx, st, type_args, args, span)
    } else {
        match resolve_callee(cx, st, name, name_span, type_args, expected, span) {
            (st, Err(stop)) => (st, Err(stop)),
            (st, Ok(callee)) => {
                match callee {
                    Callee::Value(value) => {
                        if !type_args.is_empty() {
                            (st, Err(unnamed(Problem::ClosureTakesNoTypeArguments, name_span)))
                        } else {
                            synth_call_value(cx, st, value, args, name_span, span)
                        }
                    },
                    Callee::Func(func) => {
                        let sig = function_signature(sig_at(cx, func));
                        let pre = unsolved(&sig);
                        match check_poly_call(cx, st, name, &sig, pre, 0u32, type_args, args, expected, span) {
                            (st, Err(stop)) => (st, Err(stop)),
                            (st, Ok(found)) => {
                                (st, Ok(hexpr(found.ret, true, HKind::Call { func: func, targs: found.targs, rowargs: found.rowargs, args: found.args })))
                            },
                        }
                    },
                    Callee::Class(class) => construct_class(cx, st, class, name, name_span, type_args, args, expected, span),
                    Callee::Ctor(arm) => construct_arm(cx, st, arm, type_args, args, expected, span),
                    Callee::ListCtor(element) => {
                        if !args.is_empty() {
                            (st, Err(named(Problem::BuilderTakesNoArguments, name, span)))
                        } else {
                            (st, Ok(hexpr(Ty::ListOf(Box::new(element)), true, HKind::ListLit(Chain::Nil))))
                        }
                    },
                    Callee::MapCtor(key, value) => {
                        if !args.is_empty() {
                            (st, Err(named(Problem::BuilderTakesNoArguments, name, span)))
                        } else {
                            (st, Ok(hexpr(Ty::MapOf(Box::new(key), Box::new(value)), true, HKind::MapLit(Chain::Nil))))
                        }
                    },
                    Callee::SysMember { group, member } => check_sys_call(cx, st, &group, &member, name_span, type_args, args, span),
                    Callee::SysGroup(_) => (st, Err(named(Problem::GroupNotCallable, name, name_span))),
                }
            },
        }
    }
}

} // verus!
