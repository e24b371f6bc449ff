//! Statements, assignment, and loops.
//!
//! The functions here state what the functions of the same name compute.

use vstd::prelude::*;
use crate::ast::{Expr, ExprKind, LoopBinding, Span, Stmt, StmtKind, TypeExpr, nowhere};
use crate::chain::Chain;
use crate::context::{Ctx, TyEnv};
use crate::hir::{HExpr, HForKind, HKind, HStmt};
use crate::model::answers::{compatible, is_heap, omitted_type};
use crate::model::branches::{check_case, check_if, check_select};
use crate::model::calls::{call_zero_method, resolve_now};
use crate::model::conform::{associated_bounds, conformance_associated, find_bound, project, variable_bounds};
use crate::model::endings::{diverges, never_completes};
use crate::model::exprs::{check_expr, ctor_receiver, field_ty_at, synth_expr, unknown_field};
use crate::model::fulfil::core_associated;
use crate::model::infer::{all_mutable, branch_hint, is_inference_gap};
use crate::model::lists::{append, concat, cons, count, find_literal, nth, one, set_nth, two};
use crate::model::lookup::{class_at, class_extends, class_of, core_interface, find_field, lookup_type, nominal_class};
use crate::model::resolve::{named, unnamed};
use crate::model::scope::{bind_name, ctor_guard_loop, ctor_state, guard_walked, hexpr, hidden_local, local_expr, local_ty, mismatch, module_func, pop_loop, pop_scope, push_loop, push_scope, require_complete, resolve_value, self_value, set_slot, slot_in, with_ctor_state};
use crate::model::subst::{contains_callback, contains_var, substitute};
use crate::problem::{Diag, Problem, Stop};
use crate::state::{Block, BlockMode, Bound, BranchType, CapSource, Checker, CtorCtx, CtorState, Iteration, LocalVar, LoopContext, LoopMode, LoopOut, MadeFunc, Output, RetKind, ScopeEntry};
use crate::text::Text;
use crate::types::Ty;
use crate::model::heights::{h_expr, h_exprs, h_optional, h_stmt, h_stmts};

verus! {

/// The block of an empty list: the unit value.
pub open spec fn empty_block(mode: &BlockMode, span: Span) -> Result<Block, Stop>
{
    match mode {
        BlockMode::Value(ty) => {
            if (*ty == Ty::Unit) {
                Ok(Block { body: Chain::Nil, ty: Ty::Unit, mutable: true })
            } else {
                Err(mismatch(ty, &Ty::Unit, span))
            }
        },
        _ => Ok(Block { body: Chain::Nil, ty: Ty::Unit, mutable: true }),
    }
}

/// Check the last statement of a block by its mode.
pub open spec fn check_last(cx: &Ctx, st: Checker, stmt: &Stmt, mode: &BlockMode) -> (Checker, Result<Block, Stop>)
    decreases h_stmt(stmt), 5int, Chain::<u32>::Nil,
{
    match mode {
        BlockMode::Discard => {
            match check_stmt(cx, st, stmt) {
                (st, Err(stop)) => (st, Err(stop)),
                (st, Ok(checked)) => {
                    (st, Ok(Block { body: one(checked), ty: Ty::Unit, mutable: true }))
                },
            }
        },
        BlockMode::Value(ty) => {
            match check_tail(cx, st, stmt, ty) {
                (st, Err(stop)) => (st, Err(stop)),
                (st, Ok(checked)) => {
                    let mutable = tail_mutable(&checked);
                    (st, Ok(Block { body: one(checked), ty: *ty, mutable: mutable }))
                },
            }
        },
        BlockMode::Synth => {
            match synth_tail(cx, st, stmt) {
                (st, Err(stop)) => (st, Err(stop)),
                (st, Ok(checked)) => {
                    let ty = tail_type(&checked);
                    let mutable = tail_mutable(&checked);
                    (st, Ok(Block { body: one(checked), ty: ty, mutable: mutable }))
                },
            }
        },
    }
}

/// The type that a final statement gives its block.
pub open spec fn tail_type(stmt: &HStmt) -> Ty
{
    match stmt {
        HStmt::Expr(value) => {
            if never_completes(value) {
                Ty::Never
            } else {
                value.ty
            }
        },
        _ => {
            if diverges(stmt) {
                Ty::Never
            } else {
                Ty::Unit
            }
        },
    }
}

/// The capability that a final statement gives its block.
pub open spec fn tail_mutable(stmt: &HStmt) -> bool
{
    match stmt {
        HStmt::Expr(value) => never_completes(value) || value.mutable,
        _ => true,
    }
}

/// Check a statement list in a mode. A statement behind one that
/// diverges is a problem.
pub open spec fn check_block(
    cx: &Ctx,
    st: Checker,
    stmts: &Chain<Stmt>,
    mode: &BlockMode,
    span: Span,
) -> (Checker, Result<Block, Stop>)
    decreases h_stmts(stmts), 0int, Chain::<u32>::Nil,
{
    match stmts {
        Chain::Nil => {
            match empty_block(mode, span) {
                Err(stop) => (st, Err(stop)),
                Ok(block) => {
                    (st, Ok(block))
                },
            }
        },
        Chain::Cons(head, tail) => {
            match &**tail {
                Chain::Nil => check_last(cx, st, head, mode),
                Chain::Cons(next, _) => {
                    match check_stmt(cx, st, head) {
                        (st, Err(stop)) => (st, Err(stop)),
                        (st, Ok(first)) => {
                            if diverges(&first) {
                                (st, Err(unnamed(Problem::Unreachable, next.span)))
                            } else {
                                match check_block(cx, st, tail, mode, span) {
                                    (st, Err(stop)) => (st, Err(stop)),
                                    (st, Ok(rest)) => {
                                        (st, Ok(Block { body: cons(first, rest.body), ..rest }))
                                    },
                                }
                            }
                        },
                    }
                },
            }
        },
    }
}

/// Synthesize the final statement of a block.
pub open spec fn synth_tail(cx: &Ctx, st: Checker, stmt: &Stmt) -> (Checker, Result<HStmt, Stop>)
    decreases h_stmt(stmt), 4int, Chain::<u32>::Nil,
{
    match &stmt.kind {
        StmtKind::Expr(expr) => {
            match synth_expr(cx, st, expr) {
                (st, Err(stop)) => (st, Err(stop)),
                (st, Ok(value)) => {
                    (st, Ok(HStmt::Expr(value)))
                },
            }
        },
        _ => check_stmt(cx, st, stmt),
    }
}

/// Check the final statement of a value block against an expected type.
/// A statement that diverges satisfies any type, and one without a value
/// satisfies the unit type.
pub open spec fn check_tail(cx: &Ctx, st: Checker, stmt: &Stmt, expected: &Ty) -> (Checker, Result<HStmt, Stop>)
    decreases h_stmt(stmt), 4int, Chain::<u32>::Nil,
{
    match &stmt.kind {
        StmtKind::Expr(expr) => {
            match check_expr(cx, st, expr, expected) {
                (st, Err(stop)) => (st, Err(stop)),
                (st, Ok(value)) => {
                    (st, Ok(HStmt::Expr(value)))
                },
            }
        },
        StmtKind::Return(_) => check_stmt(cx, st, stmt),
        StmtKind::Break(_) => check_stmt(cx, st, stmt),
        StmtKind::Continue => check_stmt(cx, st, stmt),
        StmtKind::While { cond: _, body: _ } => {
            match check_stmt(cx, st, stmt) {
                (st, Err(stop)) => (st, Err(stop)),
                (st, Ok(checked)) => {
                    if diverges(&checked) || (*expected == Ty::Unit) {
                        (st, Ok(checked))
                    } else {
                        (st, Err(mismatch(expected, &Ty::Unit, stmt.span)))
                    }
                },
            }
        },
        _ => {
            if (*expected == Ty::Unit) {
                check_stmt(cx, st, stmt)
            } else {
                (st, Err(mismatch(expected, &Ty::Unit, stmt.span)))
            }
        },
    }
}

/// Check one expression whose value is discarded.
pub open spec fn check_discarded(cx: &Ctx, st: Checker, expr: &Expr) -> (Checker, Result<HExpr, Stop>)
    decreases h_expr(expr), 2int, Chain::<u32>::Nil,
{
    match &*expr.kind {
        ExprKind::If { branches, else_body } => check_if(cx, st, branches, else_body, &BlockMode::Discard, expr.span),
        ExprKind::Case { scrut, arms } => check_case(cx, st, scrut, arms, &BlockMode::Discard, expr.span),
        ExprKind::Select(arms) => check_select(cx, st, arms, &BlockMode::Discard, expr.span),
        ExprKind::Loop(body) => check_loop(cx, st, body, &BlockMode::Discard, expr.span),
        _ => synth_expr(cx, st, expr),
    }
}

/// Check one statement.
pub open spec fn check_stmt(cx: &Ctx, st: Checker, stmt: &Stmt) -> (Checker, Result<HStmt, Stop>)
    decreases h_stmt(stmt), 3int, Chain::<u32>::Nil,
{
    match &stmt.kind {
        StmtKind::Assign { name, name_span, ty, value } => check_assign(cx, st, name, *name_span, ty, value),
        StmtKind::AssignField { recv, field, field_span, value } => check_assign_field(cx, st, recv, field, *field_span, value),
        StmtKind::While { cond, body } => check_while(cx, st, cond, body, stmt.span),
        StmtKind::For { bindings, value, body } => check_for(cx, st, bindings, value, body, stmt.span),
        StmtKind::Return(value) => check_return(cx, st, value, stmt.span),
        StmtKind::Break(value) => check_break(cx, st, value, stmt.span),
        StmtKind::Continue => {
            if st.loops.is_empty() {
                (st, Err(unnamed(Problem::ContinueOutsideLoop, stmt.span)))
            } else {
                (st, Ok(HStmt::Continue))
            }
        },
        StmtKind::Expr(expr) => {
            match check_discarded(cx, st, expr) {
                (st, Err(stop)) => (st, Err(stop)),
                (st, Ok(value)) => {
                    (st, Ok(HStmt::Expr(value)))
                },
            }
        },
    }
}

/// Check an assignment to a local that already has a declaration.
pub open spec fn check_rebind(
    cx: &Ctx,
    st: Checker,
    slot: u32,
    mutable: bool,
    name: &Text,
    name_span: Span,
    ty: &Option<TypeExpr>,
    value: &Expr,
) -> (Checker, Result<HStmt, Stop>)
    decreases h_expr(value), 4int, Chain::<u32>::Nil,
{
    if ty.is_some() {
        (st, Err(named(Problem::AlreadyDeclared, name, name_span)))
    } else {
        let expected = local_ty(&st, slot);
        if contains_callback(&expected) {
            (st, Err(unnamed(Problem::CallbackRebound, name_span)))
        } else {
            match check_expr(cx, st, value, &expected) {
                (st, Err(stop)) => (st, Err(stop)),
                (st, Ok(found)) => {
                    match is_heap(cx, &expected) {
                        Err(stop) => (st, Err(stop)),
                        Ok(heap) => {
                            if mutable && !found.mutable && heap {
                                (st, Err(named(Problem::ReadOnlyAssigned, name, name_span)))
                            } else {
                                (st, Ok(HStmt::Assign { slot: slot, value: found }))
                            }
                        },
                    }
                },
            }
        }
    }
}

/// Check the value of a new local: against its annotation, where it has
/// one.
pub open spec fn check_initial(cx: &Ctx, st: Checker, ty: &Option<TypeExpr>, value: &Expr) -> (Checker, Result<(Ty, HExpr), Stop>)
    decreases h_expr(value), 3int, Chain::<u32>::Nil,
{
    match ty {
        Some(annotation) => {
            match resolve_now(cx, &st.env, annotation) {
                Err(stop) => (st, Err(stop)),
                Ok(declared) => {
                    match check_expr(cx, st, value, &declared) {
                        (st, Err(stop)) => (st, Err(stop)),
                        (st, Ok(found)) => {
                            (st, Ok((declared, found)))
                        },
                    }
                },
            }
        },
        None => {
            match synth_expr(cx, st, value) {
                (st, Err(stop)) => (st, Err(stop)),
                (st, Ok(found)) => {
                    let inferred = found.ty;
                    (st, Ok((inferred, found)))
                },
            }
        },
    }
}

/// Check an assignment that declares a new local.
pub open spec fn check_declare(
    cx: &Ctx,
    st: Checker,
    name: &Text,
    name_span: Span,
    ty: &Option<TypeExpr>,
    value: &Expr,
) -> (Checker, Result<HStmt, Stop>)
    decreases h_expr(value), 4int, Chain::<u32>::Nil,
{
    if module_func(cx, &st.env, name).is_some() || lookup_type(cx, name, &st.env).is_some() {
        (st, Err(named(Problem::CannotAssign, name, name_span)))
    } else {
        match check_initial(cx, st, ty, value) {
            (st, Err(stop)) => (st, Err(stop)),
            (st, Ok(initial)) => {
                let (declared, found) = initial;
                if contains_callback(&declared) {
                    (st, Err(unnamed(Problem::CallbackInLocal, name_span)))
                } else {
                    let mutable = found.mutable;
                    let (st, slot) = hidden_local(st, declared, mutable);
                    (bind_name(st, name, slot), Ok(HStmt::Assign { slot: slot, value: found }))
                }
            },
        }
    }
}

/// Check an assignment to a name.
pub open spec fn check_assign(
    cx: &Ctx,
    st: Checker,
    name: &Text,
    name_span: Span,
    ty: &Option<TypeExpr>,
    value: &Expr,
) -> (Checker, Result<HStmt, Stop>)
    decreases h_expr(value), 5int, Chain::<u32>::Nil,
{
    match resolve_value(st, name) {
        (st, Err(stop)) => (st, Err(stop)),
        (st, Ok(resolved)) => {
            match resolved {
                None => check_declare(cx, st, name, name_span, ty, value),
                Some(found) => {
                    match found.source {
                        CapSource::Local(slot) => check_rebind(cx, st, slot, found.mutable, name, name_span, ty, value),
                        CapSource::Capture(_) => (st, Err(named(Problem::CapturedRebound, name, name_span))),
                    }
                },
            }
        },
    }
}

/// Record that an initializer has assigned one field.
pub open spec fn field_assigned(st: Checker, field: u32) -> Checker
{
    match st.ctor {
        None => Checker { ctor: None, ..st },
        Some(c) => Checker { ctor: Some(CtorCtx { state: CtorState { inited: set_nth(c.state.inited, field, true), super_done: c.state.super_done }, ..c }), ..st },
    }
}

/// Check the first assignment of a field through `self` inside an
/// initializer.
pub open spec fn check_ctor_field(
    cx: &Ctx,
    st: Checker,
    class: u32,
    field: &Text,
    field_span: Span,
    value: &Expr,
) -> (Checker, Result<HStmt, Stop>)
    decreases h_expr(value), 4int, Chain::<u32>::Nil,
{
    match find_field(cx, class, field) {
        None => (st, Err(unknown_field(class, field, field_span))),
        Some(at) => {
            match check_expr(cx, st, value, &field_ty_at(cx, class, at)) {
                (st, Err(stop)) => (st, Err(stop)),
                (st, Ok(found)) => {
                    if contains_callback(&found.ty) {
                        (st, Err(unnamed(Problem::CallbackInField, field_span)))
                    } else {
                        let st = field_assigned(st, at);
                        let recv = self_value(&st);
                        (st, Ok(HStmt::AssignField { recv: recv, field: at, value: found }))
                    }
                },
            }
        },
    }
}

/// Check an assignment to a field. No loop around it walks the receiver.
pub open spec fn check_assign_field(
    cx: &Ctx,
    st: Checker,
    recv: &Expr,
    field: &Text,
    field_span: Span,
    value: &Expr,
) -> (Checker, Result<HStmt, Stop>)
    decreases h_expr(recv) + h_expr(value), 5int, Chain::<u32>::Nil,
{
    match ctor_receiver(&st, recv) {
        Some(class) => check_ctor_field(cx, st, class, field, field_span, value),
        None => {
            match synth_expr(cx, st, recv) {
                (st, Err(stop)) => (st, Err(stop)),
                (st, Ok(recv_h)) => {
                    match class_of(cx, &recv_h.ty) {
                        None => (st, Err(unnamed(Problem::NoFields { ty: recv_h.ty }, recv.span))),
                        Some(nominal) => {
                            match find_field(cx, nominal.class, field) {
                                None => (st, Err(unknown_field(nominal.class, field, field_span))),
                                Some(at) => {
                                    if !recv_h.mutable {
                                        (st, Err(named(Problem::ReadOnlyField, field, field_span)))
                                    } else {
                                        match guard_walked(cx, &st, &recv_h, field_span) {
                                            Err(stop) => (st, Err(stop)),
                                            Ok(_guarded) => {
                                                let ty = substitute(&field_ty_at(cx, nominal.class, at), &nominal.args, &Chain::Nil);
                                                match check_expr(cx, st, value, &ty) {
                                                    (st, Err(stop)) => (st, Err(stop)),
                                                    (st, Ok(found)) => {
                                                        if contains_callback(&found.ty) {
                                                            (st, Err(unnamed(Problem::CallbackInField, field_span)))
                                                        } else {
                                                            (st, Ok(HStmt::AssignField { recv: recv_h, field: at, value: found }))
                                                        }
                                                    },
                                                }
                                            },
                                        }
                                    }
                                },
                            }
                        },
                    }
                },
            }
        },
    }
}

/// Check a `while` loop. Its body may run zero times, so the
/// initialization state behind it is the one before it.
pub open spec fn check_while(cx: &Ctx, st: Checker, cond: &Expr, body: &Chain<Stmt>, span: Span) -> (Checker, Result<HStmt, Stop>)
    decreases h_expr(cond) + h_stmts(body), 5int, Chain::<u32>::Nil,
{
    let before = ctor_state(&st);
    match check_expr(cx, st, cond, &Ty::Bool) {
        (st, Err(stop)) => (st, Err(stop)),
        (st, Ok(cond_h)) => {
            match ctor_guard_loop(&st, &before, span) {
                Err(stop) => (st, Err(stop)),
                Ok(_guarded) => {
                    let snapshot = ctor_state(&st);
                    match check_loop_body(cx, st, body, LoopMode::UnitOnly, None, Chain::Nil, span) {
                        (st, Err(stop)) => (st, Err(stop)),
                        (st, Ok(out)) => {
                            match ctor_guard_loop(&st, &snapshot, span) {
                                Err(stop) => (st, Err(stop)),
                                Ok(_guarded) => {
                                    (with_ctor_state(st, &snapshot), Ok(HStmt::While { cond: cond_h, body: out.body }))
                                },
                            }
                        },
                    }
                },
            }
        },
    }
}

/// Check the body of a loop in its own scope.
pub open spec fn check_loop_body(
    cx: &Ctx,
    st: Checker,
    body: &Chain<Stmt>,
    mode: LoopMode,
    walked: Option<HExpr>,
    scope: Chain<ScopeEntry>,
    span: Span,
) -> (Checker, Result<LoopOut, Stop>)
    decreases h_stmts(body), 1int, Chain::<u32>::Nil,
{
    let st = push_loop(push_scope(st, scope), mode, walked);
    let (st, result) = check_block(cx, st, body, &BlockMode::Discard, span);
    let (st, context) = pop_loop(st);
    let st = pop_scope(st);
    match result {
        Err(stop) => (st, Err(stop)),
        Ok(block) => {
            (st, Ok(LoopOut { body: block.body, context: context }))
        },
    }
}

/// The type that a `return` gives a value of.
pub open spec fn return_type(st: &Checker, span: Span) -> Result<Ty, Stop>
{
    match &st.ret {
        RetKind::Known(ty) => Ok(*ty),
        RetKind::Entry => Err(unnamed(Problem::ReturnAtTopLevel, span)),
        RetKind::ClosureInfer => Err(unnamed(Problem::ReturnNeedsResult, span)),
    }
}

/// Check the value of a `return`.
pub open spec fn check_returned(cx: &Ctx, st: Checker, value: &Option<Expr>, ret: &Ty, span: Span) -> (Checker, Result<Option<HExpr>, Stop>)
    decreases h_optional(value), 4int, Chain::<u32>::Nil,
{
    match value {
        None => {
            if (*ret == Ty::Unit) {
                (st, Ok(None))
            } else {
                (st, Err(mismatch(ret, &Ty::Unit, span)))
            }
        },
        Some(source) => {
            match check_expr(cx, st, source, ret) {
                (st, Err(stop)) => (st, Err(stop)),
                (st, Ok(found)) => {
                    if contains_callback(&found.ty) {
                        (st, Err(unnamed(Problem::CallbackReturned, span)))
                    } else {
                        (st, Ok(Some(found)))
                    }
                },
            }
        },
    }
}

/// Require the initializer under check to be complete.
pub open spec fn check_complete(cx: &Ctx, st: &Checker, span: Span) -> Result<(), Stop>
{
    match &st.ctor {
        Some(c) => require_complete(cx, c.class, c, span),
        None => Ok(()),
    }
}

/// A checker that has seen a `return`.
pub open spec fn returned(st: Checker) -> Checker
{
    Checker { saw_return: true, ..st }
}

/// Check a `return`. An initializer must be complete at each one.
pub open spec fn check_return(cx: &Ctx, st: Checker, value: &Option<Expr>, span: Span) -> (Checker, Result<HStmt, Stop>)
    decreases h_optional(value), 5int, Chain::<u32>::Nil,
{
    match return_type(&st, span) {
        Err(stop) => (st, Err(stop)),
        Ok(ret) => {
            match check_returned(cx, st, value, &ret, span) {
                (st, Err(stop)) => (st, Err(stop)),
                (st, Ok(found)) => {
                    match check_complete(cx, &st, span) {
                        Err(stop) => (st, Err(stop)),
                        Ok(_complete) => {
                            (returned(st), Ok(HStmt::Return(found)))
                        },
                    }
                },
            }
        },
    }
}

/// The mode of the innermost loop.
pub open spec fn loop_mode(st: &Checker) -> Option<LoopMode>
{
    match &st.loops {
        Chain::Nil => None,
        Chain::Cons(head, _) => Some(head.mode),
    }
}

/// Record a break of the innermost loop.
pub open spec fn add_break(st: Checker, found: BranchType) -> Checker
{
    match st.loops {
        Chain::Nil => Checker { loops: Chain::Nil, ..st },
        Chain::Cons(head, tail) => Checker { loops: cons(LoopContext { breaks: append(head.breaks, found), ..*head }, *tail), ..st },
    }
}

/// Record a break whose type arguments a sibling must decide. The first
/// one is kept.
pub open spec fn add_gap(st: Checker, diag: Diag) -> Checker
{
    match st.loops {
        Chain::Nil => Checker { loops: Chain::Nil, ..st },
        Chain::Cons(head, tail) => {
            match head.gap {
                Some(first) => Checker { loops: cons(LoopContext { gap: Some(first), ..*head }, *tail), ..st },
                None => Checker { loops: cons(LoopContext { gap: Some(diag), ..*head }, *tail), ..st },
            }
        },
    }
}

/// Record the value of a break, where it completes and the loop has a
/// value.
pub open spec fn record_break(st: Checker, mode: &LoopMode, value: Option<HExpr>, span: Span) -> (Checker, HStmt)
{
    let completes = match &value {
        Some(found) => !never_completes(found),
        None => true,
    };
    let record = match mode {
        LoopMode::UnitOnly => false,
        _ => completes,
    };
    if !record {
        (st, HStmt::Break(value))
    } else {
        match value {
            None => (add_break(st, BranchType { ty: Ty::Unit, mutable: true, span: span }), HStmt::Break(None)),
            Some(found) => {
                let kept = BranchType { ty: found.ty, mutable: found.mutable, span: span };
                (add_break(st, kept), HStmt::Break(Some(found)))
            },
        }
    }
}

/// Check a break without a value.
pub open spec fn check_bare_break(st: Checker, mode: LoopMode, span: Span) -> (Checker, Result<HStmt, Stop>)
{
    match &mode {
        LoopMode::Value(ty) => {
            if (*ty == Ty::Unit) {
                let (st, out) = record_break(st, &mode, None, span);
                (st, Ok(out))
            } else {
                (st, Err(mismatch(ty, &Ty::Unit, span)))
            }
        },
        _ => {
            let (st, out) = record_break(st, &mode, None, span);
            (st, Ok(out))
        },
    }
}

/// Check a break with a value.
pub open spec fn check_value_break(cx: &Ctx, st: Checker, mode: LoopMode, source: &Expr, span: Span) -> (Checker, Result<HStmt, Stop>)
    decreases h_expr(source), 4int, Chain::<u32>::Nil,
{
    match &mode {
        LoopMode::UnitOnly => (st, Err(unnamed(Problem::BreakCarriesValue, span))),
        LoopMode::Value(ty) => {
            match check_expr(cx, st, source, ty) {
                (st, Err(stop)) => (st, Err(stop)),
                (st, Ok(value)) => {
                    let (st, out) = record_break(st, &mode, Some(value), span);
                    (st, Ok(out))
                },
            }
        },
        LoopMode::Discard => {
            match synth_expr(cx, st, source) {
                (st, Err(stop)) => (st, Err(stop)),
                (st, Ok(value)) => {
                    let (st, out) = record_break(st, &mode, Some(value), span);
                    (st, Ok(out))
                },
            }
        },
        LoopMode::Synth => {
            match synth_expr(cx, st, source) {
                (st, Ok(value)) => {
                    let (st, out) = record_break(st, &mode, Some(value), span);
                    (st, Ok(out))
                },
                (st, Err(Stop::Fail(diag))) => {
                    if is_inference_gap(&diag) {
                        (add_gap(st, diag), Ok(HStmt::Break(None)))
                    } else {
                        (st, Err(Stop::Fail(diag)))
                    }
                },
                (st, Err(stop)) => (st, Err(stop)),
            }
        },
    }
}

/// Check a `break`.
pub open spec fn check_break(cx: &Ctx, st: Checker, value: &Option<Expr>, span: Span) -> (Checker, Result<HStmt, Stop>)
    decreases h_optional(value), 5int, Chain::<u32>::Nil,
{
    match loop_mode(&st) {
        None => (st, Err(unnamed(Problem::BreakOutsideLoop, span))),
        Some(mode) => {
            match value {
                None => check_bare_break(st, mode, span),
                Some(source) => check_value_break(cx, st, mode, source, span),
            }
        },
    }
}

/// What a loop in one block mode does with its breaks.
pub open spec fn loop_mode_of(mode: &BlockMode) -> LoopMode
{
    match mode {
        BlockMode::Discard => LoopMode::Discard,
        BlockMode::Value(ty) => LoopMode::Value(*ty),
        BlockMode::Synth => LoopMode::Synth,
    }
}

/// A checker that collects the functions of one pass only.
pub open spec fn restart_pass(
    st: Checker,
    locals: Chain<LocalVar>,
    next_func: u32,
    state: &Option<CtorState>,
) -> Checker
{
    with_ctor_state(Checker { locals: locals, out: Output { next_func: next_func, made: Chain::Nil }, ..st }, state)
}

/// A checker without the functions made so far, and those functions.
pub open spec fn set_aside(st: Checker) -> (Checker, Chain<MadeFunc>)
{
    let out = Output { next_func: st.out.next_func, made: Chain::Nil };
    (Checker { out: out, ..st }, st.out.made)
}

/// A checker with the functions before a pass and those of the pass.
pub open spec fn rejoin(st: Checker, made: Chain<MadeFunc>) -> Checker
{
    Checker { out: Output { next_func: st.out.next_func, made: concat(made, st.out.made) }, ..st }
}

/// Check the body of a value loop. With a break that waits, every break
/// checks against the hint of its siblings, and what the first pass added
/// is dropped.
pub open spec fn settle_pass(
    cx: &Ctx,
    st: Checker,
    body: &Chain<Stmt>,
    mode: &BlockMode,
    before: &Option<CtorState>,
    span: Span,
) -> (Checker, Result<(LoopOut, Option<Ty>), Stop>)
    decreases h_stmts(body), 2int, Chain::<u32>::Nil,
{
    let locals = st.locals;
    let next_func = st.out.next_func;
    match check_loop_body(cx, st, body, loop_mode_of(mode), None, Chain::Nil, span) {
        (st, Err(stop)) => (st, Err(stop)),
        (st, Ok(out)) => {
            match out.context.gap {
                None => (st, Ok((LoopOut { body: out.body, context: LoopContext { gap: None, ..out.context } }, None))),
                Some(gap) => {
                    match branch_hint(cx, &out.context.breaks) {
                        Err(stop) => (st, Err(stop)),
                        Ok(hint) => {
                            match hint {
                                None => (st, Err(Stop::Fail(gap))),
                                Some(ty) => {
                                    let st = restart_pass(st, locals, next_func, before);
                                    match check_loop_body(cx, st, body, LoopMode::Value(ty), None, Chain::Nil, span) {
                                        (st, Err(stop)) => (st, Err(stop)),
                                        (st, Ok(again)) => {
                                            (st, Ok((again, Some(ty))))
                                        },
                                    }
                                },
                            }
                        },
                    }
                },
            }
        },
    }
}

/// Check the body of a value loop beside the functions before it.
pub open spec fn settle_loop(
    cx: &Ctx,
    st: Checker,
    body: &Chain<Stmt>,
    mode: &BlockMode,
    before: &Option<CtorState>,
    span: Span,
) -> (Checker, Result<(LoopOut, Option<Ty>), Stop>)
    decreases h_stmts(body), 3int, Chain::<u32>::Nil,
{
    let (st, made) = set_aside(st);
    let (st, result) = settle_pass(cx, st, body, mode, before, span);
    (rejoin(st, made), result)
}

/// The type of a value loop: `Never` without a break.
pub open spec fn loop_type(
    cx: &Ctx,
    mode: &BlockMode,
    hint: Option<Ty>,
    breaks: &Chain<BranchType>,
) -> Result<Ty, Stop>
{
    if breaks.is_empty() {
        Ok(Ty::Never)
    } else {
        match (mode, hint) {
            (BlockMode::Discard, _) => Ok(Ty::Unit),
            (BlockMode::Value(ty), _) => Ok(*ty),
            (BlockMode::Synth, Some(ty)) => Ok(ty),
            (BlockMode::Synth, None) => {
                match branch_hint(cx, breaks) {
                    Err(stop) => Err(stop),
                    Ok(found) => {
                        match found {
                            Some(ty) => Ok(ty),
                            None => Ok(Ty::Never),
                        }
                    },
                }
            },
        }
    }
}

/// The slot that holds the result of a value loop.
pub open spec fn result_slot(st: Checker, ty: &Ty, mutable: bool) -> (Checker, Option<u32>)
{
    if (*ty == Ty::Unit) || (*ty == Ty::Never) {
        (st, None)
    } else {
        let (st, slot) = hidden_local(st, *ty, mutable);
        (st, Some(slot))
    }
}

/// Check a `loop`, whose breaks give its value.
pub open spec fn check_loop(
    cx: &Ctx,
    st: Checker,
    body: &Chain<Stmt>,
    mode: &BlockMode,
    span: Span,
) -> (Checker, Result<HExpr, Stop>)
    decreases h_stmts(body), 5int, Chain::<u32>::Nil,
{
    let before = ctor_state(&st);
    match settle_loop(cx, st, body, mode, &before, span) {
        (st, Err(stop)) => (st, Err(stop)),
        (st, Ok(settled)) => {
            let (out, hint) = settled;
            match ctor_guard_loop(&st, &before, span) {
                Err(stop) => (st, Err(stop)),
                Ok(_guarded) => {
                    let st = with_ctor_state(st, &before);
                    match loop_type(cx, mode, hint, &out.context.breaks) {
                        Err(stop) => (st, Err(stop)),
                        Ok(ty) => {
                            let mutable = (ty == Ty::Unit) || (ty == Ty::Never) || all_mutable(&out.context.breaks);
                            let (st, slot) = result_slot(st, &ty, mutable);
                            (st, Ok(hexpr(ty, mutable, HKind::Loop { body: out.body, result_slot: slot })))
                        },
                    }
                },
            }
        },
    }
}

/// The value of an associated type of one type in a scope.
pub open spec fn associated_of(cx: &Ctx, env: &TyEnv, ty: &Ty, interface: u32, assoc: u32) -> Option<Ty>
{
    match ty {
        Ty::Var(index) => {
            if *index < env.type_offset {
                conformance_associated(cx, env, ty, interface, assoc)
            } else {
                match variable_bounds(env, *index) {
                    None => None,
                    Some(bounds) => {
                        if find_bound(bounds, interface).is_some() {
                            Some(project(cx, *ty, interface, assoc))
                        } else {
                            None
                        }
                    },
                }
            }
        },
        Ty::Projection(_, owner, owner_assoc) => {
            match associated_bounds(cx, *owner, *owner_assoc) {
                None => None,
                Some(bounds) => {
                    if find_bound(bounds, interface).is_some() {
                        Some(project(cx, *ty, interface, assoc))
                    } else {
                        None
                    }
                },
            }
        },
        _ => conformance_associated(cx, env, ty, interface, assoc),
    }
}

/// Bind the names of a loop to fresh locals.
pub open spec fn bind_loop(
    st: Checker,
    bindings: &Chain<LoopBinding>,
    types: &Chain<Ty>,
    mutable: bool,
    scope: Chain<ScopeEntry>,
) -> (Checker, Result<Bound, Stop>)
    decreases bindings,
{
    match (bindings, types) {
        (Chain::Cons(binding, bindings_rest), Chain::Cons(ty, types_rest)) => {
            let anonymous = (binding.name@ == "_"@);
            if !anonymous && slot_in(&scope, &binding.name).is_some() {
                (st, Err(named(Problem::DuplicateLoopBinding, &binding.name, binding.span)))
            } else {
                let (st, slot) = hidden_local(st, **ty, mutable);
                let inner = if anonymous { scope } else { set_slot(scope, &binding.name, slot) };
                match bind_loop(st, bindings_rest, types_rest, mutable, inner) {
                    (st, Err(stop)) => (st, Err(stop)),
                    (st, Ok(rest)) => {
                        (st, Ok(Bound { slots: cons(slot, rest.slots), scope: rest.scope }))
                    },
                }
            }
        },
        _ => (st, Ok(Bound { slots: Chain::Nil, scope: scope })),
    }
}

/// Bind the names of a loop: one for each bound type.
pub open spec fn for_bindings(
    st: Checker,
    bindings: &Chain<LoopBinding>,
    types: &Chain<Ty>,
    mutable: bool,
) -> (Checker, Result<Bound, Stop>)
{
    if count(bindings) != count(types) {
        (st, Err(unnamed(Problem::LoopBindingCount { expected: count(types), found: count(bindings) }, first_binding_span(bindings))))
    } else {
        bind_loop(st, bindings, types, mutable, Chain::Nil)
    }
}

/// The place of the first loop binding.
pub open spec fn first_binding_span(bindings: &Chain<LoopBinding>) -> Span
{
    match bindings {
        Chain::Nil => nowhere(),
        Chain::Cons(head, _) => head.span,
    }
}

/// Walk a list by index.
pub open spec fn iterate_list(st: Checker, source: &HExpr, element: &Ty) -> (Checker, Iteration)
{
    let (st, source_slot) = hidden_local(st, source.ty, source.mutable);
    let (st, index_slot) = hidden_local(st, Ty::Int, true);
    let (st, epoch_slot) = hidden_local(st, Ty::Int, true);
    (st, Iteration {
        kind: HForKind::List { source_slot: source_slot, index_slot: index_slot, epoch_slot: epoch_slot, element: *element },
        types: one(*element),
        mutable: source.mutable,
    })
}

/// Walk the entries of a map: as pairs, or as key and value.
pub open spec fn iterate_map(st: Checker, source: &HExpr, key: &Ty, value: &Ty, bindings: u32) -> (Checker, Iteration)
{
    let (st, source_slot) = hidden_local(st, source.ty, source.mutable);
    let (st, index_slot) = hidden_local(st, Ty::Int, true);
    let (st, epoch_slot) = hidden_local(st, Ty::Int, true);
    let pair = Ty::Tuple(two(*key, *value));
    let types = if bindings == 2 { two(*key, *value) } else { one(pair) };
    (st, Iteration {
        kind: HForKind::Entries { source_slot: source_slot, index_slot: index_slot, epoch_slot: epoch_slot, key: *key, value: *value, pair: pair },
        types: types,
        mutable: source.mutable,
    })
}

/// The type of a character. A core without `Char` leaves it to what
/// stands for an omitted type.
pub open spec fn char_type(cx: &Ctx) -> Result<Ty, Stop>
{
    match find_literal(&cx.core_types, "Char") {
        Some(class) => {
            match nth(&cx.classes, class) {
                Some(info) => Ok(info.self_ty),
                None => omitted_type(cx, "Char"),
            }
        },
        None => omitted_type(cx, "Char"),
    }
}

/// Walk the characters of a text.
pub open spec fn iterate_text(cx: &Ctx, st: Checker, source: &HExpr) -> (Checker, Result<Iteration, Stop>)
{
    match char_type(cx) {
        Err(stop) => (st, Err(stop)),
        Ok(item) => {
            let (st, source_slot) = hidden_local(st, source.ty, source.mutable);
            let (st, cursor_slot) = hidden_local(st, Ty::Int, true);
            (st, Ok(Iteration {
                kind: HForKind::Chars { source_slot: source_slot, cursor_slot: cursor_slot, item: item },
                types: one(item),
                mutable: true,
            }))
        },
    }
}

/// Walk a range of integers.
pub open spec fn iterate_range(st: Checker, source: &HExpr) -> (Checker, Iteration)
{
    let (st, source_slot) = hidden_local(st, source.ty, source.mutable);
    let (st, cursor_slot) = hidden_local(st, Ty::Int, true);
    let (st, stop_slot) = hidden_local(st, Ty::Int, true);
    (st, Iteration {
        kind: HForKind::Range { source_slot: source_slot, cursor_slot: cursor_slot, stop_slot: stop_slot },
        types: one(Ty::Int),
        mutable: true,
    })
}

/// The item of an `Option` that an iterator gives.
pub open spec fn option_item(cx: &Ctx, ty: &Ty) -> Option<Ty>
{
    match nominal_class(cx, ty) {
        None => None,
        Some(nominal) => {
            match nominal.args {
                Chain::Cons(item, rest) => {
                    if nominal.class == cx.core.option_class && rest.is_empty() {
                        Some(*item)
                    } else {
                        None
                    }
                },
                Chain::Nil => None,
            }
        },
    }
}

/// Require the items of an iterator to be those that its source
/// promises. A generic source keeps its promise by its bound.
pub open spec fn check_item(cx: &Ctx, source: &Ty, item: &Ty, promised: &Ty, span: Span) -> Result<(), Stop>
{
    if contains_var(source) {
        Ok(())
    } else {
        match compatible(cx, item, promised) {
            Err(stop) => Err(stop),
            Ok(forward) => {
                match compatible(cx, promised, item) {
                    Err(stop) => Err(stop),
                    Ok(backward) => {
                        if forward && backward {
                            Ok(())
                        } else {
                            Err(unnamed(Problem::IterableItem, span))
                        }
                    },
                }
            },
        }
    }
}

/// The two parts of an item that two bindings take.
pub open spec fn item_pair(item: &Ty, span: Span) -> Result<Chain<Ty>, Stop>
{
    match item {
        Ty::Tuple(items) => {
            if count(items) == 2 {
                Ok(*items)
            } else {
                Err(unnamed(Problem::LoopNeedsPair, span))
            }
        },
        _ => Err(unnamed(Problem::LoopNeedsPair, span)),
    }
}

/// The types that a loop over items binds, and the slot of the item where
/// two bindings take it apart.
pub open spec fn item_bindings(st: Checker, item: &Ty, bindings: u32, span: Span) -> (Checker, Result<(Chain<Ty>, Option<u32>), Stop>)
{
    if bindings == 2 {
        match item_pair(item, span) {
            Err(stop) => (st, Err(stop)),
            Ok(parts) => {
                let (st, slot) = hidden_local(st, *item, true);
                (st, Ok((parts, Some(slot))))
            },
        }
    } else {
        (st, Ok((one(*item), None)))
    }
}

/// Walk a source through its iterator.
pub open spec fn iterate_generic(
    cx: &Ctx,
    st: Checker,
    source: &HExpr,
    bindings: u32,
    value_span: Span,
    span: Span,
) -> (Checker, Result<Iteration, Stop>)
    decreases h_exprs(&Chain::<Expr>::Nil), 6int, Chain::<u32>::Nil,
{
    match core_interface(cx, "Iterable", span) {
        Err(stop) => (st, Err(stop)),
        Ok(iterable) => {
            match core_associated(cx, iterable, "Item", span) {
                Err(stop) => (st, Err(stop)),
                Ok(item_at) => {
                    match associated_of(cx, &st.env, &source.ty, iterable, item_at) {
                        None => (st, Err(unnamed(Problem::NotIterable { ty: source.ty }, value_span))),
                        Some(promised) => {
                            let (st, source_slot) = hidden_local(st, source.ty, source.mutable);
                            let walked = local_expr(&st, source_slot);
                            match call_zero_method(cx, st, walked, "iterator", span) {
                                (st, Err(stop)) => (st, Err(stop)),
                                (st, Ok(iterator)) => {
                                    let (st, iterator_slot) = hidden_local(st, iterator.ty, true);
                                    let stepped = local_expr(&st, iterator_slot);
                                    match call_zero_method(cx, st, stepped, "next", span) {
                                        (st, Err(stop)) => (st, Err(stop)),
                                        (st, Ok(next)) => {
                                            match option_item(cx, &next.ty) {
                                                None => (st, Err(unnamed(Problem::NextResult, span))),
                                                Some(item) => {
                                                    match check_item(cx, &source.ty, &item, &promised, span) {
                                                        Err(stop) => (st, Err(stop)),
                                                        Ok(_same) => {
                                                            let some_ty = substitute(&class_at(cx, cx.core.some_class).self_ty, &one(item), &Chain::Nil);
                                                            let (st, option_slot) = hidden_local(st, next.ty, true);
                                                            match item_bindings(st, &item, bindings, span) {
                                                                (st, Err(stop)) => (st, Err(stop)),
                                                                (st, Ok(bound)) => {
                                                                    let (types, item_slot) = bound;
                                                                    (st, Ok(Iteration {
                                                                        kind: HForKind::Generic { source_slot: source_slot, iterator_slot: iterator_slot, option_slot: option_slot, item_slot: item_slot, iterator: iterator, next: next, some_ty: some_ty, item: item },
                                                                        types: types,
                                                                        mutable: true,
                                                                    }))
                                                                },
                                                            }
                                                        },
                                                    }
                                                },
                                            }
                                        },
                                    }
                                },
                            }
                        },
                    }
                },
            }
        },
    }
}

/// Whether a type is a text.
pub open spec fn is_text_type(cx: &Ctx, ty: &Ty) -> bool
{
    match (class_of(cx, ty), find_literal(&cx.core_types, "Text")) {
        (Some(nominal), Some(general)) => class_extends(cx, nominal.class, general),
        _ => false,
    }
}

/// Whether the class of a type is the core range. A core without a range
/// gives that role to the types without a class.
pub open spec fn is_range_type(cx: &Ctx, ty: &Ty) -> bool
{
    match (class_of(cx, ty), find_literal(&cx.core_types, "Range")) {
        (Some(nominal), Some(range)) => nominal.class == range,
        (None, None) => true,
        _ => false,
    }
}

/// How a loop walks its source.
pub open spec fn iterate(
    cx: &Ctx,
    st: Checker,
    source: &HExpr,
    bindings: u32,
    value_span: Span,
    span: Span,
) -> (Checker, Result<Iteration, Stop>)
    decreases h_exprs(&Chain::<Expr>::Nil), 7int, Chain::<u32>::Nil,
{
    match &source.ty {
        Ty::ListOf(element) => {
            let (st, out) = iterate_list(st, source, element);
            (st, Ok(out))
        },
        Ty::MapOf(key, value) => {
            let (st, out) = iterate_map(st, source, key, value, bindings);
            (st, Ok(out))
        },
        _ => {
            if is_text_type(cx, &source.ty) {
                iterate_text(cx, st, source)
            } else if is_range_type(cx, &source.ty) {
                let (st, out) = iterate_range(st, source);
                (st, Ok(out))
            } else {
                iterate_generic(cx, st, source, bindings, value_span, span)
            }
        },
    }
}

/// Check a `for` loop. Its body does not change what the loop walks.
pub open spec fn check_for(
    cx: &Ctx,
    st: Checker,
    bindings: &Chain<LoopBinding>,
    value: &Expr,
    body: &Chain<Stmt>,
    span: Span,
) -> (Checker, Result<HStmt, Stop>)
    decreases h_expr(value) + h_stmts(body), 8int, Chain::<u32>::Nil,
{
    let before = ctor_state(&st);
    match synth_expr(cx, st, value) {
        (st, Err(stop)) => (st, Err(stop)),
        (st, Ok(source)) => {
            match iterate(cx, st, &source, count(bindings), value.span, span) {
                (st, Err(stop)) => (st, Err(stop)),
                (st, Ok(iteration)) => {
                    match ctor_guard_loop(&st, &before, span) {
                        Err(stop) => (st, Err(stop)),
                        Ok(_guarded) => {
                            let snapshot = ctor_state(&st);
                            match for_bindings(st, bindings, &iteration.types, iteration.mutable) {
                                (st, Err(stop)) => (st, Err(stop)),
                                (st, Ok(bound)) => {
                                    match check_loop_body(cx, st, body, LoopMode::UnitOnly, Some(source), bound.scope, span) {
                                        (st, Err(stop)) => (st, Err(stop)),
                                        (st, Ok(out)) => {
                                            match ctor_guard_loop(&st, &snapshot, span) {
                                                Err(stop) => (st, Err(stop)),
                                                Ok(_guarded) => {
                                                    (with_ctor_state(st, &snapshot), Ok(HStmt::For { source: source, bindings: bound.slots, kind: iteration.kind, body: out.body }))
                                                },
                                            }
                                        },
                                    }
                                },
                            }
                        },
                    }
                },
            }
        },
    }
}

} // verus!
