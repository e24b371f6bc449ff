//! Statements, assignment, and loops.

use vstd::prelude::*;
use crate::answers::{compatible, is_heap, omitted_type};
use crate::ast::{Expr, ExprKind, LoopBinding, Span, Stmt, StmtKind, TypeExpr, nowhere};
use crate::branches::{check_case, check_if, check_select};
use crate::calls::{call_zero_method, resolve_now};
use crate::chain::Chain;
use crate::conform::{associated_bounds, conformance_associated, find_bound, project, variable_bounds};
use crate::context::{Ctx, TyEnv};
use crate::endings::{diverges, never_completes};
use crate::exprs::{check_expr, ctor_receiver, field_ty_at, synth_expr, unknown_field};
use crate::fulfil::core_associated;
use crate::hir::{HExpr, HForKind, HKind, HStmt};
use crate::infer::{all_mutable, branch_hint, is_inference_gap};
use crate::lists::{append, concat, cons, count, find_literal, nth, one, set_nth, two};
use crate::lookup::{class_at, class_extends, class_of, core_interface, find_field, lookup_type, nominal_class};
use crate::problem::{Diag, Problem, Stop};
use crate::resolve::{named, unnamed};
use crate::scope::{bind_name, ctor_guard_loop, ctor_state, guard_walked, hexpr, hidden_local, local_expr, local_ty, mismatch, module_func, pop_loop, pop_scope, push_loop, push_scope, require_complete, resolve_value, self_value, set_slot, slot_in, with_ctor_state};
use crate::state::{Block, BlockMode, Bound, BranchType, CapSource, Checker, CtorCtx, CtorState, Iteration, LocalVar, LoopContext, LoopMode, LoopOut, MadeFunc, Output, RetKind, ScopeEntry, clone_local_vars};
use crate::subst::{contains_callback, contains_var, substitute};
use crate::text::{Text, is_text};
use crate::types::{Ty, clone_tys, same_ty};
use crate::model::heights::{h_expr, h_exprs, h_optional, h_stmt, h_stmts};
use crate::model::fits::{block_fits, fits_mode, gives, lemma_one_stmt};
use crate::model::sound::{expr_ok, has_slot, kind_ok, made_ok, opt_expr_ok, ready, room, scope_in, slot_ok, slots_ok, step, stmt_ok, stmts_ok, widens, lemma_restart_ok};
use crate::model::keeps::kept;
use crate::model;

verus! {

broadcast use {crate::model::keeps::group_kept, crate::model::sound::group_sound};

/// The block of an empty list: the unit value.
pub fn empty_block(mode: &BlockMode, span: Span) -> (r: Result<Block, Stop>)
    ensures
        r == model::blocks::empty_block(mode, span),
        forall|cx: &Ctx| #[trigger] block_fits(cx, *mode, r),
{
    match mode {
        BlockMode::Value(ty) => {
            if same_ty(&*ty, &Ty::Unit) {
                Ok(Block { body: Chain::Nil, ty: Ty::Unit, mutable: true })
            } else {
                Err(mismatch(ty, &Ty::Unit, span))
            }
        },
        _ => Ok(Block { body: Chain::Nil, ty: Ty::Unit, mutable: true }),
    }
}

/// Check the last statement of a block by its mode.
pub fn check_last(cx: &Ctx, st: Checker, stmt: &Stmt, mode: &BlockMode) -> (r: (Checker, Result<Block, Stop>))
    ensures
        r == model::blocks::check_last(cx, st, stmt, mode),
        kept(st, r.0),
        step(cx, st, r.0, true, (r.1 matches Ok(found) ==> stmts_ok(room(cx, r.0), found.body))),
        block_fits(cx, *mode, r.1),
        r.1 matches Ok(block) ==> block.body is Cons,
    decreases h_stmt(stmt), 5int, Chain::<u32>::Nil,
{
    match mode {
        BlockMode::Discard => {
            let (st, out) = check_stmt(cx, st, stmt);
            let checked = match out {
                Ok(found) => found,
                Err(stop) => {
                    return (st, Err(stop));
                },
            };
            proof {
                lemma_one_stmt(checked);
            }
            (st, Ok(Block { body: one(checked), ty: Ty::Unit, mutable: true }))
        },
        BlockMode::Value(ty) => {
            let (st, out) = check_tail(cx, st, stmt, ty);
            let checked = match out {
                Ok(found) => found,
                Err(stop) => {
                    return (st, Err(stop));
                },
            };
            let mutable = tail_mutable(&checked);
            proof {
                lemma_one_stmt(checked);
            }
            (st, Ok(Block { body: one(checked), ty: (*ty).clone(), mutable: mutable }))
        },
        BlockMode::Synth => {
            let (st, out) = synth_tail(cx, st, stmt);
            let checked = match out {
                Ok(found) => found,
                Err(stop) => {
                    return (st, Err(stop));
                },
            };
            let ty = tail_type(&checked);
            let mutable = tail_mutable(&checked);
            proof {
                lemma_one_stmt(checked);
            }
            (st, Ok(Block { body: one(checked), ty: ty, mutable: mutable }))
        },
    }
}

/// The type that a final statement gives its block.
pub fn tail_type(stmt: &HStmt) -> (r: Ty)
    ensures
        r == model::blocks::tail_type(stmt),
{
    match stmt {
        HStmt::Expr(value) => {
            if never_completes(value) {
                Ty::Never
            } else {
                value.ty.clone()
            }
        },
        _ => {
            if diverges(stmt) {
                Ty::Never
            } else {
                Ty::Unit
            }
        },
    }
}

/// The capability that a final statement gives its block.
pub fn tail_mutable(stmt: &HStmt) -> (r: bool)
    ensures
        r == model::blocks::tail_mutable(stmt),
{
    match stmt {
        HStmt::Expr(value) => never_completes(value) || value.mutable,
        _ => true,
    }
}

/// Check a statement list in a mode. A statement behind one that
/// diverges is a problem.
pub fn check_block(
    cx: &Ctx,
    st: Checker,
    stmts: &Chain<Stmt>,
    mode: &BlockMode,
    span: Span,
) -> (r: (Checker, Result<Block, Stop>))
    ensures
        r == model::blocks::check_block(cx, st, stmts, mode, span),
        kept(st, r.0),
        step(cx, st, r.0, true, (r.1 matches Ok(found) ==> stmts_ok(room(cx, r.0), found.body))),
        block_fits(cx, *mode, r.1),
        r.1 matches Ok(block) ==> (block.body is Cons <==> *stmts is Cons),
    decreases h_stmts(stmts), 0int, Chain::<u32>::Nil,
{
    match stmts {
        Chain::Nil => {
            let block = match empty_block(mode, span) {
                Ok(found) => found,
                Err(stop) => {
                    return (st, Err(stop));
                },
            };
            (st, Ok(block))
        },
        Chain::Cons(head, tail) => {
            match &**tail {
                Chain::Nil => check_last(cx, st, head, mode),
                Chain::Cons(next, _) => {
                    let (st, out) = check_stmt(cx, st, head);
                    let first = match out {
                        Ok(found) => found,
                        Err(stop) => {
                            return (st, Err(stop));
                        },
                    };
                    if diverges(&first) {
                        (st, Err(unnamed(Problem::Unreachable, next.span)))
                    } else {
                        let (st, out) = check_block(cx, st, tail, mode, span);
                        let rest = match out {
                            Ok(found) => found,
                            Err(stop) => {
                                return (st, Err(stop));
                            },
                        };
                        (st, Ok(Block { body: cons(first, rest.body), ..rest }))
                    }
                },
            }
        },
    }
}

/// Synthesize the final statement of a block.
pub fn synth_tail(cx: &Ctx, st: Checker, stmt: &Stmt) -> (r: (Checker, Result<HStmt, Stop>))
    ensures
        r == model::blocks::synth_tail(cx, st, stmt),
        kept(st, r.0),
        step(cx, st, r.0, true, (r.1 matches Ok(found) ==> stmt_ok(room(cx, r.0), found))),
    decreases h_stmt(stmt), 4int, Chain::<u32>::Nil,
{
    match &stmt.kind {
        StmtKind::Expr(expr) => {
            let (st, out) = synth_expr(cx, st, expr);
            let value = match out {
                Ok(found) => found,
                Err(stop) => {
                    return (st, Err(stop));
                },
            };
            (st, Ok(HStmt::Expr(value)))
        },
        _ => check_stmt(cx, st, stmt),
    }
}

/// Check the final statement of a value block against an expected type.
/// A statement that diverges satisfies any type, and one without a value
/// satisfies the unit type.
pub fn check_tail(cx: &Ctx, st: Checker, stmt: &Stmt, expected: &Ty) -> (r: (Checker, Result<HStmt, Stop>))
    ensures
        r == model::blocks::check_tail(cx, st, stmt, expected),
        kept(st, r.0),
        step(cx, st, r.0, true, (r.1 matches Ok(found) ==> stmt_ok(room(cx, r.0), found))),
        r.1 matches Ok(stmt) ==> gives(cx, *expected, stmt),
    decreases h_stmt(stmt), 4int, Chain::<u32>::Nil,
{
    match &stmt.kind {
        StmtKind::Expr(expr) => {
            let (st, out) = check_expr(cx, st, expr, expected);
            let value = match out {
                Ok(found) => found,
                Err(stop) => {
                    return (st, Err(stop));
                },
            };
            (st, Ok(HStmt::Expr(value)))
        },
        StmtKind::Return(_) => check_stmt(cx, st, stmt),
        StmtKind::Break(_) => check_stmt(cx, st, stmt),
        StmtKind::Continue => check_stmt(cx, st, stmt),
        StmtKind::While { cond: _, body: _ } => {
            let (st, out) = check_stmt(cx, st, stmt);
            let checked = match out {
                Ok(found) => found,
                Err(stop) => {
                    return (st, Err(stop));
                },
            };
            if diverges(&checked) || same_ty(&*expected, &Ty::Unit) {
                (st, Ok(checked))
            } else {
                (st, Err(mismatch(expected, &Ty::Unit, stmt.span)))
            }
        },
        _ => {
            if same_ty(&*expected, &Ty::Unit) {
                check_stmt(cx, st, stmt)
            } else {
                (st, Err(mismatch(expected, &Ty::Unit, stmt.span)))
            }
        },
    }
}

/// Check one expression whose value is discarded.
pub fn check_discarded(cx: &Ctx, st: Checker, expr: &Expr) -> (r: (Checker, Result<HExpr, Stop>))
    ensures
        r == model::blocks::check_discarded(cx, st, expr),
        kept(st, r.0),
        step(cx, st, r.0, true, (r.1 matches Ok(found) ==> expr_ok(room(cx, r.0), found))),
    decreases h_expr(expr), 2int, Chain::<u32>::Nil,
{
    match &*expr.kind {
        ExprKind::If { branches, else_body } => check_if(cx, st, branches, else_body, &BlockMode::Discard, expr.span),
        ExprKind::Case { scrut, arms } => check_case(cx, st, scrut, arms, &BlockMode::Discard, expr.span),
        ExprKind::Select(arms) => check_select(cx, st, arms, &BlockMode::Discard, expr.span),
        ExprKind::Loop(body) => check_loop(cx, st, body, &BlockMode::Discard, expr.span),
        _ => synth_expr(cx, st, expr),
    }
}

/// Check one statement.
pub fn check_stmt(cx: &Ctx, st: Checker, stmt: &Stmt) -> (r: (Checker, Result<HStmt, Stop>))
    ensures
        r == model::blocks::check_stmt(cx, st, stmt),
        kept(st, r.0),
        step(cx, st, r.0, true, (r.1 matches Ok(found) ==> stmt_ok(room(cx, r.0), found))),
    decreases h_stmt(stmt), 3int, Chain::<u32>::Nil,
{
    match &stmt.kind {
        StmtKind::Assign { name, name_span, ty, value } => check_assign(cx, st, name, *name_span, ty, value),
        StmtKind::AssignField { recv, field, field_span, value } => check_assign_field(cx, st, recv, field, *field_span, value),
        StmtKind::While { cond, body } => check_while(cx, st, cond, body, stmt.span),
        StmtKind::For { bindings, value, body } => check_for(cx, st, bindings, value, body, stmt.span),
        StmtKind::Return(value) => check_return(cx, st, value, stmt.span),
        StmtKind::Break(value) => check_break(cx, st, value, stmt.span),
        StmtKind::Continue => {
            if st.loops.is_empty() {
                (st, Err(unnamed(Problem::ContinueOutsideLoop, stmt.span)))
            } else {
                (st, Ok(HStmt::Continue))
            }
        },
        StmtKind::Expr(expr) => {
            let (st, out) = check_discarded(cx, st, expr);
            let value = match out {
                Ok(found) => found,
                Err(stop) => {
                    return (st, Err(stop));
                },
            };
            (st, Ok(HStmt::Expr(value)))
        },
    }
}

/// Check an assignment to a local that already has a declaration.
pub fn check_rebind(
    cx: &Ctx,
    st: Checker,
    slot: u32,
    mutable: bool,
    name: &Text,
    name_span: Span,
    ty: &Option<TypeExpr>,
    value: &Expr,
) -> (r: (Checker, Result<HStmt, Stop>))
    ensures
        r == model::blocks::check_rebind(cx, st, slot, mutable, name, name_span, ty, value),
        kept(st, r.0),
        step(cx, st, r.0, has_slot(room(cx, st), slot), (r.1 matches Ok(found) ==> stmt_ok(room(cx, r.0), found))),
    decreases h_expr(value), 4int, Chain::<u32>::Nil,
{
    if ty.is_some() {
        return (st, Err(named(Problem::AlreadyDeclared, name, name_span)));
    }
    let expected = local_ty(&st, slot);
    if contains_callback(&expected) {
        return (st, Err(unnamed(Problem::CallbackRebound, name_span)));
    }
    let (st, out) = check_expr(cx, st, value, &expected);
    let found = match out {
        Ok(found) => found,
        Err(stop) => {
            return (st, Err(stop));
        },
    };
    let heap = match is_heap(cx, &expected) {
        Ok(found) => found,
        Err(stop) => {
            return (st, Err(stop));
        },
    };
    if mutable && !found.mutable && heap {
        (st, Err(named(Problem::ReadOnlyAssigned, name, name_span)))
    } else {
        (st, Ok(HStmt::Assign { slot: slot, value: found }))
    }
}

/// Check the value of a new local: against its annotation, where it has
/// one.
pub fn check_initial(cx: &Ctx, st: Checker, ty: &Option<TypeExpr>, value: &Expr) -> (r: (Checker, Result<(Ty, HExpr), Stop>))
    ensures
        r == model::blocks::check_initial(cx, st, ty, value),
        kept(st, r.0),
        step(cx, st, r.0, true, (r.1 matches Ok(found) ==> expr_ok(room(cx, r.0), found.1))),
    decreases h_expr(value), 3int, Chain::<u32>::Nil,
{
    match ty {
        Some(annotation) => {
            let declared = match resolve_now(cx, &st.env, annotation) {
                Ok(found) => found,
                Err(stop) => {
                    return (st, Err(stop));
                },
            };
            let (st, out) = check_expr(cx, st, value, &declared);
            let found = match out {
                Ok(found) => found,
                Err(stop) => {
                    return (st, Err(stop));
                },
            };
            (st, Ok((declared, found)))
        },
        None => {
            let (st, out) = synth_expr(cx, st, value);
            let found = match out {
                Ok(found) => found,
                Err(stop) => {
                    return (st, Err(stop));
                },
            };
            let inferred = found.ty.clone();
            (st, Ok((inferred, found)))
        },
    }
}

/// Check an assignment that declares a new local.
pub fn check_declare(
    cx: &Ctx,
    st: Checker,
    name: &Text,
    name_span: Span,
    ty: &Option<TypeExpr>,
    value: &Expr,
) -> (r: (Checker, Result<HStmt, Stop>))
    ensures
        r == model::blocks::check_declare(cx, st, name, name_span, ty, value),
        kept(st, r.0),
        step(cx, st, r.0, true, (r.1 matches Ok(found) ==> stmt_ok(room(cx, r.0), found))),
    decreases h_expr(value), 4int, Chain::<u32>::Nil,
{
    if module_func(cx, &st.env, name).is_some() || lookup_type(cx, name, &st.env).is_some() {
        return (st, Err(named(Problem::CannotAssign, name, name_span)));
    }
    let (st, out) = check_initial(cx, st, ty, value);
    let initial = match out {
        Ok(found) => found,
        Err(stop) => {
            return (st, Err(stop));
        },
    };
    let (declared, found) = initial;
    if contains_callback(&declared) {
        (st, Err(unnamed(Problem::CallbackInLocal, name_span)))
    } else {
        let mutable = found.mutable;
        let (st, slot) = hidden_local(st, declared, mutable);
        (bind_name(st, name, slot), Ok(HStmt::Assign { slot: slot, value: found }))
    }
}

/// Check an assignment to a name.
pub fn check_assign(
    cx: &Ctx,
    st: Checker,
    name: &Text,
    name_span: Span,
    ty: &Option<TypeExpr>,
    value: &Expr,
) -> (r: (Checker, Result<HStmt, Stop>))
    ensures
        r == model::blocks::check_assign(cx, st, name, name_span, ty, value),
        kept(st, r.0),
        step(cx, st, r.0, true, (r.1 matches Ok(found) ==> stmt_ok(room(cx, r.0), found))),
    decreases h_expr(value), 5int, Chain::<u32>::Nil,
{
    let (st, out) = resolve_value(st, name);
    let resolved = match out {
        Ok(found) => found,
        Err(stop) => {
            return (st, Err(stop));
        },
    };
    match resolved {
        None => check_declare(cx, st, name, name_span, ty, value),
        Some(found) => {
            match found.source {
                CapSource::Local(slot) => check_rebind(cx, st, slot, found.mutable, name, name_span, ty, value),
                CapSource::Capture(_) => (st, Err(named(Problem::CapturedRebound, name, name_span))),
            }
        },
    }
}

/// Record that an initializer has assigned one field.
pub fn field_assigned(st: Checker, field: u32) -> (r: Checker)
    ensures
        r == model::blocks::field_assigned(st, field),
        kept(st, r),
        forall|cx: &Ctx| #![trigger ready(cx, st)] #![trigger room(cx, st)] step(cx, st, r, true, true),
{
    proof {
        reveal(ready);
        reveal(room);
        reveal(widens);
    }
    match st.ctor {
        None => Checker { ctor: None, ..st },
        Some(c) => Checker { ctor: Some(CtorCtx { state: CtorState { inited: set_nth(c.state.inited, field, true), super_done: c.state.super_done }, ..c }), ..st },
    }
}

/// Check the first assignment of a field through `self` inside an
/// initializer.
pub fn check_ctor_field(
    cx: &Ctx,
    st: Checker,
    class: u32,
    field: &Text,
    field_span: Span,
    value: &Expr,
) -> (r: (Checker, Result<HStmt, Stop>))
    ensures
        r == model::blocks::check_ctor_field(cx, st, class, field, field_span, value),
        kept(st, r.0),
        step(cx, st, r.0, st.ctor is Some, (r.1 matches Ok(found) ==> stmt_ok(room(cx, r.0), found))),
    decreases h_expr(value), 4int, Chain::<u32>::Nil,
{
    let at = match find_field(cx, class, field) {
        Some(found) => found,
        None => {
            return (st, Err(unknown_field(class, field, field_span)));
        },
    };
    let (st, out) = check_expr(cx, st, value, &field_ty_at(cx, class, at));
    let found = match out {
        Ok(found) => found,
        Err(stop) => {
            return (st, Err(stop));
        },
    };
    if contains_callback(&found.ty) {
        (st, Err(unnamed(Problem::CallbackInField, field_span)))
    } else {
        let st = field_assigned(st, at);
        let recv = self_value(&st);
        (st, Ok(HStmt::AssignField { recv: recv, field: at, value: found }))
    }
}

/// Check an assignment to a field. No loop around it walks the receiver.
pub fn check_assign_field(
    cx: &Ctx,
    st: Checker,
    recv: &Expr,
    field: &Text,
    field_span: Span,
    value: &Expr,
) -> (r: (Checker, Result<HStmt, Stop>))
    ensures
        r == model::blocks::check_assign_field(cx, st, recv, field, field_span, value),
        kept(st, r.0),
        step(cx, st, r.0, true, (r.1 matches Ok(found) ==> stmt_ok(room(cx, r.0), found))),
    decreases h_expr(recv) + h_expr(value), 5int, Chain::<u32>::Nil,
{
    match ctor_receiver(&st, recv) {
        Some(class) => check_ctor_field(cx, st, class, field, field_span, value),
        None => {
            let (st, out) = synth_expr(cx, st, recv);
            let recv_h = match out {
                Ok(found) => found,
                Err(stop) => {
                    return (st, Err(stop));
                },
            };
            match class_of(cx, &recv_h.ty) {
                None => (st, Err(unnamed(Problem::NoFields { ty: recv_h.ty }, recv.span))),
                Some(nominal) => {
                    match find_field(cx, nominal.class, field) {
                        None => (st, Err(unknown_field(nominal.class, field, field_span))),
                        Some(at) => {
                            if !recv_h.mutable {
                                (st, Err(named(Problem::ReadOnlyField, field, field_span)))
                            } else {
                                let _guarded = match guard_walked(cx, &st, &recv_h, field_span) {
                                    Ok(found) => found,
                                    Err(stop) => {
                                        return (st, Err(stop));
                                    },
                                };
                                let ty = substitute(&field_ty_at(cx, nominal.class, at), &nominal.args, &Chain::Nil);
                                let (st, out) = check_expr(cx, st, value, &ty);
                                let found = match out {
                                    Ok(found) => found,
                                    Err(stop) => {
                                        return (st, Err(stop));
                                    },
                                };
                                if contains_callback(&found.ty) {
                                    (st, Err(unnamed(Problem::CallbackInField, field_span)))
                                } else {
                                    (st, Ok(HStmt::AssignField { recv: recv_h, field: at, value: found }))
                                }
                            }
                        },
                    }
                },
            }
        },
    }
}

/// Check a `while` loop. Its body may run zero times, so the
/// initialization state behind it is the one before it.
pub fn check_while(cx: &Ctx, st: Checker, cond: &Expr, body: &Chain<Stmt>, span: Span) -> (r: (Checker, Result<HStmt, Stop>))
    ensures
        r == model::blocks::check_while(cx, st, cond, body, span),
        kept(st, r.0),
        step(cx, st, r.0, true, (r.1 matches Ok(found) ==> stmt_ok(room(cx, r.0), found))),
    decreases h_expr(cond) + h_stmts(body), 5int, Chain::<u32>::Nil,
{
    let before = ctor_state(&st);
    let (st, out) = check_expr(cx, st, cond, &Ty::Bool);
    let cond_h = match out {
        Ok(found) => found,
        Err(stop) => {
            return (st, Err(stop));
        },
    };
    let _guarded = match ctor_guard_loop(&st, &before, span) {
        Ok(found) => found,
        Err(stop) => {
            return (st, Err(stop));
        },
    };
    let snapshot = ctor_state(&st);
    let (st, out) = check_loop_body(cx, st, body, LoopMode::UnitOnly, None, Chain::Nil, span);
    let out = match out {
        Ok(found) => found,
        Err(stop) => {
            return (st, Err(stop));
        },
    };
    let _guarded = match ctor_guard_loop(&st, &snapshot, span) {
        Ok(found) => found,
        Err(stop) => {
            return (st, Err(stop));
        },
    };
    (with_ctor_state(st, &snapshot), Ok(HStmt::While { cond: cond_h, body: out.body }))
}

/// Check the body of a loop in its own scope.
pub fn check_loop_body(
    cx: &Ctx,
    st: Checker,
    body: &Chain<Stmt>,
    mode: LoopMode,
    walked: Option<HExpr>,
    scope: Chain<ScopeEntry>,
    span: Span,
) -> (r: (Checker, Result<LoopOut, Stop>))
    ensures
        r == model::blocks::check_loop_body(cx, st, body, mode, walked, scope, span),
        kept(st, r.0),
        step(
            cx,
            st,
            r.0,
            opt_expr_ok(room(cx, st), walked) && scope_in(room(cx, st), scope),
            (r.1 matches Ok(found) ==> stmts_ok(room(cx, r.0), found.body)),
        ),
        r.0.scopes == st.scopes,
    decreases h_stmts(body), 1int, Chain::<u32>::Nil,
{
    let st = push_loop(push_scope(st, scope), mode, walked);
    let (st, result) = check_block(cx, st, body, &BlockMode::Discard, span);
    let (st, context) = pop_loop(st);
    let st = pop_scope(st);
    let block = match result {
        Ok(found) => found,
        Err(stop) => {
            return (st, Err(stop));
        },
    };
    (st, Ok(LoopOut { body: block.body, context: context }))
}

/// The type that a `return` gives a value of.
pub fn return_type(st: &Checker, span: Span) -> (r: Result<Ty, Stop>)
    ensures
        r == model::blocks::return_type(st, span),
{
    match &st.ret {
        RetKind::Known(ty) => Ok((*ty).clone()),
        RetKind::Entry => Err(unnamed(Problem::ReturnAtTopLevel, span)),
        RetKind::ClosureInfer => Err(unnamed(Problem::ReturnNeedsResult, span)),
    }
}

/// Check the value of a `return`.
pub fn check_returned(cx: &Ctx, st: Checker, value: &Option<Expr>, ret: &Ty, span: Span) -> (r: (Checker, Result<Option<HExpr>, Stop>))
    ensures
        r == model::blocks::check_returned(cx, st, value, ret, span),
        kept(st, r.0),
        step(cx, st, r.0, true, (r.1 matches Ok(found) ==> opt_expr_ok(room(cx, r.0), found))),
    decreases h_optional(value), 4int, Chain::<u32>::Nil,
{
    match value {
        None => {
            if same_ty(&*ret, &Ty::Unit) {
                (st, Ok(None))
            } else {
                (st, Err(mismatch(ret, &Ty::Unit, span)))
            }
        },
        Some(source) => {
            let (st, out) = check_expr(cx, st, source, ret);
            let found = match out {
                Ok(found) => found,
                Err(stop) => {
                    return (st, Err(stop));
                },
            };
            if contains_callback(&found.ty) {
                (st, Err(unnamed(Problem::CallbackReturned, span)))
            } else {
                (st, Ok(Some(found)))
            }
        },
    }
}

/// Require the initializer under check to be complete.
pub fn check_complete(cx: &Ctx, st: &Checker, span: Span) -> (r: Result<(), Stop>)
    ensures
        r == model::blocks::check_complete(cx, st, span),
{
    match &st.ctor {
        Some(c) => require_complete(cx, c.class, c, span),
        None => Ok(()),
    }
}

/// A checker that has seen a `return`.
pub fn returned(st: Checker) -> (r: Checker)
    ensures
        r == model::blocks::returned(st),
        kept(st, r),
        forall|cx: &Ctx| #![trigger ready(cx, st)] #![trigger room(cx, st)] step(cx, st, r, true, true),
{
    proof {
        reveal(ready);
        reveal(room);
        reveal(widens);
    }
    Checker { saw_return: true, ..st }
}

/// Check a `return`. An initializer must be complete at each one.
pub fn check_return(cx: &Ctx, st: Checker, value: &Option<Expr>, span: Span) -> (r: (Checker, Result<HStmt, Stop>))
    ensures
        r == model::blocks::check_return(cx, st, value, span),
        kept(st, r.0),
        step(cx, st, r.0, true, (r.1 matches Ok(found) ==> stmt_ok(room(cx, r.0), found))),
    decreases h_optional(value), 5int, Chain::<u32>::Nil,
{
    let ret = match return_type(&st, span) {
        Ok(found) => found,
        Err(stop) => {
            return (st, Err(stop));
        },
    };
    let (st, out) = check_returned(cx, st, value, &ret, span);
    let found = match out {
        Ok(found) => found,
        Err(stop) => {
            return (st, Err(stop));
        },
    };
    let _complete = match check_complete(cx, &st, span) {
        Ok(found) => found,
        Err(stop) => {
            return (st, Err(stop));
        },
    };
    (returned(st), Ok(HStmt::Return(found)))
}

/// The mode of the innermost loop.
pub fn loop_mode(st: &Checker) -> (r: Option<LoopMode>)
    ensures
        r == model::blocks::loop_mode(st),
{
    match &st.loops {
        Chain::Nil => None,
        Chain::Cons(head, _) => Some(head.mode.clone()),
    }
}

/// Record a break of the innermost loop.
pub fn add_break(st: Checker, found: BranchType) -> (r: Checker)
    ensures
        r == model::blocks::add_break(st, found),
        kept(st, r),
        forall|cx: &Ctx| #![trigger ready(cx, st)] #![trigger room(cx, st)] step(cx, st, r, true, true),
{
    proof {
        reveal(ready);
        reveal(room);
        reveal(widens);
    }
    match st.loops {
        Chain::Nil => Checker { loops: Chain::Nil, ..st },
        Chain::Cons(head, tail) => Checker { loops: cons(LoopContext { breaks: append(head.breaks, found), ..*head }, *tail), ..st },
    }
}

/// Record a break whose type arguments a sibling must decide. The first
/// one is kept.
pub fn add_gap(st: Checker, diag: Diag) -> (r: Checker)
    ensures
        r == model::blocks::add_gap(st, diag),
        kept(st, r),
        forall|cx: &Ctx| #![trigger ready(cx, st)] #![trigger room(cx, st)] step(cx, st, r, true, true),
{
    proof {
        reveal(ready);
        reveal(room);
        reveal(widens);
    }
    match st.loops {
        Chain::Nil => Checker { loops: Chain::Nil, ..st },
        Chain::Cons(head, tail) => {
            match head.gap {
                Some(first) => Checker { loops: cons(LoopContext { gap: Some(first), ..*head }, *tail), ..st },
                None => Checker { loops: cons(LoopContext { gap: Some(diag), ..*head }, *tail), ..st },
            }
        },
    }
}

/// Record the value of a break, where it completes and the loop has a
/// value.
pub fn record_break(st: Checker, mode: &LoopMode, value: Option<HExpr>, span: Span) -> (r: (Checker, HStmt))
    ensures
        r == model::blocks::record_break(st, mode, value, span),
        kept(st, r.0),
        forall|cx: &Ctx|
            #![trigger ready(cx, st)]
            #![trigger room(cx, st)]
            step(
                cx,
                st,
                r.0,
                opt_expr_ok(room(cx, st), value),
                stmt_ok(room(cx, r.0), r.1),
            ),
{
    let completes = match &value {
        Some(found) => !never_completes(found),
        None => true,
    };
    let record = match mode {
        LoopMode::UnitOnly => false,
        _ => completes,
    };
    if !record {
        return (st, HStmt::Break(value));
    }
    match value {
        None => (add_break(st, BranchType { ty: Ty::Unit, mutable: true, span: span }), HStmt::Break(None)),
        Some(found) => {
            let kept = BranchType { ty: found.ty.clone(), mutable: found.mutable, span: span };
            (add_break(st, kept), HStmt::Break(Some(found)))
        },
    }
}

/// Check a break without a value.
pub fn check_bare_break(st: Checker, mode: LoopMode, span: Span) -> (r: (Checker, Result<HStmt, Stop>))
    ensures
        r == model::blocks::check_bare_break(st, mode, span),
        kept(st, r.0),
        forall|cx: &Ctx|
            #![trigger ready(cx, st)]
            #![trigger room(cx, st)]
            step(
                cx,
                st,
                r.0,
                true,
                (r.1 matches Ok(found) ==> stmt_ok(room(cx, r.0), found)),
            ),
{
    match &mode {
        LoopMode::Value(ty) => {
            if same_ty(&*ty, &Ty::Unit) {
                let (st, out) = record_break(st, &mode, None, span);
                (st, Ok(out))
            } else {
                (st, Err(mismatch(ty, &Ty::Unit, span)))
            }
        },
        _ => {
            let (st, out) = record_break(st, &mode, None, span);
            (st, Ok(out))
        },
    }
}

/// Check a break with a value.
pub fn check_value_break(cx: &Ctx, st: Checker, mode: LoopMode, source: &Expr, span: Span) -> (r: (Checker, Result<HStmt, Stop>))
    ensures
        r == model::blocks::check_value_break(cx, st, mode, source, span),
        kept(st, r.0),
        step(cx, st, r.0, true, (r.1 matches Ok(found) ==> stmt_ok(room(cx, r.0), found))),
    decreases h_expr(source), 4int, Chain::<u32>::Nil,
{
    match &mode {
        LoopMode::UnitOnly => (st, Err(unnamed(Problem::BreakCarriesValue, span))),
        LoopMode::Value(ty) => {
            let (st, out) = check_expr(cx, st, source, ty);
            let value = match out {
                Ok(found) => found,
                Err(stop) => {
                    return (st, Err(stop));
                },
            };
            let (st, out) = record_break(st, &mode, Some(value), span);
            (st, Ok(out))
        },
        LoopMode::Discard => {
            let (st, out) = synth_expr(cx, st, source);
            let value = match out {
                Ok(found) => found,
                Err(stop) => {
                    return (st, Err(stop));
                },
            };
            let (st, out) = record_break(st, &mode, Some(value), span);
            (st, Ok(out))
        },
        LoopMode::Synth => {
            match synth_expr(cx, st, source) {
                (st, Ok(value)) => {
                    let (st, out) = record_break(st, &mode, Some(value), span);
                    (st, Ok(out))
                },
                (st, Err(Stop::Fail(diag))) => {
                    if is_inference_gap(&diag) {
                        (add_gap(st, diag), Ok(HStmt::Break(None)))
                    } else {
                        (st, Err(Stop::Fail(diag)))
                    }
                },
                (st, Err(stop)) => (st, Err(stop)),
            }
        },
    }
}

/// Check a `break`.
pub fn check_break(cx: &Ctx, st: Checker, value: &Option<Expr>, span: Span) -> (r: (Checker, Result<HStmt, Stop>))
    ensures
        r == model::blocks::check_break(cx, st, value, span),
        kept(st, r.0),
        step(cx, st, r.0, true, (r.1 matches Ok(found) ==> stmt_ok(room(cx, r.0), found))),
    decreases h_optional(value), 5int, Chain::<u32>::Nil,
{
    let mode = match loop_mode(&st) {
        Some(found) => found,
        None => {
            return (st, Err(unnamed(Problem::BreakOutsideLoop, span)));
        },
    };
    match value {
        None => check_bare_break(st, mode, span),
        Some(source) => check_value_break(cx, st, mode, source, span),
    }
}

/// What a loop in one block mode does with its breaks.
pub fn loop_mode_of(mode: &BlockMode) -> (r: LoopMode)
    ensures
        r == model::blocks::loop_mode_of(mode),
{
    match mode {
        BlockMode::Discard => LoopMode::Discard,
        BlockMode::Value(ty) => LoopMode::Value((*ty).clone()),
        BlockMode::Synth => LoopMode::Synth,
    }
}

/// A checker that collects the functions of one pass only.
pub fn restart_pass(
    st: Checker,
    locals: Chain<LocalVar>,
    next_func: u32,
    state: &Option<CtorState>,
) -> (r: Checker)
    ensures
        r == model::blocks::restart_pass(st, locals, next_func, state),
{
    with_ctor_state(Checker { locals: locals, out: Output { next_func: next_func, made: Chain::Nil }, ..st }, state)
}

/// A checker without the functions made so far, and those functions.
pub fn set_aside(st: Checker) -> (r: (Checker, Chain<MadeFunc>))
    ensures
        r == model::blocks::set_aside(st),
        forall|cx: &Ctx| #![trigger ready(cx, st)] #![trigger room(cx, st)] step(cx, st, r.0, true, made_ok(cx, r.1)),
{
    proof {
        reveal(ready);
        reveal(room);
        reveal(widens);
    }
    let out = Output { next_func: st.out.next_func, made: Chain::Nil };
    (Checker { out: out, ..st }, st.out.made)
}

/// A checker with the functions before a pass and those of the pass.
pub fn rejoin(st: Checker, made: Chain<MadeFunc>) -> (r: Checker)
    ensures
        r == model::blocks::rejoin(st, made),
        forall|cx: &Ctx| #![trigger ready(cx, st)] #![trigger room(cx, st)] step(cx, st, r, made_ok(cx, made), true),
{
    proof {
        reveal(ready);
        reveal(room);
        reveal(widens);
    }
    Checker { out: Output { next_func: st.out.next_func, made: concat(made, st.out.made) }, ..st }
}

/// Check the body of a value loop. With a break that waits, every break
/// checks against the hint of its siblings, and what the first pass added
/// is dropped.
pub fn settle_pass(
    cx: &Ctx,
    st: Checker,
    body: &Chain<Stmt>,
    mode: &BlockMode,
    before: &Option<CtorState>,
    span: Span,
) -> (r: (Checker, Result<(LoopOut, Option<Ty>), Stop>))
    ensures
        r == model::blocks::settle_pass(cx, st, body, mode, before, span),
        step(cx, st, r.0, true, (r.1 matches Ok(found) ==> stmts_ok(room(cx, r.0), found.0.body))),
        st.out.made is Nil ==> kept(st, r.0),
    decreases h_stmts(body), 2int, Chain::<u32>::Nil,
{
    let locals = clone_local_vars(&st.locals);
    let next_func = st.out.next_func;
    let ghost first = st;
    let (st, out) = check_loop_body(cx, st, body, loop_mode_of(mode), None, Chain::Nil, span);
    let out = match out {
        Ok(found) => found,
        Err(stop) => {
            return (st, Err(stop));
        },
    };
    match out.context.gap {
        None => (st, Ok((LoopOut { body: out.body, context: LoopContext { gap: None, ..out.context } }, None))),
        Some(gap) => {
            let hint = match branch_hint(cx, &out.context.breaks) {
                Ok(found) => found,
                Err(stop) => {
                    return (st, Err(stop));
                },
            };
            match hint {
                None => (st, Err(Stop::Fail(gap))),
                Some(ty) => {
                    let ghost passed = st;
                    let st = restart_pass(st, locals, next_func, before);
                    proof {
                        lemma_restart_ok(cx, first, passed, next_func, *before);
                    }
                    let (st, out) = check_loop_body(cx, st, body, LoopMode::Value(ty.clone()), None, Chain::Nil, span);
                    let again = match out {
                        Ok(found) => found,
                        Err(stop) => {
                            return (st, Err(stop));
                        },
                    };
                    (st, Ok((again, Some(ty))))
                },
            }
        },
    }
}

/// Check the body of a value loop beside the functions before it.
pub fn settle_loop(
    cx: &Ctx,
    st: Checker,
    body: &Chain<Stmt>,
    mode: &BlockMode,
    before: &Option<CtorState>,
    span: Span,
) -> (r: (Checker, Result<(LoopOut, Option<Ty>), Stop>))
    ensures
        r == model::blocks::settle_loop(cx, st, body, mode, before, span),
        kept(st, r.0),
        step(cx, st, r.0, true, (r.1 matches Ok(found) ==> stmts_ok(room(cx, r.0), found.0.body))),
    decreases h_stmts(body), 3int, Chain::<u32>::Nil,
{
    let (st, made) = set_aside(st);
    let (st, result) = settle_pass(cx, st, body, mode, before, span);
    (rejoin(st, made), result)
}

/// The type of a value loop: `Never` without a break.
pub fn loop_type(
    cx: &Ctx,
    mode: &BlockMode,
    hint: Option<Ty>,
    breaks: &Chain<BranchType>,
) -> (r: Result<Ty, Stop>)
    ensures
        r == model::blocks::loop_type(cx, mode, hint, breaks),
{
    if breaks.is_empty() {
        return Ok(Ty::Never);
    }
    match (mode, hint) {
        (BlockMode::Discard, _) => Ok(Ty::Unit),
        (BlockMode::Value(ty), _) => Ok((*ty).clone()),
        (BlockMode::Synth, Some(ty)) => Ok(ty),
        (BlockMode::Synth, None) => {
            let found = match branch_hint(cx, breaks) {
                Ok(found) => found,
                Err(stop) => {
                    return Err(stop);
                },
            };
            match found {
                Some(ty) => Ok(ty),
                None => Ok(Ty::Never),
            }
        },
    }
}

/// The slot that holds the result of a value loop.
pub fn result_slot(st: Checker, ty: &Ty, mutable: bool) -> (r: (Checker, Option<u32>))
    ensures
        r == model::blocks::result_slot(st, ty, mutable),
        kept(st, r.0),
        forall|cx: &Ctx|
            #![trigger ready(cx, st)]
            #![trigger room(cx, st)]
            step(
                cx,
                st,
                r.0,
                true,
                slot_ok(room(cx, r.0), r.1),
            ),
{
    if same_ty(&*ty, &Ty::Unit) || same_ty(&*ty, &Ty::Never) {
        (st, None)
    } else {
        let (st, slot) = hidden_local(st, (*ty).clone(), mutable);
        (st, Some(slot))
    }
}

/// Check a `loop`, whose breaks give its value.
pub fn check_loop(
    cx: &Ctx,
    st: Checker,
    body: &Chain<Stmt>,
    mode: &BlockMode,
    span: Span,
) -> (r: (Checker, Result<HExpr, Stop>))
    ensures
        r == model::blocks::check_loop(cx, st, body, mode, span),
        kept(st, r.0),
        step(cx, st, r.0, true, (r.1 matches Ok(found) ==> expr_ok(room(cx, r.0), found))),
        fits_mode(cx, *mode, r.1),
    decreases h_stmts(body), 5int, Chain::<u32>::Nil,
{
    let before = ctor_state(&st);
    let (st, out) = settle_loop(cx, st, body, mode, &before, span);
    let settled = match out {
        Ok(found) => found,
        Err(stop) => {
            return (st, Err(stop));
        },
    };
    let (out, hint) = settled;
    let _guarded = match ctor_guard_loop(&st, &before, span) {
        Ok(found) => found,
        Err(stop) => {
            return (st, Err(stop));
        },
    };
    let st = with_ctor_state(st, &before);
    let ty = match loop_type(cx, mode, hint, &out.context.breaks) {
        Ok(found) => found,
        Err(stop) => {
            return (st, Err(stop));
        },
    };
    let mutable = same_ty(&ty, &Ty::Unit) || same_ty(&ty, &Ty::Never) || all_mutable(&out.context.breaks);
    let (st, slot) = result_slot(st, &ty, mutable);
    (st, Ok(hexpr(ty, mutable, HKind::Loop { body: out.body, result_slot: slot })))
}

/// The value of an associated type of one type in a scope.
pub fn associated_of(cx: &Ctx, env: &TyEnv, ty: &Ty, interface: u32, assoc: u32) -> (r: Option<Ty>)
    ensures
        r == model::blocks::associated_of(cx, env, ty, interface, assoc),
{
    match ty {
        Ty::Var(index) => {
            if *index < env.type_offset {
                conformance_associated(cx, env, ty, interface, assoc)
            } else {
                match variable_bounds(env, *index) {
                    None => None,
                    Some(bounds) => {
                        if find_bound(bounds, interface).is_some() {
                            Some(project(cx, (*ty).clone(), interface, assoc))
                        } else {
                            None
                        }
                    },
                }
            }
        },
        Ty::Projection(_, owner, owner_assoc) => {
            match associated_bounds(cx, *owner, *owner_assoc) {
                None => None,
                Some(bounds) => {
                    if find_bound(bounds, interface).is_some() {
                        Some(project(cx, (*ty).clone(), interface, assoc))
                    } else {
                        None
                    }
                },
            }
        },
        _ => conformance_associated(cx, env, ty, interface, assoc),
    }
}

/// Bind the names of a loop to fresh locals.
pub fn bind_loop(
    st: Checker,
    bindings: &Chain<LoopBinding>,
    types: &Chain<Ty>,
    mutable: bool,
    scope: Chain<ScopeEntry>,
) -> (r: (Checker, Result<Bound, Stop>))
    ensures
        r == model::blocks::bind_loop(st, bindings, types, mutable, scope),
        kept(st, r.0),
        forall|cx: &Ctx|
            #![trigger ready(cx, st)]
            #![trigger room(cx, st)]
            step(
                cx,
                st,
                r.0,
                scope_in(room(cx, st), scope),
                (r.1 matches Ok(found) ==> slots_ok(room(cx, r.0), found.slots) && scope_in(room(cx, r.0), found.scope)),
            ),
    decreases bindings,
{
    match (bindings, types) {
        (Chain::Cons(binding, bindings_rest), Chain::Cons(ty, types_rest)) => {
            let anonymous = is_text(&binding.name, "_");
            if !anonymous && slot_in(&scope, &binding.name).is_some() {
                (st, Err(named(Problem::DuplicateLoopBinding, &binding.name, binding.span)))
            } else {
                let (st, slot) = hidden_local(st, (**ty).clone(), mutable);
                let inner = if anonymous { scope } else { set_slot(scope, &binding.name, slot) };
                let (st, out) = bind_loop(st, bindings_rest, types_rest, mutable, inner);
                let rest = match out {
                    Ok(found) => found,
                    Err(stop) => {
                        return (st, Err(stop));
                    },
                };
                (st, Ok(Bound { slots: cons(slot, rest.slots), scope: rest.scope }))
            }
        },
        _ => (st, Ok(Bound { slots: Chain::Nil, scope: scope })),
    }
}

/// Bind the names of a loop: one for each bound type.
pub fn for_bindings(
    st: Checker,
    bindings: &Chain<LoopBinding>,
    types: &Chain<Ty>,
    mutable: bool,
) -> (r: (Checker, Result<Bound, Stop>))
    ensures
        r == model::blocks::for_bindings(st, bindings, types, mutable),
        kept(st, r.0),
        forall|cx: &Ctx|
            #![trigger ready(cx, st)]
            #![trigger room(cx, st)]
            step(
                cx,
                st,
                r.0,
                true,
                (r.1 matches Ok(found) ==> slots_ok(room(cx, r.0), found.slots) && scope_in(room(cx, r.0), found.scope)),
            ),
{
    if count(bindings) != count(types) {
        return (st, Err(unnamed(Problem::LoopBindingCount { expected: count(types), found: count(bindings) }, first_binding_span(bindings))));
    }
    bind_loop(st, bindings, types, mutable, Chain::Nil)
}

/// The place of the first loop binding.
pub fn first_binding_span(bindings: &Chain<LoopBinding>) -> (r: Span)
    ensures
        r == model::blocks::first_binding_span(bindings),
{
    match bindings {
        Chain::Nil => nowhere(),
        Chain::Cons(head, _) => head.span,
    }
}

/// Walk a list by index.
pub fn iterate_list(st: Checker, source: &HExpr, element: &Ty) -> (r: (Checker, Iteration))
    ensures
        r == model::blocks::iterate_list(st, source, element),
        kept(st, r.0),
        forall|cx: &Ctx|
            #![trigger ready(cx, st)]
            #![trigger room(cx, st)]
            step(
                cx,
                st,
                r.0,
                expr_ok(room(cx, st), *source),
                kind_ok(room(cx, r.0), r.1.kind),
            ),
{
    let (st, source_slot) = hidden_local(st, source.ty.clone(), source.mutable);
    let (st, index_slot) = hidden_local(st, Ty::Int, true);
    let (st, epoch_slot) = hidden_local(st, Ty::Int, true);
    (st, Iteration {
        kind: HForKind::List { source_slot: source_slot, index_slot: index_slot, epoch_slot: epoch_slot, element: (*element).clone() },
        types: one((*element).clone()),
        mutable: source.mutable,
    })
}

/// Walk the entries of a map: as pairs, or as key and value.
pub fn iterate_map(st: Checker, source: &HExpr, key: &Ty, value: &Ty, bindings: u32) -> (r: (Checker, Iteration))
    ensures
        r == model::blocks::iterate_map(st, source, key, value, bindings),
        kept(st, r.0),
        forall|cx: &Ctx|
            #![trigger ready(cx, st)]
            #![trigger room(cx, st)]
            step(
                cx,
                st,
                r.0,
                expr_ok(room(cx, st), *source),
                kind_ok(room(cx, r.0), r.1.kind),
            ),
{
    let (st, source_slot) = hidden_local(st, source.ty.clone(), source.mutable);
    let (st, index_slot) = hidden_local(st, Ty::Int, true);
    let (st, epoch_slot) = hidden_local(st, Ty::Int, true);
    let pair = Ty::Tuple(two((*key).clone(), (*value).clone()));
    let types = if bindings == 2 { two((*key).clone(), (*value).clone()) } else { one(pair.clone()) };
    (st, Iteration {
        kind: HForKind::Entries { source_slot: source_slot, index_slot: index_slot, epoch_slot: epoch_slot, key: (*key).clone(), value: (*value).clone(), pair: pair },
        types: types,
        mutable: source.mutable,
    })
}

/// The type of a character. A core without `Char` leaves it to what
/// stands for an omitted type.
pub fn char_type(cx: &Ctx) -> (r: Result<Ty, Stop>)
    ensures
        r == model::blocks::char_type(cx),
{
    match find_literal(&cx.core_types, "Char") {
        Some(class) => {
            match nth(&cx.classes, class) {
                Some(info) => Ok(info.self_ty.clone()),
                None => omitted_type(cx, "Char"),
            }
        },
        None => omitted_type(cx, "Char"),
    }
}

/// Walk the characters of a text.
pub fn iterate_text(cx: &Ctx, st: Checker, source: &HExpr) -> (r: (Checker, Result<Iteration, Stop>))
    ensures
        r == model::blocks::iterate_text(cx, st, source),
        kept(st, r.0),
        step(
            cx,
            st,
            r.0,
            expr_ok(room(cx, st), *source),
            (r.1 matches Ok(found) ==> kind_ok(room(cx, r.0), found.kind)),
        ),
{
    let item = match char_type(cx) {
        Ok(found) => found,
        Err(stop) => {
            return (st, Err(stop));
        },
    };
    let (st, source_slot) = hidden_local(st, source.ty.clone(), source.mutable);
    let (st, cursor_slot) = hidden_local(st, Ty::Int, true);
    (st, Ok(Iteration {
        kind: HForKind::Chars { source_slot: source_slot, cursor_slot: cursor_slot, item: item.clone() },
        types: one(item),
        mutable: true,
    }))
}

/// Walk a range of integers.
pub fn iterate_range(st: Checker, source: &HExpr) -> (r: (Checker, Iteration))
    ensures
        r == model::blocks::iterate_range(st, source),
        kept(st, r.0),
        forall|cx: &Ctx|
            #![trigger ready(cx, st)]
            #![trigger room(cx, st)]
            step(
                cx,
                st,
                r.0,
                expr_ok(room(cx, st), *source),
                kind_ok(room(cx, r.0), r.1.kind),
            ),
{
    let (st, source_slot) = hidden_local(st, source.ty.clone(), source.mutable);
    let (st, cursor_slot) = hidden_local(st, Ty::Int, true);
    let (st, stop_slot) = hidden_local(st, Ty::Int, true);
    (st, Iteration {
        kind: HForKind::Range { source_slot: source_slot, cursor_slot: cursor_slot, stop_slot: stop_slot },
        types: one(Ty::Int),
        mutable: true,
    })
}

/// The item of an `Option` that an iterator gives.
pub fn option_item(cx: &Ctx, ty: &Ty) -> (r: Option<Ty>)
    ensures
        r == model::blocks::option_item(cx, ty),
{
    let nominal = match nominal_class(cx, ty) {
        Some(found) => found,
        None => {
            return None;
        },
    };
    match nominal.args {
        Chain::Cons(item, rest) => {
            if nominal.class == cx.core.option_class && rest.is_empty() {
                Some(*item)
            } else {
                None
            }
        },
        Chain::Nil => None,
    }
}

/// Require the items of an iterator to be those that its source
/// promises. A generic source keeps its promise by its bound.
pub fn check_item(cx: &Ctx, source: &Ty, item: &Ty, promised: &Ty, span: Span) -> (r: Result<(), Stop>)
    ensures
        r == model::blocks::check_item(cx, source, item, promised, span),
{
    if contains_var(source) {
        return Ok(());
    }
    let forward = match compatible(cx, item, promised) {
        Ok(found) => found,
        Err(stop) => {
            return Err(stop);
        },
    };
    let backward = match compatible(cx, promised, item) {
        Ok(found) => found,
        Err(stop) => {
            return Err(stop);
        },
    };
    if forward && backward {
        Ok(())
    } else {
        Err(unnamed(Problem::IterableItem, span))
    }
}

/// The two parts of an item that two bindings take.
pub fn item_pair(item: &Ty, span: Span) -> (r: Result<Chain<Ty>, Stop>)
    ensures
        r == model::blocks::item_pair(item, span),
{
    match item {
        Ty::Tuple(items) => {
            if count(items) == 2 {
                Ok(clone_tys(&*items))
            } else {
                Err(unnamed(Problem::LoopNeedsPair, span))
            }
        },
        _ => Err(unnamed(Problem::LoopNeedsPair, span)),
    }
}

/// The types that a loop over items binds, and the slot of the item where
/// two bindings take it apart.
pub fn item_bindings(st: Checker, item: &Ty, bindings: u32, span: Span) -> (r: (Checker, Result<(Chain<Ty>, Option<u32>), Stop>))
    ensures
        r == model::blocks::item_bindings(st, item, bindings, span),
        kept(st, r.0),
        forall|cx: &Ctx|
            #![trigger ready(cx, st)]
            #![trigger room(cx, st)]
            step(
                cx,
                st,
                r.0,
                true,
                (r.1 matches Ok(found) ==> slot_ok(room(cx, r.0), found.1)),
            ),
{
    if bindings == 2 {
        let parts = match item_pair(item, span) {
            Ok(found) => found,
            Err(stop) => {
                return (st, Err(stop));
            },
        };
        let (st, slot) = hidden_local(st, (*item).clone(), true);
        (st, Ok((parts, Some(slot))))
    } else {
        (st, Ok((one((*item).clone()), None)))
    }
}

/// Walk a source through its iterator.
pub fn iterate_generic(
    cx: &Ctx,
    st: Checker,
    source: &HExpr,
    bindings: u32,
    value_span: Span,
    span: Span,
) -> (r: (Checker, Result<Iteration, Stop>))
    ensures
        r == model::blocks::iterate_generic(cx, st, source, bindings, value_span, span),
        kept(st, r.0),
        step(
            cx,
            st,
            r.0,
            expr_ok(room(cx, st), *source),
            (r.1 matches Ok(found) ==> kind_ok(room(cx, r.0), found.kind)),
        ),
    decreases h_exprs(&Chain::<Expr>::Nil), 6int, Chain::<u32>::Nil,
{
    let iterable = match core_interface(cx, "Iterable", span) {
        Ok(found) => found,
        Err(stop) => {
            return (st, Err(stop));
        },
    };
    let item_at = match core_associated(cx, iterable, "Item", span) {
        Ok(found) => found,
        Err(stop) => {
            return (st, Err(stop));
        },
    };
    let promised = match associated_of(cx, &st.env, &source.ty, iterable, item_at) {
        Some(found) => found,
        None => {
            return (st, Err(unnamed(Problem::NotIterable { ty: source.ty.clone() }, value_span)));
        },
    };
    let (st, source_slot) = hidden_local(st, source.ty.clone(), source.mutable);
    let walked = local_expr(&st, source_slot);
    let (st, out) = call_zero_method(cx, st, walked, "iterator", span);
    let iterator = match out {
        Ok(found) => found,
        Err(stop) => {
            return (st, Err(stop));
        },
    };
    let (st, iterator_slot) = hidden_local(st, iterator.ty.clone(), true);
    let stepped = local_expr(&st, iterator_slot);
    let (st, out) = call_zero_method(cx, st, stepped, "next", span);
    let next = match out {
        Ok(found) => found,
        Err(stop) => {
            return (st, Err(stop));
        },
    };
    let item = match option_item(cx, &next.ty) {
        Some(found) => found,
        None => {
            return (st, Err(unnamed(Problem::NextResult, span)));
        },
    };
    let _same = match check_item(cx, &source.ty, &item, &promised, span) {
        Ok(found) => found,
        Err(stop) => {
            return (st, Err(stop));
        },
    };
    let some_ty = substitute(&class_at(cx, cx.core.some_class).self_ty, &one(item.clone()), &Chain::Nil);
    let (st, option_slot) = hidden_local(st, next.ty.clone(), true);
    let (st, out) = item_bindings(st, &item, bindings, span);
    let bound = match out {
        Ok(found) => found,
        Err(stop) => {
            return (st, Err(stop));
        },
    };
    let (types, item_slot) = bound;
    (st, Ok(Iteration {
        kind: HForKind::Generic { source_slot: source_slot, iterator_slot: iterator_slot, option_slot: option_slot, item_slot: item_slot, iterator: iterator, next: next, some_ty: some_ty, item: item },
        types: types,
        mutable: true,
    }))
}

/// Whether a type is a text.
pub fn is_text_type(cx: &Ctx, ty: &Ty) -> (r: bool)
    ensures
        r == model::blocks::is_text_type(cx, ty),
{
    match (class_of(cx, ty), find_literal(&cx.core_types, "Text")) {
        (Some(nominal), Some(general)) => class_extends(cx, nominal.class, general),
        _ => false,
    }
}

/// Whether the class of a type is the core range. A core without a range
/// gives that role to the types without a class.
pub fn is_range_type(cx: &Ctx, ty: &Ty) -> (r: bool)
    ensures
        r == model::blocks::is_range_type(cx, ty),
{
    match (class_of(cx, ty), find_literal(&cx.core_types, "Range")) {
        (Some(nominal), Some(range)) => nominal.class == range,
        (None, None) => true,
        _ => false,
    }
}

/// How a loop walks its source.
pub fn iterate(
    cx: &Ctx,
    st: Checker,
    source: &HExpr,
    bindings: u32,
    value_span: Span,
    span: Span,
) -> (r: (Checker, Result<Iteration, Stop>))
    ensures
        r == model::blocks::iterate(cx, st, source, bindings, value_span, span),
        kept(st, r.0),
        step(
            cx,
            st,
            r.0,
            expr_ok(room(cx, st), *source),
            (r.1 matches Ok(found) ==> kind_ok(room(cx, r.0), found.kind)),
        ),
    decreases h_exprs(&Chain::<Expr>::Nil), 7int, Chain::<u32>::Nil,
{
    match &source.ty {
        Ty::ListOf(element) => {
            let (st, out) = iterate_list(st, source, element);
            (st, Ok(out))
        },
        Ty::MapOf(key, value) => {
            let (st, out) = iterate_map(st, source, key, value, bindings);
            (st, Ok(out))
        },
        _ => {
            if is_text_type(cx, &source.ty) {
                iterate_text(cx, st, source)
            } else if is_range_type(cx, &source.ty) {
                let (st, out) = iterate_range(st, source);
                (st, Ok(out))
            } else {
                iterate_generic(cx, st, source, bindings, value_span, span)
            }
        },
    }
}

/// Check a `for` loop. Its body does not change what the loop walks.
#[verifier::rlimit(30)]
pub fn check_for(
    cx: &Ctx,
    st: Checker,
    bindings: &Chain<LoopBinding>,
    value: &Expr,
    body: &Chain<Stmt>,
    span: Span,
) -> (r: (Checker, Result<HStmt, Stop>))
    ensures
        r == model::blocks::check_for(cx, st, bindings, value, body, span),
        kept(st, r.0),
        step(cx, st, r.0, true, (r.1 matches Ok(found) ==> stmt_ok(room(cx, r.0), found))),
    decreases h_expr(value) + h_stmts(body), 8int, Chain::<u32>::Nil,
{
    let before = ctor_state(&st);
    let (st, out) = synth_expr(cx, st, value);
    let source = match out {
        Ok(found) => found,
        Err(stop) => {
            return (st, Err(stop));
        },
    };
    let (st, out) = iterate(cx, st, &source, count(bindings), value.span, span);
    let iteration = match out {
        Ok(found) => found,
        Err(stop) => {
            return (st, Err(stop));
        },
    };
    let _guarded = match ctor_guard_loop(&st, &before, span) {
        Ok(found) => found,
        Err(stop) => {
            return (st, Err(stop));
        },
    };
    let snapshot = ctor_state(&st);
    let (st, out) = for_bindings(st, bindings, &iteration.types, iteration.mutable);
    let bound = match out {
        Ok(found) => found,
        Err(stop) => {
            return (st, Err(stop));
        },
    };
    let (st, out) = check_loop_body(cx, st, body, LoopMode::UnitOnly, Some(source.clone()), bound.scope, span);
    let out = match out {
        Ok(found) => found,
        Err(stop) => {
            return (st, Err(stop));
        },
    };
    let _guarded = match ctor_guard_loop(&st, &snapshot, span) {
        Ok(found) => found,
        Err(stop) => {
            return (st, Err(stop));
        },
    };
    (with_ctor_state(st, &snapshot), Ok(HStmt::For { source: source, bindings: bound.slots, kind: iteration.kind, body: out.body }))
}

} // verus!
