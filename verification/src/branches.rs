//! Flow refinement, branches, and case analysis.

use vstd::prelude::*;
use crate::answers::compatible;
use crate::ast::{CaseArm, Expr, GenericParam, IfArm, Pattern, PatternKind, SelectArm, Span, Stmt, TypeExpr};
use crate::blocks::check_block;
use crate::calls::resolve_now;
use crate::chain::{Chain, copy_chain};
use crate::context::{Ctx, Decl, TyEnv, clone_interface_use_lists};
use crate::desugar::{propagate_arms, select_arms, select_wait};
use crate::endings::body_diverges;
use crate::exprs::{check_expr, synth_expr};
use crate::hir::{HArm, HExpr, HIfArm, HKind, HPattern, HReflectArm, HStmt, HirFunc, ReflectKind};
use crate::infer::{all_mutable, branch_hint, is_inference_gap, join_or_hint};
use crate::lists::{append, concat, cons, count, holds_name, one, truncate};
use crate::lookup::{core_class, core_id, core_inst};
use crate::patterns::{analyze_arms, check_pattern};
use crate::problem::{Diag, Problem, Stop};
use crate::resolve::{generic_bounds_from, named, unnamed};
use crate::scope::{bind_name, ctor_state, generated_name, hexpr, hidden_local, local_expr, local_ty, merge_ctor_states, mismatch, name_of_slot, pop_scope, push_func, push_scope, with_ctor_state};
use crate::state::{ArmOut, Block, BlockMode, BranchOut, BranchState, BranchType, Checker, Conditions, CtorState, Gathered, LocalVar, Refined, Refinement, ReflectOut, Reflected, RetKind, ScopeEntry, Settled, Tried};
use crate::text::{Text, is_text, text};
use crate::types::{Ty, same_ty};
use crate::model::heights::{h_arm, h_arms, h_bodies, h_branches, h_else, h_expr, h_stmts, h_waits, lemma_propagate_arms, lemma_select};
use crate::model::fits::fits_mode;
use crate::model::sound::{arm_out_ok, arm_outs_ok, expr_ok, exprs_ok, has_slot, opt_stmt_ok, outs_ok, ready, refined_ok, refinement_ok, refinements_ok, reflect_ok, room, scope_ok, slot_ok, step, stmt_ok, stmts_ok, widens};
use crate::model::keeps::kept;
use crate::model;

verus! {

broadcast use {crate::model::keeps::group_kept, crate::model::sound::group_sound};

/// What a checked condition narrows: `local is Type` where the target is
/// narrower than the type of a named local.
pub fn refinement_of(cx: &Ctx, st: &Checker, cond: &HExpr) -> (r: Result<Option<Refinement>, Stop>)
    ensures
        r == model::branches::refinement_of(cx, st, cond),
{
    match &*cond.kind {
        HKind::IsType { value, ty } => {
            match &*value.kind {
                HKind::Local(slot) => {
                    let current = local_ty(st, *slot);
                    if same_ty(&*ty, &current) {
                        Ok(None)
                    } else {
                        let narrows = match compatible(cx, &current, ty) {
                            Ok(found) => found,
                            Err(stop) => {
                                return Err(stop);
                            },
                        };
                        match (narrows, name_of_slot(st, *slot)) {
                            (true, Some(name)) => Ok(Some(Refinement { slot: *slot, name: name, ty: (*ty).clone() })),
                            _ => Ok(None),
                        }
                    }
                },
                _ => Ok(None),
            }
        },
        _ => Ok(None),
    }
}

/// Bind a refined shadow local in the branch scope just opened. The
/// shadow holds the same value behind a checked cast.
pub fn bind_refinement(st: Checker, refinement: &Refinement) -> (r: (Checker, HStmt))
    ensures
        r == model::branches::bind_refinement(st, refinement),
        kept(st, r.0),
        forall|cx: &Ctx|
            #![trigger ready(cx, st)]
            #![trigger room(cx, st)]
            step(
                cx,
                st,
                r.0,
                has_slot(room(cx, st), refinement.slot),
                stmt_ok(room(cx, r.0), r.1),
            ),
{
    let source = local_expr(&st, refinement.slot);
    let mutable = source.mutable;
    let (st, shadow) = hidden_local(st, refinement.ty.clone(), mutable);
    let st = bind_name(st, &refinement.name, shadow);
    let value = hexpr(refinement.ty.clone(), mutable, HKind::CastType { value: source, ty: refinement.ty.clone() });
    (st, HStmt::Assign { slot: shadow, value: value })
}

/// Bind what a condition narrows, where it narrows something.
pub fn bind_narrowed(st: Checker, refinement: &Option<Refinement>) -> (r: (Checker, Option<HStmt>))
    ensures
        r == model::branches::bind_narrowed(st, refinement),
        kept(st, r.0),
        forall|cx: &Ctx|
            #![trigger ready(cx, st)]
            #![trigger room(cx, st)]
            step(
                cx,
                st,
                r.0,
                refinement_ok(room(cx, st), *refinement),
                opt_stmt_ok(room(cx, r.0), r.1),
            ),
{
    match refinement {
        None => (st, None),
        Some(found) => {
            let (st, init) = bind_refinement(st, found);
            (st, Some(init))
        },
    }
}

/// A body behind a first statement.
pub fn with_first(first: Option<HStmt>, body: Chain<HStmt>) -> (r: Chain<HStmt>)
    ensures
        r == model::branches::with_first(first, body),
{
    match first {
        Some(stmt) => cons(stmt, body),
        None => body,
    }
}

/// Check one branch body inside a fresh scope with an optional flow
/// refinement, from the initialization state of the fork.
pub fn check_branch_body(
    cx: &Ctx,
    st: Checker,
    body: &Chain<Stmt>,
    mode: &BlockMode,
    refinement: &Option<Refinement>,
    entry: &Option<CtorState>,
    span: Span,
) -> (r: (Checker, Result<BranchOut, Stop>))
    ensures
        r == model::branches::check_branch_body(cx, st, body, mode, refinement, entry, span),
        kept(st, r.0),
        step(
            cx,
            st,
            r.0,
            refinement_ok(room(cx, st), *refinement),
            (r.1 matches Ok(found) ==> stmts_ok(room(cx, r.0), found.block.body)),
        ),
    decreases h_stmts(body), 1int, Chain::<u32>::Nil,
{
    let st = push_scope(with_ctor_state(st, entry), Chain::Nil);
    let (st, init) = bind_narrowed(st, refinement);
    let (st, result) = check_block(cx, st, body, mode, span);
    let st = pop_scope(st);
    let block = match result {
        Ok(found) => found,
        Err(stop) => {
            return (st, Err(stop));
        },
    };
    let state = ctor_state(&st);
    (st, Ok(BranchOut { block: Block { body: with_first(init, block.body), ..block }, state: state }))
}

/// Check the conditions of a conditional. A later condition runs only
/// when the earlier bodies were skipped, so all of them come first.
pub fn check_conditions(cx: &Ctx, st: Checker, branches: &Chain<IfArm>) -> (r: (Checker, Result<Conditions, Stop>))
    ensures
        r == model::branches::check_conditions(cx, st, branches),
        kept(st, r.0),
        step(
            cx,
            st,
            r.0,
            true,
            (r.1 matches Ok(found) ==> exprs_ok(room(cx, r.0), found.conds) && refinements_ok(room(cx, r.0), found.refinements)),
        ),
    decreases h_branches(branches), 0int, Chain::<u32>::Nil,
{
    match branches {
        Chain::Nil => (st, Ok(Conditions { conds: Chain::Nil, refinements: Chain::Nil, entry: None })),
        Chain::Cons(head, tail) => {
            let (st, out) = check_expr(cx, st, &head.cond, &Ty::Bool);
            let cond = match out {
                Ok(found) => found,
                Err(stop) => {
                    return (st, Err(stop));
                },
            };
            let entry = ctor_state(&st);
            let refinement = match refinement_of(cx, &st, &cond) {
                Ok(found) => found,
                Err(stop) => {
                    return (st, Err(stop));
                },
            };
            let (st, out) = check_conditions(cx, st, tail);
            let rest = match out {
                Ok(found) => found,
                Err(stop) => {
                    return (st, Err(stop));
                },
            };
            (st, Ok(Conditions { conds: cons(cond, rest.conds), refinements: cons(refinement, rest.refinements), entry: entry }))
        },
    }
}

/// The refinement of the first branch.
pub fn first_refinement<'a>(items: &'a Chain<Option<Refinement>>, none: &'a Option<Refinement>) -> (r: &'a Option<Refinement>)
    ensures
        r == model::branches::first_refinement(items, none),
{
    match items {
        Chain::Nil => none,
        Chain::Cons(head, _) => head,
    }
}

/// The refinements behind the first branch.
pub fn later_refinements<'a>(items: &'a Chain<Option<Refinement>>) -> (r: &'a Chain<Option<Refinement>>)
    ensures
        r == model::branches::later_refinements(items),
{
    match items {
        Chain::Nil => items,
        Chain::Cons(_, tail) => tail,
    }
}

/// Whether a branch that stopped waits for the hint of its siblings.
pub fn waits_for_hint(stop: &Stop, defer: bool) -> (r: bool)
    ensures
        r == model::branches::waits_for_hint(stop, defer),
{
    match stop {
        Stop::Fail(diag) => defer && is_inference_gap(diag),
        Stop::Ask(_) => false,
    }
}

/// The problem that a stopped branch reports.
pub fn gap_of(stop: Stop) -> (r: Option<Diag>)
    ensures
        r == model::branches::gap_of(stop),
{
    match stop {
        Stop::Fail(diag) => Some(diag),
        Stop::Ask(_) => None,
    }
}

/// Check the body behind the last condition, where there is one.
pub fn try_else(
    cx: &Ctx,
    st: Checker,
    else_body: &Option<Chain<Stmt>>,
    mode: &BlockMode,
    entry: &Option<CtorState>,
    defer: bool,
    span: Span,
) -> (r: (Checker, Result<Tried<BranchOut>, Stop>))
    ensures
        r == model::branches::try_else(cx, st, else_body, mode, entry, defer, span),
        kept(st, r.0),
        step(cx, st, r.0, true, (r.1 matches Ok(found) ==> outs_ok(room(cx, r.0), found.found))),
    decreases h_else(else_body), 2int, Chain::<u32>::Nil,
{
    proof {
        reveal_with_fuel(outs_ok, 2);
    }
    match else_body {
        None => (st, Ok(Tried { found: Chain::Nil, gap: None })),
        Some(body) => {
            let (st, result) = check_branch_body(cx, st, body, mode, &None, entry, span);
            match result {
                Ok(found) => (st, Ok(Tried { found: one(Some(found)), gap: None })),
                Err(stop) => {
                    if waits_for_hint(&stop, defer) {
                        (st, Ok(Tried { found: one(None), gap: gap_of(stop) }))
                    } else {
                        (st, Err(stop))
                    }
                },
            }
        },
    }
}

/// Check each branch body. A branch with an unresolved constructor waits
/// for the hint of its siblings where `defer` is set; the first such
/// problem is kept.
pub fn try_branches(
    cx: &Ctx,
    st: Checker,
    branches: &Chain<IfArm>,
    refinements: &Chain<Option<Refinement>>,
    else_body: &Option<Chain<Stmt>>,
    mode: &BlockMode,
    entry: &Option<CtorState>,
    defer: bool,
    span: Span,
) -> (r: (Checker, Result<Tried<BranchOut>, Stop>))
    ensures
        r == model::branches::try_branches(cx, st, branches, refinements, else_body, mode, entry, defer, span),
        kept(st, r.0),
        step(
            cx,
            st,
            r.0,
            refinements_ok(room(cx, st), *refinements),
            (r.1 matches Ok(found) ==> outs_ok(room(cx, r.0), found.found)),
        ),
    decreases h_branches(branches) + h_else(else_body), 3int, Chain::<u32>::Nil,
{
    match branches {
        Chain::Nil => try_else(cx, st, else_body, mode, entry, defer, span),
        Chain::Cons(head, tail) => {
            let (st, result) = check_branch_body(cx, st, &head.body, mode, first_refinement(refinements, &None), entry, span);
            match result {
                Ok(found) => {
                    let (st, out) = try_branches(cx, st, tail, later_refinements(refinements), else_body, mode, entry, defer, span);
                    let rest = match out {
                        Ok(found) => found,
                        Err(stop) => {
                            return (st, Err(stop));
                        },
                    };
                    (st, Ok(Tried { found: cons(Some(found), rest.found), gap: rest.gap }))
                },
                Err(stop) => {
                    if waits_for_hint(&stop, defer) {
                        let (st, out) = try_branches(cx, st, tail, later_refinements(refinements), else_body, mode, entry, defer, span);
                        let rest = match out {
                            Ok(found) => found,
                            Err(stop) => {
                                return (st, Err(stop));
                            },
                        };
                        (st, Ok(Tried { found: cons(None, rest.found), gap: gap_of(stop) }))
                    } else {
                        (st, Err(stop))
                    }
                },
            }
        },
    }
}

/// Where a body gives its value: its last statement.
pub fn last_span(body: &Chain<Stmt>, span: Span) -> (r: Span)
    ensures
        r == model::branches::last_span(body, span),
    decreases body,
{
    match body {
        Chain::Nil => span,
        Chain::Cons(head, tail) => last_span(tail, head.span),
    }
}

/// The places of the branch bodies, in order.
pub fn branch_spans(branches: &Chain<IfArm>, else_body: &Option<Chain<Stmt>>, span: Span) -> (r: Chain<Span>)
    ensures
        r == model::branches::branch_spans(branches, else_body, span),
    decreases branches,
{
    match branches {
        Chain::Nil => {
            match else_body {
                Some(body) => one(last_span(body, span)),
                None => Chain::Nil,
            }
        },
        Chain::Cons(head, tail) => cons(last_span(&head.body, span), branch_spans(tail, else_body, span)),
    }
}

/// The types of the branches that resolved.
pub fn resolved_types(found: &Chain<Option<BranchOut>>, spans: &Chain<Span>) -> (r: Chain<BranchType>)
    ensures
        r == model::branches::resolved_types(found, spans),
    decreases found,
{
    match (found, spans) {
        (Chain::Cons(head, tail), Chain::Cons(span, rest)) => {
            let more = resolved_types(tail, rest);
            match &**head {
                Some(branch) => cons(BranchType { ty: branch.block.ty.clone(), mutable: branch.block.mutable, span: **span }, more),
                None => more,
            }
        },
        _ => Chain::Nil,
    }
}

/// Collect the branch results in order.
pub fn gather_branches(found: Chain<Option<BranchOut>>) -> (r: Gathered)
    ensures
        r == model::branches::gather_branches(found),
    decreases found,
{
    match found {
        Chain::Nil => Gathered { states: Chain::Nil, bodies: Chain::Nil, patterns: Chain::Nil },
        Chain::Cons(head, tail) => {
            let rest = gather_branches(*tail);
            match *head {
                None => rest,
                Some(branch) => {
                    let diverged = body_diverges(&branch.block.body);
                    Gathered { states: add_state(branch.state, diverged, rest.states), bodies: cons(branch.block.body, rest.bodies), patterns: rest.patterns }
                },
            }
        },
    }
}

/// One more branch state, inside an initializer.
pub fn add_state(state: Option<CtorState>, diverged: bool, states: Chain<BranchState>) -> (r: Chain<BranchState>)
    ensures
        r == model::branches::add_state(state, diverged, states),
{
    match state {
        Some(found) => cons(BranchState { state: found, diverged: diverged }, states),
        None => states,
    }
}

/// Pair conditions with bodies; the bodies behind the last condition
/// come second.
pub fn pair_branches(conds: Chain<HExpr>, bodies: Chain<Chain<HStmt>>) -> (r: (Chain<HIfArm>, Chain<Chain<HStmt>>))
    ensures
        r == model::branches::pair_branches(conds, bodies),
    decreases conds,
{
    match (conds, bodies) {
        (Chain::Cons(cond, conds_rest), Chain::Cons(body, bodies_rest)) => {
            let (arms, rest) = pair_branches(*conds_rest, *bodies_rest);
            (cons(HIfArm { cond: *cond, body: *body }, arms), rest)
        },
        (_, rest) => (Chain::Nil, rest),
    }
}

/// The only body of a list.
pub fn first_body(bodies: Chain<Chain<HStmt>>) -> (r: Option<Chain<HStmt>>)
    ensures
        r == model::branches::first_body(bodies),
{
    match bodies {
        Chain::Nil => None,
        Chain::Cons(head, _) => Some(*head),
    }
}

/// The mode of the branches of a conditional. One without `else` gives
/// the unit value, so each branch of it must.
pub fn branch_mode(mode: &BlockMode, has_else: bool) -> (r: BlockMode)
    ensures
        r == model::branches::branch_mode(mode, has_else),
{
    match mode {
        BlockMode::Synth => {
            if has_else {
                BlockMode::Synth
            } else {
                BlockMode::Value(Ty::Unit)
            }
        },
        _ => (*mode).clone(),
    }
}

/// Whether a mode synthesizes.
pub fn is_synth(mode: &BlockMode) -> (r: bool)
    ensures
        r == model::branches::is_synth(mode),
{
    match mode {
        BlockMode::Synth => true,
        _ => false,
    }
}

/// The states of a fork: one without `else` can skip every branch.
pub fn fork_states(states: Chain<BranchState>, entry: &Option<CtorState>, has_else: bool) -> (r: Chain<BranchState>)
    ensures
        r == model::branches::fork_states(states, entry, has_else),
{
    match entry {
        Some(state) => {
            if has_else {
                states
            } else {
                append(states, BranchState { state: (*state).clone(), diverged: false })
            }
        },
        None => states,
    }
}

/// The type and the capability of a conditional or a case.
pub fn fork_type(
    cx: &Ctx,
    mode: &BlockMode,
    complete: bool,
    hint: Option<Ty>,
    types: &Chain<BranchType>,
) -> (r: Result<LocalVar, Stop>)
    ensures
        r == model::branches::fork_type(cx, mode, complete, hint, types),
{
    match mode {
        BlockMode::Discard => Ok(LocalVar { ty: Ty::Unit, mutable: true }),
        BlockMode::Value(ty) => Ok(LocalVar { ty: (*ty).clone(), mutable: all_mutable(types) }),
        BlockMode::Synth => {
            if !complete {
                Ok(LocalVar { ty: Ty::Unit, mutable: true })
            } else {
                let ty = match join_or_hint(cx, hint, types) {
                    Ok(found) => found,
                    Err(stop) => {
                        return Err(stop);
                    },
                };
                Ok(LocalVar { ty: ty, mutable: all_mutable(types) })
            }
        },
    }
}

/// Require a conditional without `else` to stand where the unit value
/// fits.
pub fn check_else_needed(mode: &BlockMode, has_else: bool, span: Span) -> (r: Result<(), Stop>)
    ensures
        r == model::branches::check_else_needed(mode, has_else, span),
{
    match mode {
        BlockMode::Value(ty) => {
            if has_else || same_ty(&*ty, &Ty::Unit) {
                Ok(())
            } else {
                Err(mismatch(ty, &Ty::Unit, span))
            }
        },
        _ => Ok(()),
    }
}

/// Check the branches of a conditional. With a branch that waits, every
/// branch checks against the hint of its siblings, so nested constructor
/// arguments adopt one instantiation.
pub fn settle_branches(
    cx: &Ctx,
    st: Checker,
    branches: &Chain<IfArm>,
    refinements: &Chain<Option<Refinement>>,
    else_body: &Option<Chain<Stmt>>,
    mode: &BlockMode,
    entry: &Option<CtorState>,
    span: Span,
) -> (r: (Checker, Result<Settled<BranchOut>, Stop>))
    ensures
        r == model::branches::settle_branches(cx, st, branches, refinements, else_body, mode, entry, span),
        kept(st, r.0),
        step(
            cx,
            st,
            r.0,
            refinements_ok(room(cx, st), *refinements),
            (r.1 matches Ok(found) ==> outs_ok(room(cx, r.0), found.found)),
        ),
    decreases h_branches(branches) + h_else(else_body), 4int, Chain::<u32>::Nil,
{
    let (st, out) = try_branches(cx, st, branches, refinements, else_body, mode, entry, is_synth(mode), span);
    let tried = match out {
        Ok(found) => found,
        Err(stop) => {
            return (st, Err(stop));
        },
    };
    match tried.gap {
        None => (st, Ok(Settled { found: tried.found, hint: None })),
        Some(gap) => {
            let hint = match branch_hint(cx, &resolved_types(&tried.found, &branch_spans(branches, else_body, span))) {
                Ok(found) => found,
                Err(stop) => {
                    return (st, Err(stop));
                },
            };
            match hint {
                None => (st, Err(Stop::Fail(gap))),
                Some(ty) => {
                    let (st, out) = try_branches(cx, st, branches, refinements, else_body, &BlockMode::Value(ty.clone()), entry, false, span);
                    let again = match out {
                        Ok(found) => found,
                        Err(stop) => {
                            return (st, Err(stop));
                        },
                    };
                    (st, Ok(Settled { found: again.found, hint: Some(ty) }))
                },
            }
        },
    }
}

/// Check an `if` expression in the supplied block mode.
#[verifier::rlimit(30)]
pub fn check_if(
    cx: &Ctx,
    st: Checker,
    branches: &Chain<IfArm>,
    else_body: &Option<Chain<Stmt>>,
    mode: &BlockMode,
    span: Span,
) -> (r: (Checker, Result<HExpr, Stop>))
    ensures
        r == model::branches::check_if(cx, st, branches, else_body, mode, span),
        kept(st, r.0),
        step(cx, st, r.0, true, (r.1 matches Ok(found) ==> expr_ok(room(cx, r.0), found))),
        fits_mode(cx, *mode, r.1),
    decreases h_branches(branches) + h_else(else_body), 5int, Chain::<u32>::Nil,
{
    let has_else = else_body.is_some();
    let _needed = match check_else_needed(mode, has_else, span) {
        Ok(found) => found,
        Err(stop) => {
            return (st, Err(stop));
        },
    };
    let inner = branch_mode(mode, has_else);
    let (st, out) = check_conditions(cx, st, branches);
    let conditions = match out {
        Ok(found) => found,
        Err(stop) => {
            return (st, Err(stop));
        },
    };
    let (st, out) = settle_branches(cx, st, branches, &conditions.refinements, else_body, &inner, &conditions.entry, span);
    let settled = match out {
        Ok(found) => found,
        Err(stop) => {
            return (st, Err(stop));
        },
    };
    let types = resolved_types(&settled.found, &branch_spans(branches, else_body, span));
    let gathered = gather_branches(settled.found);
    let states = fork_states(gathered.states, &conditions.entry, has_else);
    let (st, out) = merge_ctor_states(st, conditions.entry, &states, span);
    let _merged = match out {
        Ok(found) => found,
        Err(stop) => {
            return (st, Err(stop));
        },
    };
    let found = match fork_type(cx, mode, has_else, settled.hint, &types) {
        Ok(found) => found,
        Err(stop) => {
            return (st, Err(stop));
        },
    };
    let (arms, rest) = pair_branches(conditions.conds, gathered.bodies);
    (st, Ok(hexpr(found.ty, found.mutable, HKind::If { branches: arms, else_body: first_body(rest) })))
}

/// A checker that has bound no name of a pattern yet.
pub fn without_binds(st: Checker) -> (r: Checker)
    ensures
        r == model::branches::without_binds(st),
        kept(st, r),
        forall|cx: &Ctx| #![trigger ready(cx, st)] #![trigger room(cx, st)] step(cx, st, r, true, true),
{
    proof {
        reveal(ready);
        reveal(room);
        reveal(widens);
    }
    Checker { binds: Chain::Nil, ..st }
}

/// Check one case arm: the pattern and the body share a fresh scope,
/// from the initialization state of the fork.
pub fn check_case_arm(
    cx: &Ctx,
    st: Checker,
    arm: &CaseArm,
    ty: &Ty,
    mutable: bool,
    mode: &BlockMode,
    entry: &Option<CtorState>,
) -> (r: (Checker, Result<ArmOut, Stop>))
    ensures
        r == model::branches::check_case_arm(cx, st, arm, ty, mutable, mode, entry),
        kept(st, r.0),
        step(cx, st, r.0, true, (r.1 matches Ok(found) ==> arm_out_ok(room(cx, r.0), found))),
    decreases h_arm(arm), 1int, Chain::<u32>::Nil,
{
    let st = push_scope(with_ctor_state(st, entry), Chain::Nil);
    let st = without_binds(st);
    let (st, pattern) = check_pattern(cx, st, &arm.pattern, ty, mutable);
    match pattern {
        Err(stop) => (pop_scope(st), Err(stop)),
        Ok(pat) => {
            let (st, result) = check_block(cx, st, &arm.body, mode, arm.span);
            let st = pop_scope(st);
            let block = match result {
                Ok(found) => found,
                Err(stop) => {
                    return (st, Err(stop));
                },
            };
            let state = ctor_state(&st);
            (st, Ok(ArmOut { pattern: pat, block: block, state: state }))
        },
    }
}

/// Check each case arm, as the branches of a conditional are.
pub fn try_arms(
    cx: &Ctx,
    st: Checker,
    arms: &Chain<CaseArm>,
    ty: &Ty,
    mutable: bool,
    mode: &BlockMode,
    entry: &Option<CtorState>,
    defer: bool,
) -> (r: (Checker, Result<Tried<ArmOut>, Stop>))
    ensures
        r == model::branches::try_arms(cx, st, arms, ty, mutable, mode, entry, defer),
        kept(st, r.0),
        step(cx, st, r.0, true, (r.1 matches Ok(found) ==> arm_outs_ok(room(cx, r.0), found.found))),
    decreases h_arms(arms), 2int, Chain::<u32>::Nil,
{
    match arms {
        Chain::Nil => (st, Ok(Tried { found: Chain::Nil, gap: None })),
        Chain::Cons(head, tail) => {
            let (st, result) = check_case_arm(cx, st, head, ty, mutable, mode, entry);
            match result {
                Ok(found) => {
                    let (st, out) = try_arms(cx, st, tail, ty, mutable, mode, entry, defer);
                    let rest = match out {
                        Ok(found) => found,
                        Err(stop) => {
                            return (st, Err(stop));
                        },
                    };
                    (st, Ok(Tried { found: cons(Some(found), rest.found), gap: rest.gap }))
                },
                Err(stop) => {
                    if waits_for_hint(&stop, defer) {
                        let (st, out) = try_arms(cx, st, tail, ty, mutable, mode, entry, defer);
                        let rest = match out {
                            Ok(found) => found,
                            Err(stop) => {
                                return (st, Err(stop));
                            },
                        };
                        (st, Ok(Tried { found: cons(None, rest.found), gap: gap_of(stop) }))
                    } else {
                        (st, Err(stop))
                    }
                },
            }
        },
    }
}

/// The types of the arms that resolved.
pub fn arm_types(found: &Chain<Option<ArmOut>>, arms: &Chain<CaseArm>) -> (r: Chain<BranchType>)
    ensures
        r == model::branches::arm_types(found, arms),
    decreases found,
{
    match (found, arms) {
        (Chain::Cons(head, tail), Chain::Cons(arm, rest)) => {
            let more = arm_types(tail, rest);
            match &**head {
                Some(branch) => cons(BranchType { ty: branch.block.ty.clone(), mutable: branch.block.mutable, span: arm.span }, more),
                None => more,
            }
        },
        _ => Chain::Nil,
    }
}

/// Collect the arm results in order.
pub fn gather_arms(found: Chain<Option<ArmOut>>) -> (r: Gathered)
    ensures
        r == model::branches::gather_arms(found),
    decreases found,
{
    match found {
        Chain::Nil => Gathered { states: Chain::Nil, bodies: Chain::Nil, patterns: Chain::Nil },
        Chain::Cons(head, tail) => {
            let rest = gather_arms(*tail);
            match *head {
                None => rest,
                Some(branch) => {
                    let diverged = body_diverges(&branch.block.body);
                    Gathered { states: add_state(branch.state, diverged, rest.states), bodies: cons(branch.block.body, rest.bodies), patterns: cons(branch.pattern, rest.patterns) }
                },
            }
        },
    }
}

/// The checked arms of patterns and bodies.
pub fn pair_arms(patterns: Chain<HPattern>, bodies: Chain<Chain<HStmt>>) -> (r: Chain<HArm>)
    ensures
        r == model::branches::pair_arms(patterns, bodies),
    decreases patterns,
{
    match (patterns, bodies) {
        (Chain::Cons(pattern, patterns_rest), Chain::Cons(body, bodies_rest)) => cons(HArm { pattern: *pattern, body: *body }, pair_arms(*patterns_rest, *bodies_rest)),
        _ => Chain::Nil,
    }
}

/// Check the arms of a case, with the hint of the siblings where an arm
/// waits for one.
pub fn settle_arms(
    cx: &Ctx,
    st: Checker,
    arms: &Chain<CaseArm>,
    ty: &Ty,
    mutable: bool,
    mode: &BlockMode,
    entry: &Option<CtorState>,
) -> (r: (Checker, Result<Settled<ArmOut>, Stop>))
    ensures
        r == model::branches::settle_arms(cx, st, arms, ty, mutable, mode, entry),
        kept(st, r.0),
        step(cx, st, r.0, true, (r.1 matches Ok(found) ==> arm_outs_ok(room(cx, r.0), found.found))),
    decreases h_arms(arms), 3int, Chain::<u32>::Nil,
{
    let (st, out) = try_arms(cx, st, arms, ty, mutable, mode, entry, is_synth(mode));
    let tried = match out {
        Ok(found) => found,
        Err(stop) => {
            return (st, Err(stop));
        },
    };
    match tried.gap {
        None => (st, Ok(Settled { found: tried.found, hint: None })),
        Some(gap) => {
            let hint = match branch_hint(cx, &arm_types(&tried.found, arms)) {
                Ok(found) => found,
                Err(stop) => {
                    return (st, Err(stop));
                },
            };
            match hint {
                None => (st, Err(Stop::Fail(gap))),
                Some(hint_ty) => {
                    let (st, out) = try_arms(cx, st, arms, ty, mutable, &BlockMode::Value(hint_ty.clone()), entry, false);
                    let again = match out {
                        Ok(found) => found,
                        Err(stop) => {
                            return (st, Err(stop));
                        },
                    };
                    (st, Ok(Settled { found: again.found, hint: Some(hint_ty) }))
                },
            }
        },
    }
}

/// Whether a pattern refines a descriptor.
pub fn is_reflect(pattern: &Pattern) -> (r: bool)
    ensures
        r == model::branches::is_reflect(pattern),
{
    match &pattern.kind {
        PatternKind::Reflect { kind: _, generics: _, signature: _, binding: _ } => true,
        _ => false,
    }
}

/// Whether a pattern is the wildcard.
pub fn is_wildcard(pattern: &Pattern) -> (r: bool)
    ensures
        r == model::branches::is_wildcard(pattern),
{
    match &pattern.kind {
        PatternKind::Wildcard => true,
        _ => false,
    }
}

/// Whether an arm refines a descriptor.
pub fn any_reflect(arms: &Chain<CaseArm>) -> (r: bool)
    ensures
        r == model::branches::any_reflect(arms),
    decreases arms,
{
    match arms {
        Chain::Nil => false,
        Chain::Cons(head, tail) => is_reflect(&head.pattern) || any_reflect(tail),
    }
}

/// Check one case expression.
pub fn check_case(
    cx: &Ctx,
    st: Checker,
    scrut: &Expr,
    arms: &Chain<CaseArm>,
    mode: &BlockMode,
    span: Span,
) -> (r: (Checker, Result<HExpr, Stop>))
    ensures
        r == model::branches::check_case(cx, st, scrut, arms, mode, span),
        kept(st, r.0),
        step(cx, st, r.0, true, (r.1 matches Ok(found) ==> expr_ok(room(cx, r.0), found))),
        fits_mode(cx, *mode, r.1),
    decreases h_expr(scrut) + h_arms(arms), 7int, Chain::<u32>::Nil,
{
    let (st, out) = synth_expr(cx, st, scrut);
    let value = match out {
        Ok(found) => found,
        Err(stop) => {
            return (st, Err(stop));
        },
    };
    check_case_value(cx, st, value, arms, mode, span)
}

/// Check a case expression with an existing scrutinee value. A hidden
/// slot holds the scrutinee during the arm tests.
#[verifier::rlimit(30)]
pub fn check_case_value(
    cx: &Ctx,
    st: Checker,
    scrut: HExpr,
    arms: &Chain<CaseArm>,
    mode: &BlockMode,
    span: Span,
) -> (r: (Checker, Result<HExpr, Stop>))
    ensures
        r == model::branches::check_case_value(cx, st, scrut, arms, mode, span),
        kept(st, r.0),
        step(cx, st, r.0, expr_ok(room(cx, st), scrut), (r.1 matches Ok(found) ==> expr_ok(room(cx, r.0), found))),
        fits_mode(cx, *mode, r.1),
    decreases h_arms(arms), 6int, Chain::<u32>::Nil,
{
    if any_reflect(arms) {
        return check_reflect_case_value(cx, st, scrut, arms, mode, span);
    }
    let (st, slot) = hidden_local(st, scrut.ty.clone(), scrut.mutable);
    let entry = ctor_state(&st);
    let (st, out) = settle_arms(cx, st, arms, &scrut.ty, scrut.mutable, mode, &entry);
    let settled = match out {
        Ok(found) => found,
        Err(stop) => {
            return (st, Err(stop));
        },
    };
    let types = arm_types(&settled.found, arms);
    let gathered = gather_arms(settled.found);
    let _covered = match analyze_arms(cx, &scrut.ty, arms, &gathered.patterns, span) {
        Ok(found) => found,
        Err(stop) => {
            return (st, Err(stop));
        },
    };
    let (st, out) = merge_ctor_states(st, entry, &gathered.states, span);
    let _merged = match out {
        Ok(found) => found,
        Err(stop) => {
            return (st, Err(stop));
        },
    };
    let found = match fork_type(cx, mode, true, settled.hint, &types) {
        Ok(found) => found,
        Err(stop) => {
            return (st, Err(stop));
        },
    };
    (st, Ok(hexpr(found.ty, found.mutable, HKind::Case { scrut: scrut, scrut_slot: slot, arms: pair_arms(gathered.patterns, gathered.bodies) })))
}

/// Whether every arm but the last refines a descriptor.
pub fn refines_before_last(arms: &Chain<CaseArm>) -> (r: bool)
    ensures
        r == model::branches::refines_before_last(arms),
    decreases arms,
{
    match arms {
        Chain::Nil => true,
        Chain::Cons(head, tail) => tail.is_empty() || (is_reflect(&head.pattern) && refines_before_last(tail)),
    }
}

/// The last arm of a case.
pub fn last_arm<'a>(arms: &'a Chain<CaseArm>) -> (r: Option<&'a CaseArm>)
    ensures
        r == model::branches::last_arm(arms),
    decreases arms,
{
    match arms {
        Chain::Nil => None,
        Chain::Cons(head, tail) => {
            if tail.is_empty() {
                Some(&**head)
            } else {
                last_arm(tail)
            }
        },
    }
}

/// Require the shape of a descriptor case: refinements, then one
/// wildcard.
pub fn check_reflect_shape(arms: &Chain<CaseArm>, span: Span) -> (r: Result<(), Stop>)
    ensures
        r == model::branches::check_reflect_shape(arms, span),
{
    match last_arm(arms) {
        None => Err(unnamed(Problem::ReflectNeedsWildcard, span)),
        Some(last) => {
            if !is_wildcard(&last.pattern) {
                Err(unnamed(Problem::ReflectNeedsWildcard, last.pattern.span))
            } else if count(arms) < 2 || !refines_before_last(arms) {
                Err(unnamed(Problem::ReflectArmsOnly, span))
            } else {
                Ok(())
            }
        },
    }
}

/// Check the last arm of a descriptor case.
pub fn check_fallback(
    cx: &Ctx,
    st: Checker,
    arms: &Chain<CaseArm>,
    mode: &BlockMode,
    span: Span,
) -> (r: (Checker, Result<Block, Stop>))
    ensures
        r == model::branches::check_fallback(cx, st, arms, mode, span),
        kept(st, r.0),
        step(cx, st, r.0, true, (r.1 matches Ok(found) ==> stmts_ok(room(cx, r.0), found.body))),
    decreases h_arms(arms), 0int, Chain::<u32>::Nil,
{
    match arms {
        Chain::Nil => (st, Err(unnamed(Problem::ReflectNeedsWildcard, span))),
        Chain::Cons(head, tail) => {
            if !tail.is_empty() {
                check_fallback(cx, st, tail, mode, span)
            } else {
                let st = push_scope(st, Chain::Nil);
                let (st, result) = check_block(cx, st, &head.body, mode, head.span);
                (pop_scope(st), result)
            }
        },
    }
}

/// The result type of a descriptor case: the wildcard arm gives it where
/// none is expected.
pub fn reflect_type(mode: &BlockMode, fallback: &Ty, span: Span) -> (r: Result<Ty, Stop>)
    ensures
        r == model::branches::reflect_type(mode, fallback, span),
{
    match mode {
        BlockMode::Discard => Ok(Ty::Unit),
        BlockMode::Value(ty) => Ok((*ty).clone()),
        BlockMode::Synth => {
            if same_ty(&*fallback, &Ty::Never) {
                Err(unnamed(Problem::ReflectNeedsType, span))
            } else {
                Ok((*fallback).clone())
            }
        },
    }
}

/// The mode of the refinement arms.
pub fn reflect_mode(mode: &BlockMode, ty: &Ty) -> (r: BlockMode)
    ensures
        r == model::branches::reflect_mode(mode, ty),
{
    match mode {
        BlockMode::Discard => BlockMode::Discard,
        _ => BlockMode::Value((*ty).clone()),
    }
}

/// Check each reflection arm before the last.
pub fn check_reflect_arms(
    cx: &Ctx,
    st: Checker,
    descriptor: &Ty,
    arms: &Chain<CaseArm>,
    mode: &BlockMode,
) -> (r: (Checker, Result<Refined, Stop>))
    ensures
        r == model::branches::check_reflect_arms(cx, st, descriptor, arms, mode),
        kept(st, r.0),
        step(cx, st, r.0, true, (r.1 matches Ok(found) ==> refined_ok(room(cx, r.0), found.arms))),
    decreases h_arms(arms), 3int, Chain::<u32>::Nil,
{
    match arms {
        Chain::Nil => (st, Ok(Refined { arms: Chain::Nil, mutable: true })),
        Chain::Cons(head, tail) => {
            match &head.pattern.kind {
                PatternKind::Reflect { kind, generics, signature, binding } => {
                    let (st, out) = check_reflect_arm(cx, st, descriptor, kind, generics, signature, binding, &head.body, mode, head.span);
                    let first = match out {
                        Ok(found) => found,
                        Err(stop) => {
                            return (st, Err(stop));
                        },
                    };
                    let (st, out) = check_reflect_arms(cx, st, descriptor, tail, mode);
                    let rest = match out {
                        Ok(found) => found,
                        Err(stop) => {
                            return (st, Err(stop));
                        },
                    };
                    (st, Ok(Refined { arms: cons(first.arm, rest.arms), mutable: first.mutable && rest.mutable }))
                },
                _ => (st, Ok(Refined { arms: Chain::Nil, mutable: true })),
            }
        },
    }
}

/// Where the last arm stands.
pub fn fallback_span(arms: &Chain<CaseArm>, span: Span) -> (r: Span)
    ensures
        r == model::branches::fallback_span(arms, span),
{
    match last_arm(arms) {
        Some(arm) => arm.span,
        None => span,
    }
}

/// The value of a checked reflection case. A hidden slot holds the
/// descriptor.
pub fn reflect_value(st: Checker, scrut: HExpr, ty: Ty, refined: Refined, fallback: Block) -> (r: (Checker, HExpr))
    ensures
        r == model::branches::reflect_value(st, scrut, ty, refined, fallback),
        kept(st, r.0),
        forall|cx: &Ctx|
            #![trigger ready(cx, st)]
            #![trigger room(cx, st)]
            step(
                cx,
                st,
                r.0,
                expr_ok(room(cx, st), scrut) && refined_ok(room(cx, st), refined.arms) && stmts_ok(room(cx, st), fallback.body),
                expr_ok(room(cx, r.0), r.1),
            ),
{
    let (st, slot) = hidden_local(st, scrut.ty.clone(), scrut.mutable);
    let mutable = fallback.mutable && refined.mutable;
    (st, hexpr(ty, mutable, HKind::ReflectCase { scrut: scrut, scrut_slot: slot, refined: refined.arms, fallback: fallback.body }))
}

/// Check one descriptor case with scoped generic parameters.
pub fn check_reflect_case_value(
    cx: &Ctx,
    st: Checker,
    scrut: HExpr,
    arms: &Chain<CaseArm>,
    mode: &BlockMode,
    span: Span,
) -> (r: (Checker, Result<HExpr, Stop>))
    ensures
        r == model::branches::check_reflect_case_value(cx, st, scrut, arms, mode, span),
        kept(st, r.0),
        step(cx, st, r.0, expr_ok(room(cx, st), scrut), (r.1 matches Ok(found) ==> expr_ok(room(cx, r.0), found))),
        fits_mode(cx, *mode, r.1),
    decreases h_arms(arms), 5int, Chain::<u32>::Nil,
{
    if st.ctor.is_some() {
        return (st, Err(unnamed(Problem::ReflectDuringInit, span)));
    }
    let _shape = match check_reflect_shape(arms, span) {
        Ok(found) => found,
        Err(stop) => {
            return (st, Err(stop));
        },
    };
    let (st, out) = check_fallback(cx, st, arms, mode, span);
    let fallback = match out {
        Ok(found) => found,
        Err(stop) => {
            return (st, Err(stop));
        },
    };
    let ty = match reflect_type(mode, &fallback.ty, fallback_span(arms, span)) {
        Ok(found) => found,
        Err(stop) => {
            return (st, Err(stop));
        },
    };
    let (st, out) = check_reflect_arms(cx, st, &scrut.ty, arms, &reflect_mode(mode, &ty));
    let refined = match out {
        Ok(found) => found,
        Err(stop) => {
            return (st, Err(stop));
        },
    };
    let (st, value) = reflect_value(st, scrut, ty, refined, fallback);
    (st, Ok(value))
}

/// The number of effect parameters.
pub fn effect_params(generics: &Chain<GenericParam>) -> (r: u32)
    ensures
        r == model::branches::effect_params(generics),
    decreases generics,
{
    match generics {
        Chain::Nil => 0u32,
        Chain::Cons(head, tail) => {
            if head.is_effect {
                effect_params(tail).wrapping_add(1)
            } else {
                effect_params(tail)
            }
        },
    }
}

/// A scope with fresh generic parameters.
pub fn extend_scope(env: TyEnv, generics: &Chain<GenericParam>) -> (r: Result<TyEnv, Stop>)
    ensures
        r == model::branches::extend_scope(env, generics),
    decreases generics,
{
    match generics {
        Chain::Nil => Ok(env),
        Chain::Cons(head, tail) => {
            let taken = if head.is_effect { holds_name(&env.effect_names, &head.name) } else { holds_name(&env.type_names, &head.name) };
            if taken {
                Err(named(Problem::DuplicateGeneric, &head.name, head.span))
            } else if head.is_effect {
                extend_scope(TyEnv { effect_names: append(env.effect_names, copy_chain(&head.name)), ..env }, tail)
            } else {
                extend_scope(TyEnv { type_names: append(env.type_names, copy_chain(&head.name)), type_bounds: append(env.type_bounds, Chain::Nil), ..env }, tail)
            }
        },
    }
}

/// The scope of a refinement arm.
pub fn reflect_scope(cx: &Ctx, env: &TyEnv, generics: &Chain<GenericParam>, span: Span) -> (r: Result<TyEnv, Stop>)
    ensures
        r == model::branches::reflect_scope(cx, env, generics, span),
{
    let first = count(&env.type_bounds);
    if effect_params(generics) > 1 {
        return Err(unnamed(Problem::ReflectEffects, span));
    }
    let inner = match extend_scope((*env).clone(), generics) {
        Ok(found) => found,
        Err(stop) => {
            return Err(stop);
        },
    };
    match generic_bounds_from(cx, &inner, Decl { keys: Chain::Nil, next_func: 0, values: Chain::Nil }, generics, first) {
        (_, Err(stop)) => Err(stop),
        (_, Ok(bounds)) => Ok(TyEnv { type_bounds: concat(truncate(inner.type_bounds, first), bounds), ..inner }),
    }
}

/// What one refinement word matches.
pub fn reflect_kind(name: &Text) -> (r: Option<ReflectKind>)
    ensures
        r == model::branches::reflect_kind(name),
{
    if is_text(&*name, "Class") {
        return Some(ReflectKind::Class);
    }
    if is_text(&*name, "Def") {
        return Some(ReflectKind::Function);
    }
    if is_text(&*name, "Method") {
        return Some(ReflectKind::Method);
    }
    if is_text(&*name, "Const") {
        return Some(ReflectKind::Constant);
    }
    if is_text(&*name, "Code") {
        Some(ReflectKind::Code)
    } else {
        None
    }
}

/// Whether a type is a function type.
pub fn is_function(ty: &Ty) -> (r: bool)
    ensures
        r == model::branches::is_function(ty),
{
    match ty {
        Ty::Fn(_, _, _, _) => true,
        _ => false,
    }
}

/// What a refinement matches and what it binds. A class refinement may
/// leave its callable signature out.
pub fn reflected(
    cx: &Ctx,
    env: &TyEnv,
    kind: ReflectKind,
    generics: &Chain<GenericParam>,
    signature: &Option<TypeExpr>,
    first_type: u32,
    span: Span,
) -> (r: Result<Reflected, Stop>)
    ensures
        r == model::branches::reflected(cx, env, kind, generics, signature, first_type, span),
{
    match signature {
        Some(written) => {
            let ty = match resolve_now(cx, env, written) {
                Ok(found) => found,
                Err(stop) => {
                    return Err(stop);
                },
            };
            if kind != ReflectKind::Constant && !is_function(&ty) {
                Err(unnamed(Problem::RefinementNeedsFunction, written.span))
            } else if kind == ReflectKind::Code {
                let binding = match core_inst(cx, "FunctionCode", one(ty.clone()), span) {
                    Ok(found) => found,
                    Err(stop) => {
                        return Err(stop);
                    },
                };
                Ok(Reflected { kind: kind, match_ty: ty, binding_ty: binding })
            } else {
                Ok(Reflected { kind: kind, match_ty: ty.clone(), binding_ty: ty })
            }
        },
        None => {
            if kind != ReflectKind::Class {
                Err(unnamed(Problem::ReflectNeedsSignature, span))
            } else if count(generics) != 1 || effect_params(generics) != 0 {
                Err(unnamed(Problem::ReflectNeedsParameter, span))
            } else {
                let binding = match core_class(cx, "DeclarationCode", span) {
                    Ok(found) => found,
                    Err(stop) => {
                        return Err(stop);
                    },
                };
                Ok(Reflected { kind: ReflectKind::ClassDescriptor, match_ty: Ty::Var(first_type), binding_ty: binding })
            }
        },
    }
}

/// The name that a refinement binds: one name, or none for the wildcard.
pub fn reflect_binding(binding: &Pattern) -> (r: Result<Option<Text>, Stop>)
    ensures
        r == model::branches::reflect_binding(binding),
{
    match &binding.kind {
        PatternKind::Wildcard => Ok(None),
        PatternKind::Name(name) => {
            if is_text(&*name, "_") {
                Err(unnamed(Problem::ReflectBinding, binding.span))
            } else {
                Ok(Some(copy_chain(&*name)))
            }
        },
        _ => Err(unnamed(Problem::ReflectBinding, binding.span)),
    }
}

/// The function that stands for the pattern of a refinement.
pub fn pattern_func(env: &TyEnv, match_ty: &Ty, index: u32) -> (r: HirFunc)
    ensures
        r == model::branches::pattern_func(env, match_ty, index),
{
    HirFunc {
        imported: false,
        core: env.core_scope,
        source_span: None,
        name: generated_name("<reflection pattern ", index),
        type_params: count(&env.type_bounds),
        type_bounds: clone_interface_use_lists(&env.type_bounds),
        effect_params: count(&env.effect_names),
        params: one((*match_ty).clone()),
        param_muts: one(false),
        param_names: one(text("value")),
        ret: Ty::Unit,
        row: Chain::Nil,
        captures: Chain::Nil,
        locals: one((*match_ty).clone()),
        body: Chain::Nil,
    }
}

/// Bind the name of a refinement to a fresh local, in a new scope.
pub fn bind_reflected(st: Checker, name: &Option<Text>, ty: Ty) -> (r: (Checker, Option<u32>))
    ensures
        r == model::branches::bind_reflected(st, name, ty),
        forall|cx: &Ctx|
            #![trigger ready(cx, st)]
            #![trigger room(cx, st)]
            step(
                cx,
                st,
                r.0,
                true,
                slot_ok(room(cx, r.0), r.1),
            ),
{
    proof {
        reveal_with_fuel(scope_ok, 2);
    }
    match name {
        None => (push_scope(st, Chain::Nil), None),
        Some(found) => {
            let (st, slot) = hidden_local(st, ty, false);
            (push_scope(st, one(ScopeEntry { name: copy_chain(&*found), slot: slot })), Some(slot))
        },
    }
}

/// A checker that resolves types in another scope.
pub fn in_env(st: Checker, env: TyEnv) -> (r: Checker)
    ensures
        r == model::branches::in_env(st, env),
        forall|cx: &Ctx| #![trigger ready(cx, st)] #![trigger room(cx, st)] step(cx, st, r, true, true),
{
    proof {
        reveal(ready);
        reveal(room);
        reveal(widens);
    }
    Checker { env: env, ..st }
}

/// Check one reflection arm in the enclosing function.
pub fn check_reflect_arm(
    cx: &Ctx,
    st: Checker,
    descriptor: &Ty,
    kind_name: &Text,
    generics: &Chain<GenericParam>,
    signature: &Option<TypeExpr>,
    binding: &Pattern,
    body: &Chain<Stmt>,
    mode: &BlockMode,
    span: Span,
) -> (r: (Checker, Result<ReflectOut, Stop>))
    ensures
        r == model::branches::check_reflect_arm(cx, st, descriptor, kind_name, generics, signature, binding, body, mode, span),
        kept(st, r.0),
        step(cx, st, r.0, true, (r.1 matches Ok(found) ==> reflect_ok(room(cx, r.0), found.arm))),
    decreases h_stmts(body), 1int, Chain::<u32>::Nil,
{
    let kind = match reflect_kind(kind_name) {
        Some(found) => found,
        None => {
            return (st, Err(named(Problem::UnknownReflection, kind_name, span)));
        },
    };
    let required = match core_class(cx, "OpenCode", span) {
        Ok(found) => found,
        Err(stop) => {
            return (st, Err(stop));
        },
    };
    if !same_ty(&*descriptor, &required) {
        return (st, Err(mismatch(&required, descriptor, span)));
    }
    let first_type = count(&st.env.type_bounds);
    let first_effect = count(&st.env.effect_names);
    let inner = match reflect_scope(cx, &st.env, generics, span) {
        Ok(found) => found,
        Err(stop) => {
            return (st, Err(stop));
        },
    };
    let found = match reflected(cx, &inner, kind, generics, signature, first_type, span) {
        Ok(found) => found,
        Err(stop) => {
            return (st, Err(stop));
        },
    };
    let name = match reflect_binding(binding) {
        Ok(found) => found,
        Err(stop) => {
            return (st, Err(stop));
        },
    };
    let func = pattern_func(&inner, &found.match_ty, st.out.next_func);
    let (st, pattern) = push_func(st, func);
    let (st, slot) = bind_reflected(st, &name, found.binding_ty);
    let outer = st.env.clone();
    let st = in_env(st, inner);
    let (st, result) = check_block(cx, st, body, mode, span);
    let st = pop_scope(in_env(st, outer));
    let block = match result {
        Ok(found) => found,
        Err(stop) => {
            return (st, Err(stop));
        },
    };
    let arm = HReflectArm { kind: found.kind, pattern: pattern, type_base: first_type, effect_base: first_effect, binding: slot, body: block.body };
    (st, Ok(ReflectOut { arm: arm, mutable: block.mutable }))
}

/// Lower `select` to one wait and one case expression.
pub fn check_select(
    cx: &Ctx,
    st: Checker,
    arms: &Chain<SelectArm>,
    mode: &BlockMode,
    span: Span,
) -> (r: (Checker, Result<HExpr, Stop>))
    ensures
        r == model::branches::check_select(cx, st, arms, mode, span),
        kept(st, r.0),
        step(cx, st, r.0, true, (r.1 matches Ok(found) ==> expr_ok(room(cx, r.0), found))),
        fits_mode(cx, *mode, r.1),
    decreases 2 + h_waits(arms) + h_bodies(arms), 8int, Chain::<u32>::Nil,
{
    match arms {
        Chain::Nil => (st, Err(unnamed(Problem::SelectNeedsArms, span))),
        Chain::Cons(first, rest) => {
            let total = count(arms);
            proof {
                lemma_select(first, rest, arms, total, span);
            }
            let waited = select_wait(first, rest, span);
            let cases = select_arms(arms, 0u32, total);
            check_case(cx, st, &waited, &cases, mode, span)
        },
    }
}

/// The two arguments of a `Result` type.
pub fn result_arguments(ty: &Ty, result_class: u32) -> (r: Option<(Ty, Ty)>)
    ensures
        r == model::branches::result_arguments(ty, result_class),
{
    match ty {
        Ty::Inst(class, Chain::Cons(ok, rest)) => {
            match &**rest {
                Chain::Cons(error, more) => {
                    if *class == result_class && more.is_empty() {
                        Some(((**ok).clone(), (**error).clone()))
                    } else {
                        None
                    }
                },
                Chain::Nil => None,
            }
        },
        _ => None,
    }
}

/// The result type around a propagation: a declared `Result` with the
/// same error type.
pub fn check_enclosing_result(ret: &RetKind, result_class: u32, error: &Ty, span: Span) -> (r: Result<(), Stop>)
    ensures
        r == model::branches::check_enclosing_result(ret, result_class, error, span),
{
    match ret {
        RetKind::Entry => Err(unnamed(Problem::PropagateAtTopLevel, span)),
        RetKind::ClosureInfer => Err(unnamed(Problem::PropagateNeedsDeclared, span)),
        RetKind::Known(ty) => {
            match result_arguments(ty, result_class) {
                None => Err(unnamed(Problem::PropagateNeedsEnclosing { found: (*ty).clone() }, span)),
                Some((_, wanted)) => {
                    if same_ty(&wanted, &*error) {
                        Ok(())
                    } else {
                        Err(unnamed(Problem::PropagateErrorDiffers { found: (*error).clone(), expected: wanted }, span))
                    }
                },
            }
        },
    }
}

/// Check postfix propagation of a `Result`.
pub fn check_propagate(cx: &Ctx, st: Checker, value: &Expr, span: Span) -> (r: (Checker, Result<HExpr, Stop>))
    ensures
        r == model::branches::check_propagate(cx, st, value, span),
        kept(st, r.0),
        step(cx, st, r.0, true, (r.1 matches Ok(found) ==> expr_ok(room(cx, r.0), found))),
    decreases h_expr(value) + 32, 8int, Chain::<u32>::Nil,
{
    let (st, out) = synth_expr(cx, st, value);
    let found = match out {
        Ok(found) => found,
        Err(stop) => {
            return (st, Err(stop));
        },
    };
    let result_class = match core_id(cx, "Result", span) {
        Ok(found) => found,
        Err(stop) => {
            return (st, Err(stop));
        },
    };
    match result_arguments(&found.ty, result_class) {
        None => (st, Err(unnamed(Problem::PropagateNeedsResult { found: found.ty }, span))),
        Some((ok, error)) => {
            let _enclosing = match check_enclosing_result(&st.ret, result_class, &error, span) {
                Ok(found) => found,
                Err(stop) => {
                    return (st, Err(stop));
                },
            };
            proof {
                lemma_propagate_arms(span);
            }
            let arms = propagate_arms(span);
            check_case_value(cx, st, found, &arms, &BlockMode::Value(ok), span)
        },
    }
}

} // verus!
