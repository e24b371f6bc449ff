//! Flow refinement, branches, and case analysis.
//!
//! The functions here state what the functions of the same name compute.

use vstd::prelude::*;
use crate::ast::{CaseArm, Expr, GenericParam, IfArm, Pattern, PatternKind, SelectArm, Span, Stmt, TypeExpr};
use crate::chain::{Chain, chain_of};
use crate::context::{Ctx, Decl, TyEnv};
use crate::hir::{HArm, HExpr, HIfArm, HKind, HPattern, HReflectArm, HStmt, HirFunc, ReflectKind};
use crate::model::answers::compatible;
use crate::model::blocks::check_block;
use crate::model::calls::resolve_now;
use crate::model::desugar::{propagate_arms, select_arms, select_wait};
use crate::model::endings::body_diverges;
use crate::model::exprs::{check_expr, synth_expr};
use crate::model::infer::{all_mutable, branch_hint, is_inference_gap, join_or_hint};
use crate::model::lists::{append, concat, cons, count, holds_name, one, truncate};
use crate::model::lookup::{core_class, core_id, core_inst};
use crate::model::patterns::{analyze_arms, check_pattern};
use crate::model::resolve::{generic_bounds_from, named, unnamed};
use crate::model::scope::{bind_name, ctor_state, generated_name, hexpr, hidden_local, local_expr, local_ty, merge_ctor_states, mismatch, name_of_slot, pop_scope, push_func, push_scope, with_ctor_state};
use crate::problem::{Diag, Problem, Stop};
use crate::state::{ArmOut, Block, BlockMode, BranchOut, BranchState, BranchType, Checker, Conditions, CtorState, Gathered, LocalVar, Refined, Refinement, ReflectOut, Reflected, RetKind, ScopeEntry, Settled, Tried};
use crate::text::Text;
use crate::types::Ty;
use crate::model::heights::{h_arm, h_arms, h_bodies, h_branches, h_else, h_expr, h_stmts, h_waits, lemma_propagate_arms, lemma_select};

verus! {

/// What a checked condition narrows: `local is Type` where the target is
/// narrower than the type of a named local.
pub open spec fn refinement_of(cx: &Ctx, st: &Checker, cond: &HExpr) -> Result<Option<Refinement>, Stop>
{
    match &*cond.kind {
        HKind::IsType { value, ty } => {
            match &*value.kind {
                HKind::Local(slot) => {
                    let current = local_ty(st, *slot);
                    if (*ty == current) {
                        Ok(None)
                    } else {
                        match compatible(cx, &current, ty) {
                            Err(stop) => Err(stop),
                            Ok(narrows) => {
                                match (narrows, name_of_slot(st, *slot)) {
                                    (true, Some(name)) => Ok(Some(Refinement { slot: *slot, name: name, ty: *ty })),
                                    _ => Ok(None),
                                }
                            },
                        }
                    }
                },
                _ => Ok(None),
            }
        },
        _ => Ok(None),
    }
}

/// Bind a refined shadow local in the branch scope just opened. The
/// shadow holds the same value behind a checked cast.
pub open spec fn bind_refinement(st: Checker, refinement: &Refinement) -> (Checker, HStmt)
{
    let source = local_expr(&st, refinement.slot);
    let mutable = source.mutable;
    let (st, shadow) = hidden_local(st, refinement.ty, mutable);
    let st = bind_name(st, &refinement.name, shadow);
    let value = hexpr(refinement.ty, mutable, HKind::CastType { value: source, ty: refinement.ty });
    (st, HStmt::Assign { slot: shadow, value: value })
}

/// Bind what a condition narrows, where it narrows something.
pub open spec fn bind_narrowed(st: Checker, refinement: &Option<Refinement>) -> (Checker, Option<HStmt>)
{
    match refinement {
        None => (st, None),
        Some(found) => {
            let (st, init) = bind_refinement(st, found);
            (st, Some(init))
        },
    }
}

/// A body behind a first statement.
pub open spec fn with_first(first: Option<HStmt>, body: Chain<HStmt>) -> Chain<HStmt>
{
    match first {
        Some(stmt) => cons(stmt, body),
        None => body,
    }
}

/// Check one branch body inside a fresh scope with an optional flow
/// refinement, from the initialization state of the fork.
pub open spec fn check_branch_body(
    cx: &Ctx,
    st: Checker,
    body: &Chain<Stmt>,
    mode: &BlockMode,
    refinement: &Option<Refinement>,
    entry: &Option<CtorState>,
    span: Span,
) -> (Checker, Result<BranchOut, Stop>)
    decreases h_stmts(body), 1int, Chain::<u32>::Nil,
{
    let st = push_scope(with_ctor_state(st, entry), Chain::Nil);
    let (st, init) = bind_narrowed(st, refinement);
    let (st, result) = check_block(cx, st, body, mode, span);
    let st = pop_scope(st);
    match result {
        Err(stop) => (st, Err(stop)),
        Ok(block) => {
            let state = ctor_state(&st);
            (st, Ok(BranchOut { block: Block { body: with_first(init, block.body), ..block }, state: state }))
        },
    }
}

/// Check the conditions of a conditional. A later condition runs only
/// when the earlier bodies were skipped, so all of them come first.
pub open spec fn check_conditions(cx: &Ctx, st: Checker, branches: &Chain<IfArm>) -> (Checker, Result<Conditions, Stop>)
    decreases h_branches(branches), 0int, Chain::<u32>::Nil,
{
    match branches {
        Chain::Nil => (st, Ok(Conditions { conds: Chain::Nil, refinements: Chain::Nil, entry: None })),
        Chain::Cons(head, tail) => {
            match check_expr(cx, st, &head.cond, &Ty::Bool) {
                (st, Err(stop)) => (st, Err(stop)),
                (st, Ok(cond)) => {
                    let entry = ctor_state(&st);
                    match refinement_of(cx, &st, &cond) {
                        Err(stop) => (st, Err(stop)),
                        Ok(refinement) => {
                            match check_conditions(cx, st, tail) {
                                (st, Err(stop)) => (st, Err(stop)),
                                (st, Ok(rest)) => {
                                    (st, Ok(Conditions { conds: cons(cond, rest.conds), refinements: cons(refinement, rest.refinements), entry: entry }))
                                },
                            }
                        },
                    }
                },
            }
        },
    }
}

/// The refinement of the first branch.
pub open spec fn first_refinement<'a>(items: &'a Chain<Option<Refinement>>, none: &'a Option<Refinement>) -> &'a Option<Refinement>
{
    match items {
        Chain::Nil => none,
        Chain::Cons(head, _) => head,
    }
}

/// The refinements behind the first branch.
pub open spec fn later_refinements<'a>(items: &'a Chain<Option<Refinement>>) -> &'a Chain<Option<Refinement>>
{
    match items {
        Chain::Nil => items,
        Chain::Cons(_, tail) => tail,
    }
}

/// Whether a branch that stopped waits for the hint of its siblings.
pub open spec fn waits_for_hint(stop: &Stop, defer: bool) -> bool
{
    match stop {
        Stop::Fail(diag) => defer && is_inference_gap(diag),
        Stop::Ask(_) => false,
    }
}

/// The problem that a stopped branch reports.
pub open spec fn gap_of(stop: Stop) -> Option<Diag>
{
    match stop {
        Stop::Fail(diag) => Some(diag),
        Stop::Ask(_) => None,
    }
}

/// Check the body behind the last condition, where there is one.
pub open spec fn try_else(
    cx: &Ctx,
    st: Checker,
    else_body: &Option<Chain<Stmt>>,
    mode: &BlockMode,
    entry: &Option<CtorState>,
    defer: bool,
    span: Span,
) -> (Checker, Result<Tried<BranchOut>, Stop>)
    decreases h_else(else_body), 2int, Chain::<u32>::Nil,
{
    match else_body {
        None => (st, Ok(Tried { found: Chain::Nil, gap: None })),
        Some(body) => {
            let (st, result) = check_branch_body(cx, st, body, mode, &None, entry, span);
            match result {
                Ok(found) => (st, Ok(Tried { found: one(Some(found)), gap: None })),
                Err(stop) => {
                    if waits_for_hint(&stop, defer) {
                        (st, Ok(Tried { found: one(None), gap: gap_of(stop) }))
                    } else {
                        (st, Err(stop))
                    }
                },
            }
        },
    }
}

/// Check each branch body. A branch with an unresolved constructor waits
/// for the hint of its siblings where `defer` is set; the first such
/// problem is kept.
pub open spec fn try_branches(
    cx: &Ctx,
    st: Checker,
    branches: &Chain<IfArm>,
    refinements: &Chain<Option<Refinement>>,
    else_body: &Option<Chain<Stmt>>,
    mode: &BlockMode,
    entry: &Option<CtorState>,
    defer: bool,
    span: Span,
) -> (Checker, Result<Tried<BranchOut>, Stop>)
    decreases h_branches(branches) + h_else(else_body), 3int, Chain::<u32>::Nil,
{
    match branches {
        Chain::Nil => try_else(cx, st, else_body, mode, entry, defer, span),
        Chain::Cons(head, tail) => {
            let (st, result) = check_branch_body(cx, st, &head.body, mode, first_refinement(refinements, &None), entry, span);
            match result {
                Ok(found) => {
                    match try_branches(cx, st, tail, later_refinements(refinements), else_body, mode, entry, defer, span) {
                        (st, Err(stop)) => (st, Err(stop)),
                        (st, Ok(rest)) => {
                            (st, Ok(Tried { found: cons(Some(found), rest.found), gap: rest.gap }))
                        },
                    }
                },
                Err(stop) => {
                    if waits_for_hint(&stop, defer) {
                        match try_branches(cx, st, tail, later_refinements(refinements), else_body, mode, entry, defer, span) {
                            (st, Err(stop)) => (st, Err(stop)),
                            (st, Ok(rest)) => {
                                (st, Ok(Tried { found: cons(None, rest.found), gap: gap_of(stop) }))
                            },
                        }
                    } else {
                        (st, Err(stop))
                    }
                },
            }
        },
    }
}

/// Where a body gives its value: its last statement.
pub open spec fn last_span(body: &Chain<Stmt>, span: Span) -> Span
    decreases body,
{
    match body {
        Chain::Nil => span,
        Chain::Cons(head, tail) => last_span(tail, head.span),
    }
}

/// The places of the branch bodies, in order.
pub open spec fn branch_spans(branches: &Chain<IfArm>, else_body: &Option<Chain<Stmt>>, span: Span) -> Chain<Span>
    decreases branches,
{
    match branches {
        Chain::Nil => {
            match else_body {
                Some(body) => one(last_span(body, span)),
                None => Chain::Nil,
            }
        },
        Chain::Cons(head, tail) => cons(last_span(&head.body, span), branch_spans(tail, else_body, span)),
    }
}

/// The types of the branches that resolved.
pub open spec fn resolved_types(found: &Chain<Option<BranchOut>>, spans: &Chain<Span>) -> Chain<BranchType>
    decreases found,
{
    match (found, spans) {
        (Chain::Cons(head, tail), Chain::Cons(span, rest)) => {
            let more = resolved_types(tail, rest);
            match &**head {
                Some(branch) => cons(BranchType { ty: branch.block.ty, mutable: branch.block.mutable, span: **span }, more),
                None => more,
            }
        },
        _ => Chain::Nil,
    }
}

/// Collect the branch results in order.
pub open spec fn gather_branches(found: Chain<Option<BranchOut>>) -> Gathered
    decreases found,
{
    match found {
        Chain::Nil => Gathered { states: Chain::Nil, bodies: Chain::Nil, patterns: Chain::Nil },
        Chain::Cons(head, tail) => {
            let rest = gather_branches(*tail);
            match *head {
                None => rest,
                Some(branch) => {
                    let diverged = body_diverges(&branch.block.body);
                    Gathered { states: add_state(branch.state, diverged, rest.states), bodies: cons(branch.block.body, rest.bodies), patterns: rest.patterns }
                },
            }
        },
    }
}

/// One more branch state, inside an initializer.
pub open spec fn add_state(state: Option<CtorState>, diverged: bool, states: Chain<BranchState>) -> Chain<BranchState>
{
    match state {
        Some(found) => cons(BranchState { state: found, diverged: diverged }, states),
        None => states,
    }
}

/// Pair conditions with bodies; the bodies behind the last condition
/// come second.
pub open spec fn pair_branches(conds: Chain<HExpr>, bodies: Chain<Chain<HStmt>>) -> (Chain<HIfArm>, Chain<Chain<HStmt>>)
    decreases conds,
{
    match (conds, bodies) {
        (Chain::Cons(cond, conds_rest), Chain::Cons(body, bodies_rest)) => {
            let (arms, rest) = pair_branches(*conds_rest, *bodies_rest);
            (cons(HIfArm { cond: *cond, body: *body }, arms), rest)
        },
        (_, rest) => (Chain::Nil, rest),
    }
}

/// The only body of a list.
pub open spec fn first_body(bodies: Chain<Chain<HStmt>>) -> Option<Chain<HStmt>>
{
    match bodies {
        Chain::Nil => None,
        Chain::Cons(head, _) => Some(*head),
    }
}

/// The mode of the branches of a conditional. One without `else` gives
/// the unit value, so each branch of it must.
pub open spec fn branch_mode(mode: &BlockMode, has_else: bool) -> BlockMode
{
    match mode {
        BlockMode::Synth => {
            if has_else {
                BlockMode::Synth
            } else {
                BlockMode::Value(Ty::Unit)
            }
        },
        _ => *mode,
    }
}

/// Whether a mode synthesizes.
pub open spec fn is_synth(mode: &BlockMode) -> bool
{
    match mode {
        BlockMode::Synth => true,
        _ => false,
    }
}

/// The states of a fork: one without `else` can skip every branch.
pub open spec fn fork_states(states: Chain<BranchState>, entry: &Option<CtorState>, has_else: bool) -> Chain<BranchState>
{
    match entry {
        Some(state) => {
            if has_else {
                states
            } else {
                append(states, BranchState { state: *state, diverged: false })
            }
        },
        None => states,
    }
}

/// The type and the capability of a conditional or a case.
pub open spec fn fork_type(
    cx: &Ctx,
    mode: &BlockMode,
    complete: bool,
    hint: Option<Ty>,
    types: &Chain<BranchType>,
) -> Result<LocalVar, Stop>
{
    match mode {
        BlockMode::Discard => Ok(LocalVar { ty: Ty::Unit, mutable: true }),
        BlockMode::Value(ty) => Ok(LocalVar { ty: *ty, mutable: all_mutable(types) }),
        BlockMode::Synth => {
            if !complete {
                Ok(LocalVar { ty: Ty::Unit, mutable: true })
            } else {
                match join_or_hint(cx, hint, types) {
                    Err(stop) => Err(stop),
                    Ok(ty) => {
                        Ok(LocalVar { ty: ty, mutable: all_mutable(types) })
                    },
                }
            }
        },
    }
}

/// Require a conditional without `else` to stand where the unit value
/// fits.
pub open spec fn check_else_needed(mode: &BlockMode, has_else: bool, span: Span) -> Result<(), Stop>
{
    match mode {
        BlockMode::Value(ty) => {
            if has_else || (*ty == Ty::Unit) {
                Ok(())
            } else {
                Err(mismatch(ty, &Ty::Unit, span))
            }
        },
        _ => Ok(()),
    }
}

/// Check the branches of a conditional. With a branch that waits, every
/// branch checks against the hint of its siblings, so nested constructor
/// arguments adopt one instantiation.
pub open spec fn settle_branches(
    cx: &Ctx,
    st: Checker,
    branches: &Chain<IfArm>,
    refinements: &Chain<Option<Refinement>>,
    else_body: &Option<Chain<Stmt>>,
    mode: &BlockMode,
    entry: &Option<CtorState>,
    span: Span,
) -> (Checker, Result<Settled<BranchOut>, Stop>)
    decreases h_branches(branches) + h_else(else_body), 4int, Chain::<u32>::Nil,
{
    match try_branches(cx, st, branches, refinements, else_body, mode, entry, is_synth(mode), span) {
        (st, Err(stop)) => (st, Err(stop)),
        (st, Ok(tried)) => {
            match tried.gap {
                None => (st, Ok(Settled { found: tried.found, hint: None })),
                Some(gap) => {
                    match branch_hint(cx, &resolved_types(&tried.found, &branch_spans(branches, else_body, span))) {
                        Err(stop) => (st, Err(stop)),
                        Ok(hint) => {
                            match hint {
                                None => (st, Err(Stop::Fail(gap))),
                                Some(ty) => {
                                    match try_branches(cx, st, branches, refinements, else_body, &BlockMode::Value(ty), entry, false, span) {
                                        (st, Err(stop)) => (st, Err(stop)),
                                        (st, Ok(again)) => {
                                            (st, Ok(Settled { found: again.found, hint: Some(ty) }))
                                        },
                                    }
                                },
                            }
                        },
                    }
                },
            }
        },
    }
}

/// Check an `if` expression in the supplied block mode.
pub open spec fn check_if(
    cx: &Ctx,
    st: Checker,
    branches: &Chain<IfArm>,
    else_body: &Option<Chain<Stmt>>,
    mode: &BlockMode,
    span: Span,
) -> (Checker, Result<HExpr, Stop>)
    decreases h_branches(branches) + h_else(else_body), 5int, Chain::<u32>::Nil,
{
    let has_else = else_body.is_some();
    match check_else_needed(mode, has_else, span) {
        Err(stop) => (st, Err(stop)),
        Ok(_needed) => {
            let inner = branch_mode(mode, has_else);
            match check_conditions(cx, st, branches) {
                (st, Err(stop)) => (st, Err(stop)),
                (st, Ok(conditions)) => {
                    match settle_branches(cx, st, branches, &conditions.refinements, else_body, &inner, &conditions.entry, span) {
                        (st, Err(stop)) => (st, Err(stop)),
                        (st, Ok(settled)) => {
                            let types = resolved_types(&settled.found, &branch_spans(branches, else_body, span));
                            let gathered = gather_branches(settled.found);
                            let states = fork_states(gathered.states, &conditions.entry, has_else);
                            match merge_ctor_states(st, conditions.entry, &states, span) {
                                (st, Err(stop)) => (st, Err(stop)),
                                (st, Ok(_merged)) => {
                                    match fork_type(cx, mode, has_else, settled.hint, &types) {
                                        Err(stop) => (st, Err(stop)),
                                        Ok(found) => {
                                            let (arms, rest) = pair_branches(conditions.conds, gathered.bodies);
                                            (st, Ok(hexpr(found.ty, found.mutable, HKind::If { branches: arms, else_body: first_body(rest) })))
                                        },
                                    }
                                },
                            }
                        },
                    }
                },
            }
        },
    }
}

/// A checker that has bound no name of a pattern yet.
pub open spec fn without_binds(st: Checker) -> Checker
{
    Checker { binds: Chain::Nil, ..st }
}

/// Check one case arm: the pattern and the body share a fresh scope,
/// from the initialization state of the fork.
pub open spec fn check_case_arm(
    cx: &Ctx,
    st: Checker,
    arm: &CaseArm,
    ty: &Ty,
    mutable: bool,
    mode: &BlockMode,
    entry: &Option<CtorState>,
) -> (Checker, Result<ArmOut, Stop>)
    decreases h_arm(arm), 1int, Chain::<u32>::Nil,
{
    let st = push_scope(with_ctor_state(st, entry), Chain::Nil);
    let st = without_binds(st);
    let (st, pattern) = check_pattern(cx, st, &arm.pattern, ty, mutable);
    match pattern {
        Err(stop) => (pop_scope(st), Err(stop)),
        Ok(pat) => {
            let (st, result) = check_block(cx, st, &arm.body, mode, arm.span);
            let st = pop_scope(st);
            match result {
                Err(stop) => (st, Err(stop)),
                Ok(block) => {
                    let state = ctor_state(&st);
                    (st, Ok(ArmOut { pattern: pat, block: block, state: state }))
                },
            }
        },
    }
}

/// Check each case arm, as the branches of a conditional are.
pub open spec fn try_arms(
    cx: &Ctx,
    st: Checker,
    arms: &Chain<CaseArm>,
    ty: &Ty,
    mutable: bool,
    mode: &BlockMode,
    entry: &Option<CtorState>,
    defer: bool,
) -> (Checker, Result<Tried<ArmOut>, Stop>)
    decreases h_arms(arms), 2int, Chain::<u32>::Nil,
{
    match arms {
        Chain::Nil => (st, Ok(Tried { found: Chain::Nil, gap: None })),
        Chain::Cons(head, tail) => {
            let (st, result) = check_case_arm(cx, st, head, ty, mutable, mode, entry);
            match result {
                Ok(found) => {
                    match try_arms(cx, st, tail, ty, mutable, mode, entry, defer) {
                        (st, Err(stop)) => (st, Err(stop)),
                        (st, Ok(rest)) => {
                            (st, Ok(Tried { found: cons(Some(found), rest.found), gap: rest.gap }))
                        },
                    }
                },
                Err(stop) => {
                    if waits_for_hint(&stop, defer) {
                        match try_arms(cx, st, tail, ty, mutable, mode, entry, defer) {
                            (st, Err(stop)) => (st, Err(stop)),
                            (st, Ok(rest)) => {
                                (st, Ok(Tried { found: cons(None, rest.found), gap: gap_of(stop) }))
                            },
                        }
                    } else {
                        (st, Err(stop))
                    }
                },
            }
        },
    }
}

/// The types of the arms that resolved.
pub open spec fn arm_types(found: &Chain<Option<ArmOut>>, arms: &Chain<CaseArm>) -> Chain<BranchType>
    decreases found,
{
    match (found, arms) {
        (Chain::Cons(head, tail), Chain::Cons(arm, rest)) => {
            let more = arm_types(tail, rest);
            match &**head {
                Some(branch) => cons(BranchType { ty: branch.block.ty, mutable: branch.block.mutable, span: arm.span }, more),
                None => more,
            }
        },
        _ => Chain::Nil,
    }
}

/// Collect the arm results in order.
pub open spec fn gather_arms(found: Chain<Option<ArmOut>>) -> Gathered
    decreases found,
{
    match found {
        Chain::Nil => Gathered { states: Chain::Nil, bodies: Chain::Nil, patterns: Chain::Nil },
        Chain::Cons(head, tail) => {
            let rest = gather_arms(*tail);
            match *head {
                None => rest,
                Some(branch) => {
                    let diverged = body_diverges(&branch.block.body);
                    Gathered { states: add_state(branch.state, diverged, rest.states), bodies: cons(branch.block.body, rest.bodies), patterns: cons(branch.pattern, rest.patterns) }
                },
            }
        },
    }
}

/// The checked arms of patterns and bodies.
pub open spec fn pair_arms(patterns: Chain<HPattern>, bodies: Chain<Chain<HStmt>>) -> Chain<HArm>
    decreases patterns,
{
    match (patterns, bodies) {
        (Chain::Cons(pattern, patterns_rest), Chain::Cons(body, bodies_rest)) => cons(HArm { pattern: *pattern, body: *body }, pair_arms(*patterns_rest, *bodies_rest)),
        _ => Chain::Nil,
    }
}

/// Check the arms of a case, with the hint of the siblings where an arm
/// waits for one.
pub open spec fn settle_arms(
    cx: &Ctx,
    st: Checker,
    arms: &Chain<CaseArm>,
    ty: &Ty,
    mutable: bool,
    mode: &BlockMode,
    entry: &Option<CtorState>,
) -> (Checker, Result<Settled<ArmOut>, Stop>)
    decreases h_arms(arms), 3int, Chain::<u32>::Nil,
{
    match try_arms(cx, st, arms, ty, mutable, mode, entry, is_synth(mode)) {
        (st, Err(stop)) => (st, Err(stop)),
        (st, Ok(tried)) => {
            match tried.gap {
                None => (st, Ok(Settled { found: tried.found, hint: None })),
                Some(gap) => {
                    match branch_hint(cx, &arm_types(&tried.found, arms)) {
                        Err(stop) => (st, Err(stop)),
                        Ok(hint) => {
                            match hint {
                                None => (st, Err(Stop::Fail(gap))),
                                Some(hint_ty) => {
                                    match try_arms(cx, st, arms, ty, mutable, &BlockMode::Value(hint_ty), entry, false) {
                                        (st, Err(stop)) => (st, Err(stop)),
                                        (st, Ok(again)) => {
                                            (st, Ok(Settled { found: again.found, hint: Some(hint_ty) }))
                                        },
                                    }
                                },
                            }
                        },
                    }
                },
            }
        },
    }
}

/// Whether a pattern refines a descriptor.
pub open spec fn is_reflect(pattern: &Pattern) -> bool
{
    match &pattern.kind {
        PatternKind::Reflect { kind: _, generics: _, signature: _, binding: _ } => true,
        _ => false,
    }
}

/// Whether a pattern is the wildcard.
pub open spec fn is_wildcard(pattern: &Pattern) -> bool
{
    match &pattern.kind {
        PatternKind::Wildcard => true,
        _ => false,
    }
}

/// Whether an arm refines a descriptor.
pub open spec fn any_reflect(arms: &Chain<CaseArm>) -> bool
    decreases arms,
{
    match arms {
        Chain::Nil => false,
        Chain::Cons(head, tail) => is_reflect(&head.pattern) || any_reflect(tail),
    }
}

/// Check one case expression.
pub open spec fn check_case(
    cx: &Ctx,
    st: Checker,
    scrut: &Expr,
    arms: &Chain<CaseArm>,
    mode: &BlockMode,
    span: Span,
) -> (Checker, Result<HExpr, Stop>)
    decreases h_expr(scrut) + h_arms(arms), 7int, Chain::<u32>::Nil,
{
    match synth_expr(cx, st, scrut) {
        (st, Err(stop)) => (st, Err(stop)),
        (st, Ok(value)) => {
            check_case_value(cx, st, value, arms, mode, span)
        },
    }
}

/// Check a case expression with an existing scrutinee value. A hidden
/// slot holds the scrutinee during the arm tests.
pub open spec fn check_case_value(
    cx: &Ctx,
    st: Checker,
    scrut: HExpr,
    arms: &Chain<CaseArm>,
    mode: &BlockMode,
    span: Span,
) -> (Checker, Result<HExpr, Stop>)
    decreases h_arms(arms), 6int, Chain::<u32>::Nil,
{
    if any_reflect(arms) {
        check_reflect_case_value(cx, st, scrut, arms, mode, span)
    } else {
        let (st, slot) = hidden_local(st, scrut.ty, scrut.mutable);
        let entry = ctor_state(&st);
        match settle_arms(cx, st, arms, &scrut.ty, scrut.mutable, mode, &entry) {
            (st, Err(stop)) => (st, Err(stop)),
            (st, Ok(settled)) => {
                let types = arm_types(&settled.found, arms);
                let gathered = gather_arms(settled.found);
                match analyze_arms(cx, &scrut.ty, arms, &gathered.patterns, span) {
                    Err(stop) => (st, Err(stop)),
                    Ok(_covered) => {
                        match merge_ctor_states(st, entry, &gathered.states, span) {
                            (st, Err(stop)) => (st, Err(stop)),
                            (st, Ok(_merged)) => {
                                match fork_type(cx, mode, true, settled.hint, &types) {
                                    Err(stop) => (st, Err(stop)),
                                    Ok(found) => {
                                        (st, Ok(hexpr(found.ty, found.mutable, HKind::Case { scrut: scrut, scrut_slot: slot, arms: pair_arms(gathered.patterns, gathered.bodies) })))
                                    },
                                }
                            },
                        }
                    },
                }
            },
        }
    }
}

/// Whether every arm but the last refines a descriptor.
pub open spec fn refines_before_last(arms: &Chain<CaseArm>) -> bool
    decreases arms,
{
    match arms {
        Chain::Nil => true,
        Chain::Cons(head, tail) => tail.is_empty() || (is_reflect(&head.pattern) && refines_before_last(tail)),
    }
}

/// The last arm of a case.
pub open spec fn last_arm<'a>(arms: &'a Chain<CaseArm>) -> Option<&'a CaseArm>
    decreases arms,
{
    match arms {
        Chain::Nil => None,
        Chain::Cons(head, tail) => {
            if tail.is_empty() {
                Some(&**head)
            } else {
                last_arm(tail)
            }
        },
    }
}

/// Require the shape of a descriptor case: refinements, then one
/// wildcard.
pub open spec fn check_reflect_shape(arms: &Chain<CaseArm>, span: Span) -> Result<(), Stop>
{
    match last_arm(arms) {
        None => Err(unnamed(Problem::ReflectNeedsWildcard, span)),
        Some(last) => {
            if !is_wildcard(&last.pattern) {
                Err(unnamed(Problem::ReflectNeedsWildcard, last.pattern.span))
            } else if count(arms) < 2 || !refines_before_last(arms) {
                Err(unnamed(Problem::ReflectArmsOnly, span))
            } else {
                Ok(())
            }
        },
    }
}

/// Check the last arm of a descriptor case.
pub open spec fn check_fallback(
    cx: &Ctx,
    st: Checker,
    arms: &Chain<CaseArm>,
    mode: &BlockMode,
    span: Span,
) -> (Checker, Result<Block, Stop>)
    decreases h_arms(arms), 0int, Chain::<u32>::Nil,
{
    match arms {
        Chain::Nil => (st, Err(unnamed(Problem::ReflectNeedsWildcard, span))),
        Chain::Cons(head, tail) => {
            if !tail.is_empty() {
                check_fallback(cx, st, tail, mode, span)
            } else {
                let st = push_scope(st, Chain::Nil);
                let (st, result) = check_block(cx, st, &head.body, mode, head.span);
                (pop_scope(st), result)
            }
        },
    }
}

/// The result type of a descriptor case: the wildcard arm gives it where
/// none is expected.
pub open spec fn reflect_type(mode: &BlockMode, fallback: &Ty, span: Span) -> Result<Ty, Stop>
{
    match mode {
        BlockMode::Discard => Ok(Ty::Unit),
        BlockMode::Value(ty) => Ok(*ty),
        BlockMode::Synth => {
            if (*fallback == Ty::Never) {
                Err(unnamed(Problem::ReflectNeedsType, span))
            } else {
                Ok(*fallback)
            }
        },
    }
}

/// The mode of the refinement arms.
pub open spec fn reflect_mode(mode: &BlockMode, ty: &Ty) -> BlockMode
{
    match mode {
        BlockMode::Discard => BlockMode::Discard,
        _ => BlockMode::Value(*ty),
    }
}

/// Check each reflection arm before the last.
pub open spec fn check_reflect_arms(
    cx: &Ctx,
    st: Checker,
    descriptor: &Ty,
    arms: &Chain<CaseArm>,
    mode: &BlockMode,
) -> (Checker, Result<Refined, Stop>)
    decreases h_arms(arms), 3int, Chain::<u32>::Nil,
{
    match arms {
        Chain::Nil => (st, Ok(Refined { arms: Chain::Nil, mutable: true })),
        Chain::Cons(head, tail) => {
            match &head.pattern.kind {
                PatternKind::Reflect { kind, generics, signature, binding } => {
                    match check_reflect_arm(cx, st, descriptor, kind, generics, signature, binding, &head.body, mode, head.span) {
                        (st, Err(stop)) => (st, Err(stop)),
                        (st, Ok(first)) => {
                            match check_reflect_arms(cx, st, descriptor, tail, mode) {
                                (st, Err(stop)) => (st, Err(stop)),
                                (st, Ok(rest)) => {
                                    (st, Ok(Refined { arms: cons(first.arm, rest.arms), mutable: first.mutable && rest.mutable }))
                                },
                            }
                        },
                    }
                },
                _ => (st, Ok(Refined { arms: Chain::Nil, mutable: true })),
            }
        },
    }
}

/// Where the last arm stands.
pub open spec fn fallback_span(arms: &Chain<CaseArm>, span: Span) -> Span
{
    match last_arm(arms) {
        Some(arm) => arm.span,
        None => span,
    }
}

/// The value of a checked reflection case. A hidden slot holds the
/// descriptor.
pub open spec fn reflect_value(st: Checker, scrut: HExpr, ty: Ty, refined: Refined, fallback: Block) -> (Checker, HExpr)
{
    let (st, slot) = hidden_local(st, scrut.ty, scrut.mutable);
    let mutable = fallback.mutable && refined.mutable;
    (st, hexpr(ty, mutable, HKind::ReflectCase { scrut: scrut, scrut_slot: slot, refined: refined.arms, fallback: fallback.body }))
}

/// Check one descriptor case with scoped generic parameters.
pub open spec fn check_reflect_case_value(
    cx: &Ctx,
    st: Checker,
    scrut: HExpr,
    arms: &Chain<CaseArm>,
    mode: &BlockMode,
    span: Span,
) -> (Checker, Result<HExpr, Stop>)
    decreases h_arms(arms), 5int, Chain::<u32>::Nil,
{
    if st.ctor.is_some() {
        (st, Err(unnamed(Problem::ReflectDuringInit, span)))
    } else {
        match check_reflect_shape(arms, span) {
            Err(stop) => (st, Err(stop)),
            Ok(_shape) => {
                match check_fallback(cx, st, arms, mode, span) {
                    (st, Err(stop)) => (st, Err(stop)),
                    (st, Ok(fallback)) => {
                        match reflect_type(mode, &fallback.ty, fallback_span(arms, span)) {
                            Err(stop) => (st, Err(stop)),
                            Ok(ty) => {
                                match check_reflect_arms(cx, st, &scrut.ty, arms, &reflect_mode(mode, &ty)) {
                                    (st, Err(stop)) => (st, Err(stop)),
                                    (st, Ok(refined)) => {
                                        let (st, value) = reflect_value(st, scrut, ty, refined, fallback);
                                        (st, Ok(value))
                                    },
                                }
                            },
                        }
                    },
                }
            },
        }
    }
}

/// The number of effect parameters.
pub open spec fn effect_params(generics: &Chain<GenericParam>) -> u32
    decreases generics,
{
    match generics {
        Chain::Nil => 0u32,
        Chain::Cons(head, tail) => {
            if head.is_effect {
                effect_params(tail).wrapping_add(1)
            } else {
                effect_params(tail)
            }
        },
    }
}

/// A scope with fresh generic parameters.
pub open spec fn extend_scope(env: TyEnv, generics: &Chain<GenericParam>) -> Result<TyEnv, Stop>
    decreases generics,
{
    match generics {
        Chain::Nil => Ok(env),
        Chain::Cons(head, tail) => {
            let taken = if head.is_effect { holds_name(&env.effect_names, &head.name) } else { holds_name(&env.type_names, &head.name) };
            if taken {
                Err(named(Problem::DuplicateGeneric, &head.name, head.span))
            } else if head.is_effect {
                extend_scope(TyEnv { effect_names: append(env.effect_names, head.name), ..env }, tail)
            } else {
                extend_scope(TyEnv { type_names: append(env.type_names, head.name), type_bounds: append(env.type_bounds, Chain::Nil), ..env }, tail)
            }
        },
    }
}

/// The scope of a refinement arm.
pub open spec fn reflect_scope(cx: &Ctx, env: &TyEnv, generics: &Chain<GenericParam>, span: Span) -> Result<TyEnv, Stop>
{
    let first = count(&env.type_bounds);
    if effect_params(generics) > 1 {
        Err(unnamed(Problem::ReflectEffects, span))
    } else {
        match extend_scope(*env, generics) {
            Err(stop) => Err(stop),
            Ok(inner) => {
                match generic_bounds_from(cx, &inner, Decl { keys: Chain::Nil, next_func: 0, values: Chain::Nil }, generics, first) {
                    (_, Err(stop)) => Err(stop),
                    (_, Ok(bounds)) => Ok(TyEnv { type_bounds: concat(truncate(inner.type_bounds, first), bounds), ..inner }),
                }
            },
        }
    }
}

/// What one refinement word matches.
pub open spec fn reflect_kind(name: &Text) -> Option<ReflectKind>
{
    if ((*name)@ == "Class"@) {
        Some(ReflectKind::Class)
    } else if ((*name)@ == "Def"@) {
        Some(ReflectKind::Function)
    } else if ((*name)@ == "Method"@) {
        Some(ReflectKind::Method)
    } else if ((*name)@ == "Const"@) {
        Some(ReflectKind::Constant)
    } else if ((*name)@ == "Code"@) {
        Some(ReflectKind::Code)
    } else {
        None
    }
}

/// Whether a type is a function type.
pub open spec fn is_function(ty: &Ty) -> bool
{
    match ty {
        Ty::Fn(_, _, _, _) => true,
        _ => false,
    }
}

/// What a refinement matches and what it binds. A class refinement may
/// leave its callable signature out.
pub open spec fn reflected(
    cx: &Ctx,
    env: &TyEnv,
    kind: ReflectKind,
    generics: &Chain<GenericParam>,
    signature: &Option<TypeExpr>,
    first_type: u32,
    span: Span,
) -> Result<Reflected, Stop>
{
    match signature {
        Some(written) => {
            match resolve_now(cx, env, written) {
                Err(stop) => Err(stop),
                Ok(ty) => {
                    if kind != ReflectKind::Constant && !is_function(&ty) {
                        Err(unnamed(Problem::RefinementNeedsFunction, written.span))
                    } else if kind == ReflectKind::Code {
                        match core_inst(cx, "FunctionCode", one(ty), span) {
                            Err(stop) => Err(stop),
                            Ok(binding) => {
                                Ok(Reflected { kind: kind, match_ty: ty, binding_ty: binding })
                            },
                        }
                    } else {
                        Ok(Reflected { kind: kind, match_ty: ty, binding_ty: ty })
                    }
                },
            }
        },
        None => {
            if kind != ReflectKind::Class {
                Err(unnamed(Problem::ReflectNeedsSignature, span))
            } else if count(generics) != 1 || effect_params(generics) != 0 {
                Err(unnamed(Problem::ReflectNeedsParameter, span))
            } else {
                match core_class(cx, "DeclarationCode", span) {
                    Err(stop) => Err(stop),
                    Ok(binding) => {
                        Ok(Reflected { kind: ReflectKind::ClassDescriptor, match_ty: Ty::Var(first_type), binding_ty: binding })
                    },
                }
            }
        },
    }
}

/// The name that a refinement binds: one name, or none for the wildcard.
pub open spec fn reflect_binding(binding: &Pattern) -> Result<Option<Text>, Stop>
{
    match &binding.kind {
        PatternKind::Wildcard => Ok(None),
        PatternKind::Name(name) => {
            if ((*name)@ == "_"@) {
                Err(unnamed(Problem::ReflectBinding, binding.span))
            } else {
                Ok(Some(*name))
            }
        },
        _ => Err(unnamed(Problem::ReflectBinding, binding.span)),
    }
}

/// The function that stands for the pattern of a refinement.
pub open spec fn pattern_func(env: &TyEnv, match_ty: &Ty, index: u32) -> HirFunc
{
    HirFunc {
        imported: false,
        core: env.core_scope,
        source_span: None,
        name: generated_name("<reflection pattern ", index),
        type_params: count(&env.type_bounds),
        type_bounds: env.type_bounds,
        effect_params: count(&env.effect_names),
        params: one(*match_ty),
        param_muts: one(false),
        param_names: one(chain_of("value"@)),
        ret: Ty::Unit,
        row: Chain::Nil,
        captures: Chain::Nil,
        locals: one(*match_ty),
        body: Chain::Nil,
    }
}

/// Bind the name of a refinement to a fresh local, in a new scope.
pub open spec fn bind_reflected(st: Checker, name: &Option<Text>, ty: Ty) -> (Checker, Option<u32>)
{
    match name {
        None => (push_scope(st, Chain::Nil), None),
        Some(found) => {
            let (st, slot) = hidden_local(st, ty, false);
            (push_scope(st, one(ScopeEntry { name: *found, slot: slot })), Some(slot))
        },
    }
}

/// A checker that resolves types in another scope.
pub open spec fn in_env(st: Checker, env: TyEnv) -> Checker
{
    Checker { env: env, ..st }
}

/// Check one reflection arm in the enclosing function.
pub open spec fn check_reflect_arm(
    cx: &Ctx,
    st: Checker,
    descriptor: &Ty,
    kind_name: &Text,
    generics: &Chain<GenericParam>,
    signature: &Option<TypeExpr>,
    binding: &Pattern,
    body: &Chain<Stmt>,
    mode: &BlockMode,
    span: Span,
) -> (Checker, Result<ReflectOut, Stop>)
    decreases h_stmts(body), 1int, Chain::<u32>::Nil,
{
    match reflect_kind(kind_name) {
        None => (st, Err(named(Problem::UnknownReflection, kind_name, span))),
        Some(kind) => {
            match core_class(cx, "OpenCode", span) {
                Err(stop) => (st, Err(stop)),
                Ok(required) => {
                    if !(*descriptor == required) {
                        (st, Err(mismatch(&required, descriptor, span)))
                    } else {
                        let first_type = count(&st.env.type_bounds);
                        let first_effect = count(&st.env.effect_names);
                        match reflect_scope(cx, &st.env, generics, span) {
                            Err(stop) => (st, Err(stop)),
                            Ok(inner) => {
                                match reflected(cx, &inner, kind, generics, signature, first_type, span) {
                                    Err(stop) => (st, Err(stop)),
                                    Ok(found) => {
                                        match reflect_binding(binding) {
                                            Err(stop) => (st, Err(stop)),
                                            Ok(name) => {
                                                let func = pattern_func(&inner, &found.match_ty, st.out.next_func);
                                                let (st, pattern) = push_func(st, func);
                                                let (st, slot) = bind_reflected(st, &name, found.binding_ty);
                                                let outer = st.env;
                                                let st = in_env(st, inner);
                                                let (st, result) = check_block(cx, st, body, mode, span);
                                                let st = pop_scope(in_env(st, outer));
                                                match result {
                                                    Err(stop) => (st, Err(stop)),
                                                    Ok(block) => {
                                                        let arm = HReflectArm { kind: found.kind, pattern: pattern, type_base: first_type, effect_base: first_effect, binding: slot, body: block.body };
                                                        (st, Ok(ReflectOut { arm: arm, mutable: block.mutable }))
                                                    },
                                                }
                                            },
                                        }
                                    },
                                }
                            },
                        }
                    }
                },
            }
        },
    }
}

/// Lower `select` to one wait and one case expression.
pub open spec fn check_select(
    cx: &Ctx,
    st: Checker,
    arms: &Chain<SelectArm>,
    mode: &BlockMode,
    span: Span,
) -> (Checker, Result<HExpr, Stop>)
    decreases 2 + h_waits(arms) + h_bodies(arms), 8int, Chain::<u32>::Nil,
{
    match arms {
        Chain::Nil => (st, Err(unnamed(Problem::SelectNeedsArms, span))),
        Chain::Cons(first, rest) => {
            let total = count(arms);
            proof {
                lemma_select(first, rest, arms, total, span);
            }
            let waited = select_wait(first, rest, span);
            let cases = select_arms(arms, 0u32, total);
            check_case(cx, st, &waited, &cases, mode, span)
        },
    }
}

/// The two arguments of a `Result` type.
pub open spec fn result_arguments(ty: &Ty, result_class: u32) -> Option<(Ty, Ty)>
{
    match ty {
        Ty::Inst(class, Chain::Cons(ok, rest)) => {
            match &**rest {
                Chain::Cons(error, more) => {
                    if *class == result_class && more.is_empty() {
                        Some((**ok, **error))
                    } else {
                        None
                    }
                },
                Chain::Nil => None,
            }
        },
        _ => None,
    }
}

/// The result type around a propagation: a declared `Result` with the
/// same error type.
pub open spec fn check_enclosing_result(ret: &RetKind, result_class: u32, error: &Ty, span: Span) -> Result<(), Stop>
{
    match ret {
        RetKind::Entry => Err(unnamed(Problem::PropagateAtTopLevel, span)),
        RetKind::ClosureInfer => Err(unnamed(Problem::PropagateNeedsDeclared, span)),
        RetKind::Known(ty) => {
            match result_arguments(ty, result_class) {
                None => Err(unnamed(Problem::PropagateNeedsEnclosing { found: *ty }, span)),
                Some((_, wanted)) => {
                    if (wanted == *error) {
                        Ok(())
                    } else {
                        Err(unnamed(Problem::PropagateErrorDiffers { found: *error, expected: wanted }, span))
                    }
                },
            }
        },
    }
}

/// Check postfix propagation of a `Result`.
pub open spec fn check_propagate(cx: &Ctx, st: Checker, value: &Expr, span: Span) -> (Checker, Result<HExpr, Stop>)
    decreases h_expr(value) + 32, 8int, Chain::<u32>::Nil,
{
    match synth_expr(cx, st, value) {
        (st, Err(stop)) => (st, Err(stop)),
        (st, Ok(found)) => {
            match core_id(cx, "Result", span) {
                Err(stop) => (st, Err(stop)),
                Ok(result_class) => {
                    match result_arguments(&found.ty, result_class) {
                        None => (st, Err(unnamed(Problem::PropagateNeedsResult { found: found.ty }, span))),
                        Some((ok, error)) => {
                            match check_enclosing_result(&st.ret, result_class, &error, span) {
                                Err(stop) => (st, Err(stop)),
                                Ok(_enclosing) => {
                                    proof {
                                        lemma_propagate_arms(span);
                                    }
                                    let arms = propagate_arms(span);
                                    check_case_value(cx, st, found, &arms, &BlockMode::Value(ok), span)
                                },
                            }
                        },
                    }
                },
            }
        },
    }
}

} // verus!
