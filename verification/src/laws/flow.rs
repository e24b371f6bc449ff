//! Flow: which checked code completes, and what a conditional keeps.

use vstd::prelude::*;
use crate::ast::{IfArm, Span, Stmt};
use crate::chain::Chain;
use crate::context::Ctx;
use crate::hir::{HArm, HExpr, HForKind, HIfArm, HKind, HStmt};
use crate::laws::cases::all_there;
use crate::laws::operators::{checking, comes_from, lemma_two};
use crate::model::branches::{branch_mode, check_branch_body, check_conditions, check_if, first_refinement, gather_branches, is_synth, later_refinements, pair_branches, settle_branches, try_branches, try_else};
use crate::model::endings::{any_breaks, arms_diverge, body_breaks, body_diverges, branches_diverge, breaks_out, diverges, never_completes, stmt_breaks};
use crate::problem::Stop;
use crate::state::{BlockMode, BranchOut, Checker, Conditions, CtorState, Refinement, Tried};
use crate::types::Ty;

verus! {

/// A list of conditional bodies diverges exactly where each body does.
pub proof fn law_branches_diverge(items: &Chain<HIfArm>)
    ensures
        branches_diverge(items) <==> forall|i: int| 0 <= i < items@.len() ==> body_diverges(&(#[trigger] items@[i]).body),
    decreases items,
{
    match items {
        Chain::Nil => {},
        Chain::Cons(head, tail) => {
            law_branches_diverge(&**tail);
            assert(items@[0] == **head);
            assert forall|i: int| 0 <= i < tail@.len() implies #[trigger] tail@[i] == items@[i + 1] by {}
            if branches_diverge(items) {
                assert forall|i: int| 0 <= i < items@.len() implies body_diverges(&(#[trigger] items@[i]).body) by {
                    if i > 0 {
                        assert(tail@[i - 1] == items@[i]);
                    }
                }
            } else if body_diverges(&head.body) {
                let i = choose|i: int| 0 <= i < tail@.len() && !body_diverges(&(#[trigger] tail@[i]).body);
                assert(items@[i + 1] == tail@[i]);
            }
        },
    }
}

/// A list of arms diverges exactly where each body does.
pub proof fn law_arms_diverge(items: &Chain<HArm>)
    ensures
        arms_diverge(items) <==> forall|i: int| 0 <= i < items@.len() ==> body_diverges(&(#[trigger] items@[i]).body),
    decreases items,
{
    match items {
        Chain::Nil => {},
        Chain::Cons(head, tail) => {
            law_arms_diverge(&**tail);
            assert(items@[0] == **head);
            assert forall|i: int| 0 <= i < tail@.len() implies #[trigger] tail@[i] == items@[i + 1] by {}
            if arms_diverge(items) {
                assert forall|i: int| 0 <= i < items@.len() implies body_diverges(&(#[trigger] items@[i]).body) by {
                    if i > 0 {
                        assert(tail@[i - 1] == items@[i]);
                    }
                }
            } else if body_diverges(&head.body) {
                let i = choose|i: int| 0 <= i < tail@.len() && !body_diverges(&(#[trigger] tail@[i]).body);
                assert(items@[i + 1] == tail@[i]);
            }
        },
    }
}

/// A body diverges exactly where its last statement does.
pub proof fn law_body_diverges(body: &Chain<HStmt>)
    ensures
        body_diverges(body) <==> body@.len() > 0 && diverges(&body@.last()),
    decreases body,
{
    match body {
        Chain::Nil => {},
        Chain::Cons(head, tail) => {
            law_body_diverges(&**tail);
            if **tail is Nil {
                assert(body@ =~= seq![**head]);
            } else {
                assert(body@.last() == tail@.last());
            }
        },
    }
}

/// A body leaves its loop exactly where one of its statements does.
pub proof fn law_body_breaks(body: &Chain<HStmt>)
    ensures
        body_breaks(body) <==> exists|i: int| 0 <= i < body@.len() && stmt_breaks(&#[trigger] body@[i]),
    decreases body,
{
    match body {
        Chain::Nil => {},
        Chain::Cons(head, tail) => {
            law_body_breaks(&**tail);
            assert(body@[0] == **head);
            if body_breaks(&**tail) {
                let i = choose|i: int| 0 <= i < tail@.len() && stmt_breaks(&#[trigger] tail@[i]);
                assert(body@[i + 1] == tail@[i]);
            }
            if exists|i: int| 0 <= i < body@.len() && stmt_breaks(&#[trigger] body@[i]) {
                let i = choose|i: int| 0 <= i < body@.len() && stmt_breaks(&#[trigger] body@[i]);
                if i > 0 {
                    assert(tail@[i - 1] == body@[i]);
                }
            }
        },
    }
}

/// A list of expressions leaves its loop exactly where one of them does.
pub proof fn law_any_breaks(items: &Chain<HExpr>)
    ensures
        any_breaks(items) <==> exists|i: int| 0 <= i < items@.len() && breaks_out(&#[trigger] items@[i]),
    decreases items,
{
    match items {
        Chain::Nil => {},
        Chain::Cons(head, tail) => {
            law_any_breaks(&**tail);
            assert(items@[0] == **head);
            if any_breaks(&**tail) {
                let i = choose|i: int| 0 <= i < tail@.len() && breaks_out(&#[trigger] tail@[i]);
                assert(items@[i + 1] == tail@[i]);
            }
            if exists|i: int| 0 <= i < items@.len() && breaks_out(&#[trigger] items@[i]) {
                let i = choose|i: int| 0 <= i < items@.len() && breaks_out(&#[trigger] items@[i]);
                if i > 0 {
                    assert(tail@[i - 1] == items@[i]);
                }
            }
        },
    }
}

/// What diverges: a jump, an expression that never completes, and an
/// endless loop that nothing leaves. An assignment and a `for` complete.
pub proof fn law_diverges(stmt: HStmt)
    ensures
        stmt is Return || stmt is Break || stmt is Continue ==> diverges(&stmt),
        stmt is Assign || stmt is AssignField || stmt is For ==> !diverges(&stmt),
        stmt matches HStmt::While { cond, body } ==> (diverges(&stmt) <==> *cond.kind == HKind::Bool(true) && !(exists|i: int|
            0 <= i < body@.len() && stmt_breaks(&#[trigger] body@[i]))),
        stmt matches HStmt::Expr(value) ==> diverges(&stmt) == never_completes(&value),
{
    if let HStmt::While { cond, body } = stmt {
        law_body_breaks(&body);
    }
}

/// A conditional with `else` never completes exactly where no branch of it
/// does, and a case exactly where no arm of it does.
pub proof fn law_never_completes(expr: HExpr)
    requires
        expr.ty != Ty::Never,
    ensures
        *expr.kind matches HKind::If { branches, else_body } ==> (never_completes(&expr) <==> (else_body matches Some(other) && body_diverges(&other)
            && forall|i: int| 0 <= i < branches@.len() ==> body_diverges(&(#[trigger] branches@[i]).body))),
        *expr.kind matches HKind::Case { arms, .. } ==> (never_completes(&expr) <==> arms@.len() > 0 && forall|i: int|
            0 <= i < arms@.len() ==> body_diverges(&(#[trigger] arms@[i]).body)),
{
    match *expr.kind {
        HKind::If { branches, .. } => law_branches_diverge(&branches),
        HKind::Case { arms, .. } => law_arms_diverge(&arms),
        _ => {},
    }
}

/// What an inner loop leaves does not leave the loop around it.
pub proof fn law_inner_loop(cond: HExpr, source: HExpr, bindings: Chain<u32>, kind: HForKind, body: Chain<HStmt>)
    ensures
        stmt_breaks(&HStmt::Break(None)),
        stmt_breaks(&HStmt::While { cond, body }) == breaks_out(&cond),
        stmt_breaks(&HStmt::For { source, bindings, kind, body }) == breaks_out(&source),
{
}

/// Whether checked conditions come from written ones, in order.
pub open spec fn conditions_from(cx: &Ctx, branches: Seq<IfArm>, conds: Seq<HExpr>) -> bool {
    conds.len() == branches.len() && forall|i: int| 0 <= i < conds.len() ==> comes_from(cx, branches[i].cond, #[trigger] conds[i])
}

/// What checking the conditions of a conditional gives.
#[verifier::opaque]
spec fn tested(cx: &Ctx, st: Checker, branches: Chain<IfArm>) -> (Checker, Result<Conditions, Stop>) {
    check_conditions(cx, st, &branches)
}

proof fn lemma_tested_step(cx: &Ctx, st: Checker, head: IfArm, tail: Chain<IfArm>)
    ensures
        tested(cx, st, Chain::Cons(Box::new(head), Box::new(tail))).1 matches Ok(found) ==> {
            let (next, cond) = checking(cx, st, &head.cond, &Ty::Bool);
            let rest = tested(cx, next, tail).1;
            cond is Ok && rest is Ok && found.conds == Chain::Cons(Box::new(cond->Ok_0), Box::new(rest->Ok_0.conds))
        },
        tested(cx, st, Chain::Nil).1 matches Ok(found) ==> found.conds is Nil,
{
    reveal(tested);
    reveal(checking);
}

proof fn lemma_tested(cx: &Ctx, st: Checker, branches: Chain<IfArm>)
    ensures
        tested(cx, st, branches).1 matches Ok(found) ==> conditions_from(cx, branches@, found.conds@),
    decreases branches,
{
    match branches {
        Chain::Nil => {
            reveal(tested);
        },
        Chain::Cons(head, tail) => {
            lemma_tested_step(cx, st, *head, *tail);
            if let Ok(found) = tested(cx, st, branches).1 {
                let (next, cond) = checking(cx, st, &head.cond, &Ty::Bool);
                lemma_tested(cx, next, *tail);
                let rest = tested(cx, next, *tail).1->Ok_0;
                assert(comes_from(cx, head.cond, cond->Ok_0));
                assert forall|i: int| 0 <= i < found.conds@.len() implies comes_from(cx, branches@[i].cond, #[trigger] found.conds@[i]) by {
                    if i > 0 {
                        assert(found.conds@[i] == rest.conds@[i - 1]);
                        assert(branches@[i] == tail@[i - 1]);
                    }
                }
            }
        },
    }
}

/// What checking the branches of a conditional gives.
#[verifier::opaque]
spec fn branched(
    cx: &Ctx,
    st: Checker,
    branches: Chain<IfArm>,
    refinements: Chain<Option<Refinement>>,
    else_body: Option<Chain<Stmt>>,
    mode: BlockMode,
    entry: Option<CtorState>,
    defer: bool,
    span: Span,
) -> (Checker, Result<Tried<BranchOut>, Stop>) {
    try_branches(cx, st, &branches, &refinements, &else_body, &mode, &entry, defer, span)
}

/// The number of bodies of a conditional.
pub open spec fn body_count(branches: Chain<IfArm>, else_body: Option<Chain<Stmt>>) -> nat {
    branches@.len() + (if else_body is Some {
        1nat
    } else {
        0
    })
}

proof fn lemma_branched(
    cx: &Ctx,
    st: Checker,
    branches: Chain<IfArm>,
    refinements: Chain<Option<Refinement>>,
    else_body: Option<Chain<Stmt>>,
    mode: BlockMode,
    entry: Option<CtorState>,
    defer: bool,
    span: Span,
)
    ensures
        branched(cx, st, branches, refinements, else_body, mode, entry, defer, span).1 matches Ok(found) ==> found.found@.len() == body_count(
            branches,
            else_body,
        ) && (found.gap is None || !defer ==> all_there(found.found)),
    decreases branches,
{
    reveal(branched);
    match branches {
        Chain::Nil => {
            assert(branched(cx, st, branches, refinements, else_body, mode, entry, defer, span) == try_else(
                cx,
                st,
                &else_body,
                &mode,
                &entry,
                defer,
                span,
            ));
            reveal_with_fuel(all_there, 3);
            if let Ok(found) = branched(cx, st, branches, refinements, else_body, mode, entry, defer, span).1 {
                if else_body is Some {
                    lemma_two(*found.found->Cons_0, *found.found->Cons_0);
                }
            }
        },
        Chain::Cons(head, tail) => {
            let none = None::<Refinement>;
            let next = check_branch_body(cx, st, &head.body, &mode, first_refinement(&refinements, &none), &entry, span).0;
            lemma_branched(cx, next, *tail, *later_refinements(&refinements), else_body, mode, entry, defer, span);
        },
    }
}

proof fn lemma_gathered_branches(found: Chain<Option<BranchOut>>)
    ensures
        all_there(found) ==> gather_branches(found).bodies@.len() == found@.len(),
    decreases found,
{
    match found {
        Chain::Nil => {},
        Chain::Cons(_, tail) => lemma_gathered_branches(*tail),
    }
}

proof fn lemma_paired_branches(conds: Chain<HExpr>, bodies: Chain<Chain<HStmt>>)
    requires
        conds@.len() <= bodies@.len(),
    ensures
        pair_branches(conds, bodies).0@.len() == conds@.len(),
        pair_branches(conds, bodies).1@.len() == bodies@.len() - conds@.len(),
        forall|i: int| 0 <= i < conds@.len() ==> (#[trigger] pair_branches(conds, bodies).0@[i]).cond == conds@[i],
    decreases conds,
{
    match (conds, bodies) {
        (Chain::Cons(cond, conds_rest), Chain::Cons(body, bodies_rest)) => {
            lemma_paired_branches(*conds_rest, *bodies_rest);
            let rest = pair_branches(*conds_rest, *bodies_rest).0;
            let all = pair_branches(conds, bodies).0;
            assert forall|i: int| 0 <= i < conds@.len() implies (#[trigger] all@[i]).cond == conds@[i] by {
                if i > 0 {
                    assert(all@[i] == rest@[i - 1]);
                    assert(conds@[i] == conds_rest@[i - 1]);
                }
            }
        },
        _ => {},
    }
}

proof fn lemma_settled_branches(
    cx: &Ctx,
    st: Checker,
    branches: Chain<IfArm>,
    refinements: Chain<Option<Refinement>>,
    else_body: Option<Chain<Stmt>>,
    mode: BlockMode,
    entry: Option<CtorState>,
    span: Span,
)
    ensures
        settle_branches(cx, st, &branches, &refinements, &else_body, &mode, &entry, span).1 matches Ok(found) ==> found.found@.len()
            == body_count(branches, else_body) && all_there(found.found),
{
    reveal(branched);
    let defer = is_synth(&mode);
    lemma_branched(cx, st, branches, refinements, else_body, mode, entry, defer, span);
    let (next, first) = branched(cx, st, branches, refinements, else_body, mode, entry, defer, span);
    if let Ok(found) = settle_branches(cx, st, &branches, &refinements, &else_body, &mode, &entry, span).1 {
        if let Some(hint) = found.hint {
            lemma_branched(cx, next, branches, refinements, else_body, BlockMode::Value(hint), entry, false, span);
        }
    }
}

/// Whether a checked conditional has one branch for each written one, with
/// its condition, and an `else` exactly where one is written.
pub open spec fn conditional_kept(cx: &Ctx, branches: Chain<IfArm>, else_body: Option<Chain<Stmt>>, found: HExpr) -> bool {
    &&& *found.kind matches HKind::If { branches: kept, else_body: other }
    &&& kept@.len() == branches@.len()
    &&& other is Some <==> else_body is Some
    &&& forall|i: int| 0 <= i < kept@.len() ==> comes_from(cx, branches@[i].cond, (#[trigger] kept@[i]).cond)
}

/// A conditional keeps its branches in order. Where a value of a type other
/// than the unit type is expected, it has an `else`.
pub proof fn law_if(cx: &Ctx, st: Checker, branches: &Chain<IfArm>, else_body: &Option<Chain<Stmt>>, mode: &BlockMode, span: Span)
    ensures
        check_if(cx, st, branches, else_body, mode, span).1 matches Ok(found) ==> conditional_kept(cx, *branches, *else_body, found) && (
        *mode matches BlockMode::Value(ty) ==> found.ty == ty && (*else_body is Some || ty == Ty::Unit)),
{
    if let Ok(found) = check_if(cx, st, branches, else_body, mode, span).1 {
        let inner = branch_mode(mode, *else_body is Some);
        lemma_tested(cx, st, *branches);
        reveal(tested);
        let (next, first) = tested(cx, st, *branches);
        let conditions = first->Ok_0;
        lemma_settled_branches(cx, next, *branches, conditions.refinements, *else_body, inner, conditions.entry, span);
        let settled = settle_branches(cx, next, branches, &conditions.refinements, else_body, &inner, &conditions.entry, span).1->Ok_0;
        lemma_gathered_branches(settled.found);
        let bodies = gather_branches(settled.found).bodies;
        lemma_paired_branches(conditions.conds, bodies);
        let (kept, rest) = pair_branches(conditions.conds, bodies);
        assert(rest is Cons <==> rest@.len() > 0);
        assert forall|i: int| 0 <= i < kept@.len() implies comes_from(cx, branches@[i].cond, (#[trigger] kept@[i]).cond) by {
            assert(kept@[i].cond == conditions.conds@[i]);
        }
    }
}

} // verus!
