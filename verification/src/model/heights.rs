//! Heights of syntax trees: the measure by which checking an expression
//! ends. Two forms are checked as other forms, which their heights
//! allow for.

use vstd::prelude::*;
use crate::ast::{CaseArm, Expr, ExprKind, IfArm, InterpPart, MapEntry, SelectArm, Span, Stmt, StmtKind};
use crate::chain::Chain;
use crate::model::lists::one;
use crate::model::desugar::{choose_waits, propagate_arms, select_arms, select_wait};

verus! {

pub open spec fn h_expr(e: &Expr) -> nat
    decreases e,
{
    match &*e.kind {
        ExprKind::Interp(parts) => 1 + h_parts(parts),
        ExprKind::Not(e) => 1 + h_expr(e),
        ExprKind::Neg(e) => 1 + h_expr(e),
        ExprKind::Invert(e) => 1 + h_expr(e),
        ExprKind::Binary { op: _, left, right } => 3 + h_expr(left) + h_expr(right),
        ExprKind::And(left, right) => 1 + h_expr(left) + h_expr(right),
        ExprKind::Or(left, right) => 1 + h_expr(left) + h_expr(right),
        ExprKind::Is { value, ty: _ } => 1 + h_expr(value),
        ExprKind::Cast { value, ty: _ } => 1 + h_expr(value),
        ExprKind::Call { name: _, name_span: _, type_args: _, args } => 1 + h_exprs(args),
        ExprKind::CallExpr { callee, args } => 1 + h_expr(callee) + h_exprs(args),
        ExprKind::Field { recv, name: _, name_span: _ } => 1 + h_expr(recv),
        ExprKind::MethodCall { recv, name: _, name_span: _, type_args: _, args } => 1 + h_expr(recv) + h_exprs(args),
        ExprKind::SuperCall { name: _, name_span: _, args } => 1 + h_exprs(args),
        ExprKind::Index { recv, index } => 1 + h_expr(recv) + h_expr(index),
        ExprKind::Propagate(e) => 33 + h_expr(e),
        ExprKind::TupleLit(items) => 1 + h_exprs(items),
        ExprKind::ListLit(items) => 1 + h_exprs(items),
        ExprKind::MapLit(entries) => 1 + h_entries(entries),
        ExprKind::Closure { params: _, ret: _, row: _, body } => 1 + h_stmts(body),
        ExprKind::If { branches, else_body } => 1 + h_branches(branches) + h_else(else_body),
        ExprKind::Case { scrut, arms } => 1 + h_expr(scrut) + h_arms(arms),
        ExprKind::Select(arms) => 3 + h_waits(arms) + h_bodies(arms),
        ExprKind::Loop(body) => 1 + h_stmts(body),
        ExprKind::Labeled { label: _, value } => 1 + h_expr(value),
        _ => 1,
    }
}

pub open spec fn h_exprs(items: &Chain<Expr>) -> nat
    decreases items,
{
    match items {
        Chain::Nil => 0,
        Chain::Cons(head, tail) => 1 + h_expr(head) + h_exprs(tail),
    }
}

pub open spec fn h_parts(items: &Chain<InterpPart>) -> nat
    decreases items,
{
    match items {
        Chain::Nil => 0,
        Chain::Cons(head, tail) => 1 + h_parts(tail) + match &**head {
            InterpPart::Lit(_) => 0,
            InterpPart::Value(e) => h_expr(e),
        },
    }
}

pub open spec fn h_entries(items: &Chain<MapEntry>) -> nat
    decreases items,
{
    match items {
        Chain::Nil => 0,
        Chain::Cons(head, tail) => 1 + h_expr(&head.key) + h_expr(&head.value) + h_entries(tail),
    }
}

pub open spec fn h_branches(items: &Chain<IfArm>) -> nat
    decreases items,
{
    match items {
        Chain::Nil => 0,
        Chain::Cons(head, tail) => 1 + h_expr(&head.cond) + h_stmts(&head.body) + h_branches(tail),
    }
}

pub open spec fn h_else(body: &Option<Chain<Stmt>>) -> nat
    decreases body,
{
    match body {
        Some(stmts) => 1 + h_stmts(stmts),
        None => 0,
    }
}

pub open spec fn h_arm(arm: &CaseArm) -> nat {
    1 + h_stmts(&arm.body)
}

pub open spec fn h_arms(items: &Chain<CaseArm>) -> nat
    decreases items,
{
    match items {
        Chain::Nil => 0,
        Chain::Cons(head, tail) => 2 + h_stmts(&head.body) + h_arms(tail),
    }
}

/// The height of the waits of a selection.
pub open spec fn h_waits(items: &Chain<SelectArm>) -> nat
    decreases items,
{
    match items {
        Chain::Nil => 0,
        Chain::Cons(head, tail) => 2 + h_expr(&head.wait) + h_waits(tail),
    }
}

/// The height of the bodies of a selection.
pub open spec fn h_bodies(items: &Chain<SelectArm>) -> nat
    decreases items,
{
    match items {
        Chain::Nil => 0,
        Chain::Cons(head, tail) => 2 + h_stmts(&head.body) + h_bodies(tail),
    }
}

pub open spec fn h_optional(e: &Option<Expr>) -> nat
    decreases e,
{
    match e {
        Some(value) => 1 + h_expr(value),
        None => 0,
    }
}

pub open spec fn h_stmt(s: &Stmt) -> nat
    decreases s,
{
    match &s.kind {
        StmtKind::Assign { name: _, name_span: _, ty: _, value } => 1 + h_expr(value),
        StmtKind::AssignField { recv, field: _, field_span: _, value } => 1 + h_expr(recv) + h_expr(value),
        StmtKind::While { cond, body } => 1 + h_expr(cond) + h_stmts(body),
        StmtKind::For { bindings: _, value, body } => 1 + h_expr(value) + h_stmts(body),
        StmtKind::Return(value) => 1 + h_optional(value),
        StmtKind::Break(value) => 1 + h_optional(value),
        StmtKind::Continue => 1,
        StmtKind::Expr(e) => 1 + h_expr(e),
    }
}

pub open spec fn h_stmts(items: &Chain<Stmt>) -> nat
    decreases items,
{
    match items {
        Chain::Nil => 0,
        Chain::Cons(head, tail) => 1 + h_stmt(head) + h_stmts(tail),
    }
}

/// The height of a list of one expression.
pub proof fn lemma_one(e: Expr)
    ensures
        h_exprs(&one(e)) == 1 + h_expr(&e),
{
    reveal_with_fuel(h_exprs, 3);
}

/// The arms of postfix `?` are low.
pub proof fn lemma_propagate_arms(span: Span)
    ensures
        h_arms(&propagate_arms(span)) <= 24,
{
    reveal_with_fuel(h_arms, 12);
    reveal_with_fuel(h_stmts, 12);
    reveal_with_fuel(h_stmt, 12);
    reveal_with_fuel(h_optional, 12);
    reveal_with_fuel(h_expr, 12);
    reveal_with_fuel(h_exprs, 12);
}

proof fn lemma_choose_waits(combined: Expr, first: Span, rest: &Chain<SelectArm>)
    ensures
        h_expr(&choose_waits(combined, first, rest)) == h_expr(&combined) + h_waits(rest),
    decreases rest,
{
    reveal_with_fuel(h_expr, 4);
    reveal_with_fuel(h_exprs, 4);
    match rest {
        Chain::Nil => {},
        Chain::Cons(arm, tail) => {
            let next = crate::model::desugar::method_call(combined, "choose", arm.wait.span, crate::model::lists::one(arm.wait), crate::ast::joined(first, arm.wait.span));
            lemma_choose_waits(next, first, tail);
        },
    }
}

proof fn lemma_select_arms(arms: &Chain<SelectArm>, index: u32, total: u32)
    ensures
        h_arms(&select_arms(arms, index, total)) == h_bodies(arms),
    decreases arms,
{
    reveal_with_fuel(h_arms, 3);
    match arms {
        Chain::Nil => {},
        Chain::Cons(arm, tail) => {
            lemma_select_arms(tail, index.wrapping_add(1), total);
        },
    }
}

/// The case that stands for a selection is lower than the selection.
pub proof fn lemma_select(first: &SelectArm, rest: &Chain<SelectArm>, arms: &Chain<SelectArm>, total: u32, span: Span)
    requires
        *arms == Chain::Cons(Box::new(*first), Box::new(*rest)),
    ensures
        h_expr(&select_wait(first, rest, span)) + h_arms(&select_arms(arms, 0, total)) < 2 + h_waits(arms) + h_bodies(arms),
{
    reveal_with_fuel(h_expr, 3);
    reveal_with_fuel(h_exprs, 3);
    lemma_choose_waits(first.wait, first.wait.span, rest);
    lemma_select_arms(arms, 0, total);
}

} // verus!
