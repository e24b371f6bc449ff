//! Whether checked code completes.
//!
//! The functions here state what the functions of the same name compute.

use vstd::prelude::*;
use crate::chain::Chain;
use crate::hir::{HArm, HEntry, HExpr, HIfArm, HKind, HPart, HReflectArm, HStmt};
use crate::types::Ty;

verus! {

/// Whether an expression of a list breaks out.
pub open spec fn any_breaks(items: &Chain<HExpr>) -> bool
    decreases items,
{
    match items {
        Chain::Nil => false,
        Chain::Cons(head, tail) => breaks_out(head) || any_breaks(tail),
    }
}

/// Whether an entry breaks out.
pub open spec fn entries_break(items: &Chain<HEntry>) -> bool
    decreases items,
{
    match items {
        Chain::Nil => false,
        Chain::Cons(head, tail) => breaks_out(&head.key) || breaks_out(&head.value) || entries_break(tail),
    }
}

/// Whether a part breaks out.
pub open spec fn parts_break(items: &Chain<HPart>) -> bool
    decreases items,
{
    match items {
        Chain::Nil => false,
        Chain::Cons(head, tail) => {
            let first = match &**head {
                HPart::Lit(_) => false,
                HPart::Value(value) => breaks_out(value),
            };
            first || parts_break(tail)
        },
    }
}

/// Whether a branch breaks out.
pub open spec fn branches_break(items: &Chain<HIfArm>) -> bool
    decreases items,
{
    match items {
        Chain::Nil => false,
        Chain::Cons(head, tail) => breaks_out(&head.cond) || body_breaks(&head.body) || branches_break(tail),
    }
}

/// Whether an arm breaks out.
pub open spec fn arms_break(items: &Chain<HArm>) -> bool
    decreases items,
{
    match items {
        Chain::Nil => false,
        Chain::Cons(head, tail) => body_breaks(&head.body) || arms_break(tail),
    }
}

/// Whether a reflection arm breaks out.
pub open spec fn refined_break(items: &Chain<HReflectArm>) -> bool
    decreases items,
{
    match items {
        Chain::Nil => false,
        Chain::Cons(head, tail) => body_breaks(&head.body) || refined_break(tail),
    }
}

/// Whether an optional expression breaks out.
pub open spec fn optional_breaks(item: &Option<HExpr>) -> bool
    decreases item,
{
    match item {
        Some(value) => breaks_out(value),
        None => false,
    }
}

/// Whether an optional body breaks out.
pub open spec fn optional_body_breaks(item: &Option<Chain<HStmt>>) -> bool
    decreases item,
{
    match item {
        Some(body) => body_breaks(body),
        None => false,
    }
}

/// Whether an expression holds a break of the loop around it.
pub open spec fn breaks_out(expr: &HExpr) -> bool
    decreases expr,
{
    match &*expr.kind {
        HKind::Interp(parts) => parts_break(parts),
        HKind::Call { func: _, targs: _, rowargs: _, args } => any_breaks(args),
        HKind::CallValue { callee, args } => breaks_out(callee) || any_breaks(args),
        HKind::MethodCall { recv, selector: _, generic_owner: _, own_targs: _, own_rowargs: _, args } => breaks_out(recv) || any_breaks(args),
        HKind::InterfaceCall { recv, interface: _, method: _, selector: _, own_targs: _, own_rowargs: _, args } => breaks_out(recv) || any_breaks(args),
        HKind::Construct { class: _, targs: _, args } => any_breaks(args),
        HKind::Native { op: _, args } => any_breaks(args),
        HKind::Intrinsic { slot: _, args } => any_breaks(args),
        HKind::Perform { op: _, args } => any_breaks(args),
        HKind::And(left, right) => breaks_out(left) || breaks_out(right),
        HKind::Or(left, right) => breaks_out(left) || breaks_out(right),
        HKind::Binary { op: _, operand_ty: _, left, right } => breaks_out(left) || breaks_out(right),
        HKind::IsType { value, ty: _ } => breaks_out(value),
        HKind::CastType { value, ty: _ } => breaks_out(value),
        HKind::FieldGet { recv, field: _ } => breaks_out(recv),
        HKind::TupleLit(items) => any_breaks(items),
        HKind::ListLit(items) => any_breaks(items),
        HKind::MapLit(entries) => entries_break(entries),
        HKind::TupleGet { tuple, index: _ } => breaks_out(tuple),
        HKind::If { branches, else_body } => branches_break(branches) || optional_body_breaks(else_body),
        HKind::Case { scrut, scrut_slot: _, arms } => breaks_out(scrut) || arms_break(arms),
        HKind::ReflectCase { scrut, scrut_slot: _, refined, fallback } => breaks_out(scrut) || refined_break(refined) || body_breaks(fallback),
        HKind::TableEdit { action: _, target: _, entry: _, table, mock } => breaks_out(table) || optional_breaks(mock),
        HKind::CallArgs(call) => breaks_out(call),
        HKind::RequestOpName(request) => breaks_out(request),
        HKind::FaultCodeGet(fault) => breaks_out(fault),
        HKind::FaultDenied(reason) => breaks_out(reason),
        HKind::Spawn { class: _, body: _, ctor_ty: _, body_ty: _, args } => any_breaks(args),
        _ => false,
    }
}

/// Whether a statement holds a break of the loop around it.
pub open spec fn stmt_breaks(stmt: &HStmt) -> bool
    decreases stmt,
{
    match stmt {
        HStmt::Assign { slot: _, value } => breaks_out(value),
        HStmt::AssignField { recv, field: _, value } => breaks_out(recv) || breaks_out(value),
        HStmt::While { cond, body: _ } => breaks_out(cond),
        HStmt::For { source, bindings: _, kind: _, body: _ } => breaks_out(source),
        HStmt::Return(value) => optional_breaks(value),
        HStmt::Break(_) => true,
        HStmt::Continue => false,
        HStmt::Expr(value) => breaks_out(value),
    }
}

/// Whether a body holds a break of the loop around it.
pub open spec fn body_breaks(body: &Chain<HStmt>) -> bool
    decreases body,
{
    match body {
        Chain::Nil => false,
        Chain::Cons(head, tail) => stmt_breaks(head) || body_breaks(tail),
    }
}

/// Whether every branch diverges.
pub open spec fn branches_diverge(items: &Chain<HIfArm>) -> bool
    decreases items,
{
    match items {
        Chain::Nil => true,
        Chain::Cons(head, tail) => body_diverges(&head.body) && branches_diverge(tail),
    }
}

/// Whether every arm diverges.
pub open spec fn arms_diverge(items: &Chain<HArm>) -> bool
    decreases items,
{
    match items {
        Chain::Nil => true,
        Chain::Cons(head, tail) => body_diverges(&head.body) && arms_diverge(tail),
    }
}

/// Whether every reflection arm diverges.
pub open spec fn refined_diverge(items: &Chain<HReflectArm>) -> bool
    decreases items,
{
    match items {
        Chain::Nil => true,
        Chain::Cons(head, tail) => body_diverges(&head.body) && refined_diverge(tail),
    }
}

/// Whether an expression never completes: its type says so, or every
/// branch of it diverges.
pub open spec fn never_completes(expr: &HExpr) -> bool
    decreases expr,
{
    (expr.ty == Ty::Never) || match &*expr.kind {
        HKind::If { branches, else_body: Some(other) } => branches_diverge(branches) && body_diverges(other),
        HKind::Case { scrut: _, scrut_slot: _, arms } => !arms.is_empty() && arms_diverge(arms),
        HKind::ReflectCase { scrut: _, scrut_slot: _, refined, fallback } => refined_diverge(refined) && body_diverges(fallback),
        _ => false,
    }
}

/// Whether a condition is the literal `true`.
pub open spec fn always_true(cond: &HExpr) -> bool
{
    match &*cond.kind {
        HKind::Bool(value) => *value,
        _ => false,
    }
}

/// Whether no statement behind this one can run.
pub open spec fn diverges(stmt: &HStmt) -> bool
    decreases stmt,
{
    match stmt {
        HStmt::Return(_) => true,
        HStmt::Break(_) => true,
        HStmt::Continue => true,
        HStmt::Expr(value) => never_completes(value),
        HStmt::While { cond, body } => always_true(cond) && !body_breaks(body),
        _ => false,
    }
}

/// Whether a body ends in a statement that diverges.
pub open spec fn body_diverges(body: &Chain<HStmt>) -> bool
    decreases body,
{
    match body {
        Chain::Nil => false,
        Chain::Cons(head, tail) => {
            if tail.is_empty() {
                diverges(head)
            } else {
                body_diverges(tail)
            }
        },
    }
}

} // verus!
