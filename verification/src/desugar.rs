//! Forms that are checked as other forms: `select` and postfix `?`.

use vstd::prelude::*;
use crate::ast::{CaseArm, Expr, ExprKind, Pattern, PatternKind, SelectArm, Span, Stmt, StmtKind, clone_stmts, joined};
use crate::chain::{Chain, copy_chain};
use crate::lists::{cons, one, two};
use crate::text::{is_text, text};
use crate::model;

verus! {

/// A bare name.
pub fn bare_name(name: &str, span: Span) -> (r: Expr)
    ensures
        r == model::desugar::bare_name(name, span),
{
    Expr { kind: Box::new(ExprKind::Name(text(name))), span: span }
}

/// A method call without type arguments.
pub fn method_call(
    recv: Expr,
    name: &str,
    name_span: Span,
    args: Chain<Expr>,
    span: Span,
) -> (r: Expr)
    ensures
        r == model::desugar::method_call(recv, name, name_span, args, span),
{
    Expr { kind: Box::new(ExprKind::MethodCall { recv: recv, name: text(name), name_span: name_span, type_args: Chain::Nil, args: args }), span: span }
}

/// A constructor pattern with one part.
pub fn wrap_pattern(inner: Pattern, family: &str, name: &str, span: Span) -> (r: Pattern)
    ensures
        r == model::desugar::wrap_pattern(inner, family, name, span),
{
    Pattern { kind: PatternKind::Ctor { qualifier: Some(text(family)), name: text(name), args: one(inner), has_parens: true }, span: span }
}

/// The two arms of postfix `?`: the value of `Ok`, and a return of `Err`.
pub fn propagate_arms(span: Span) -> (r: Chain<CaseArm>)
    ensures
        r == model::desugar::propagate_arms(span),
{
    let ok_binding = Pattern { kind: PatternKind::Name(text("__loom_propagated_value")), span: span };
    let err_binding = Pattern { kind: PatternKind::Name(text("__loom_propagated_error")), span: span };
    let ok_body = Stmt { kind: StmtKind::Expr(bare_name("__loom_propagated_value", span)), span: span };
    let err_value = Expr { kind: Box::new(ExprKind::Call { name: text("Err"), name_span: span, type_args: Chain::Nil, args: one(bare_name("__loom_propagated_error", span)) }), span: span };
    let err_body = Stmt { kind: StmtKind::Return(Some(err_value)), span: span };
    two(
        CaseArm { pattern: wrap_pattern(ok_binding, "Result", "Ok", span), body: one(ok_body), span: span },
        CaseArm { pattern: wrap_pattern(err_binding, "Result", "Err", span), body: one(err_body), span: span },
    )
}

/// The wait for the first of several waits.
pub fn choose_waits(combined: Expr, first: Span, rest: &Chain<SelectArm>) -> (r: Expr)
    ensures
        r == model::desugar::choose_waits(combined, first, rest),
    decreases rest,
{
    match rest {
        Chain::Nil => combined,
        Chain::Cons(arm, tail) => choose_waits(method_call(combined, "choose", arm.wait.span, one(arm.wait.clone()), joined(first, arm.wait.span)), first, tail),
    }
}

/// The one wait of a selection.
pub fn select_wait(first: &SelectArm, rest: &Chain<SelectArm>, span: Span) -> (r: Expr)
    ensures
        r == model::desugar::select_wait(first, rest, span),
{
    method_call(choose_waits(first.wait.clone(), first.wait.span, rest), "wait", span, Chain::Nil, span)
}

/// A pattern inside `First` as often as given.
pub fn wrap_first(pattern: Pattern, times: u32, span: Span) -> (r: Pattern)
    ensures
        r == model::desugar::wrap_first(pattern, times, span),
    decreases times,
{
    if times == 0 {
        pattern
    } else {
        wrap_first(wrap_pattern(pattern, "Choice", "First", span), (times - 1) as u32, span)
    }
}

/// The nested `Choice` pattern of one selection arm.
pub fn select_pattern(arm: &SelectArm, index: u32, total: u32) -> (r: Pattern)
    ensures
        r == model::desugar::select_pattern(arm, index, total),
{
    let kind = if is_text(&arm.binding, "_") { PatternKind::Wildcard } else { PatternKind::Name(copy_chain(&arm.binding)) };
    let pattern = Pattern { kind: kind, span: arm.binding_span };
    if index == 0 {
        wrap_first(pattern, if total == 0 { 0u32 } else { (total - 1) as u32 }, arm.span)
    } else {
        let second = wrap_pattern(pattern, "Choice", "Second", arm.span);
        wrap_first(second, if total > index && total - index > 1 { (total - index - 1) as u32 } else { 0u32 }, arm.span)
    }
}

/// The case arms of a selection.
pub fn select_arms(arms: &Chain<SelectArm>, index: u32, total: u32) -> (r: Chain<CaseArm>)
    ensures
        r == model::desugar::select_arms(arms, index, total),
    decreases arms,
{
    match arms {
        Chain::Nil => Chain::Nil,
        Chain::Cons(arm, tail) => {
            let first = CaseArm { pattern: select_pattern(arm, index, total), body: clone_stmts(&arm.body), span: arm.span };
            cons(first, select_arms(tail, index.wrapping_add(1), total))
        },
    }
}

} // verus!
