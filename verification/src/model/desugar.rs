//! Forms that are checked as other forms: `select` and postfix `?`.
//!
//! The functions here state what the functions of the same name compute.

use vstd::prelude::*;
use crate::ast::{CaseArm, Expr, ExprKind, Pattern, PatternKind, SelectArm, Span, Stmt, StmtKind, joined};
use crate::chain::{Chain, chain_of};
use crate::model::lists::{cons, one, two};

verus! {

/// A bare name.
pub open spec fn bare_name(name: &str, span: Span) -> Expr
{
    Expr { kind: Box::new(ExprKind::Name(chain_of(name@))), span: span }
}

/// A method call without type arguments.
pub open spec fn method_call(
    recv: Expr,
    name: &str,
    name_span: Span,
    args: Chain<Expr>,
    span: Span,
) -> Expr
{
    Expr { kind: Box::new(ExprKind::MethodCall { recv: recv, name: chain_of(name@), name_span: name_span, type_args: Chain::Nil, args: args }), span: span }
}

/// A constructor pattern with one part.
pub open spec fn wrap_pattern(inner: Pattern, family: &str, name: &str, span: Span) -> Pattern
{
    Pattern { kind: PatternKind::Ctor { qualifier: Some(chain_of(family@)), name: chain_of(name@), args: one(inner), has_parens: true }, span: span }
}

/// The two arms of postfix `?`: the value of `Ok`, and a return of `Err`.
pub open spec fn propagate_arms(span: Span) -> Chain<CaseArm>
{
    let ok_binding = Pattern { kind: PatternKind::Name(chain_of("__loom_propagated_value"@)), span: span };
    let err_binding = Pattern { kind: PatternKind::Name(chain_of("__loom_propagated_error"@)), span: span };
    let ok_body = Stmt { kind: StmtKind::Expr(bare_name("__loom_propagated_value", span)), span: span };
    let err_value = Expr { kind: Box::new(ExprKind::Call { name: chain_of("Err"@), name_span: span, type_args: Chain::Nil, args: one(bare_name("__loom_propagated_error", span)) }), span: span };
    let err_body = Stmt { kind: StmtKind::Return(Some(err_value)), span: span };
    two(
        CaseArm { pattern: wrap_pattern(ok_binding, "Result", "Ok", span), body: one(ok_body), span: span },
        CaseArm { pattern: wrap_pattern(err_binding, "Result", "Err", span), body: one(err_body), span: span },
    )
}

/// The wait for the first of several waits.
pub open spec fn choose_waits(combined: Expr, first: Span, rest: &Chain<SelectArm>) -> Expr
    decreases rest,
{
    match rest {
        Chain::Nil => combined,
        Chain::Cons(arm, tail) => choose_waits(method_call(combined, "choose", arm.wait.span, one(arm.wait), joined(first, arm.wait.span)), first, tail),
    }
}

/// The one wait of a selection.
pub open spec fn select_wait(first: &SelectArm, rest: &Chain<SelectArm>, span: Span) -> Expr
{
    method_call(choose_waits(first.wait, first.wait.span, rest), "wait", span, Chain::Nil, span)
}

/// A pattern inside `First` as often as given.
pub open spec fn wrap_first(pattern: Pattern, times: u32, span: Span) -> Pattern
    decreases times,
{
    if times == 0 {
        pattern
    } else {
        wrap_first(wrap_pattern(pattern, "Choice", "First", span), (times - 1) as u32, span)
    }
}

/// The nested `Choice` pattern of one selection arm.
pub open spec fn select_pattern(arm: &SelectArm, index: u32, total: u32) -> Pattern
{
    let kind = if (arm.binding@ == "_"@) { PatternKind::Wildcard } else { PatternKind::Name(arm.binding) };
    let pattern = Pattern { kind: kind, span: arm.binding_span };
    if index == 0 {
        wrap_first(pattern, if total == 0 { 0u32 } else { (total - 1) as u32 }, arm.span)
    } else {
        let second = wrap_pattern(pattern, "Choice", "Second", arm.span);
        wrap_first(second, if total > index && total - index > 1 { (total - index - 1) as u32 } else { 0u32 }, arm.span)
    }
}

/// The case arms of a selection.
pub open spec fn select_arms(arms: &Chain<SelectArm>, index: u32, total: u32) -> Chain<CaseArm>
    decreases arms,
{
    match arms {
        Chain::Nil => Chain::Nil,
        Chain::Cons(arm, tail) => {
            let first = CaseArm { pattern: select_pattern(arm, index, total), body: arm.body, span: arm.span };
            cons(first, select_arms(tail, index.wrapping_add(1), total))
        },
    }
}

} // verus!
