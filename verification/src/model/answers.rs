//! Answers to the questions that the rules do not decide themselves.
//!
//! The functions here state what the functions of the same name compute.

use vstd::prelude::*;
use crate::ast::Span;
use crate::chain::{Chain, chain_of};
use crate::context::{APat, Answer, ArmShape, ClassInfo, Ctx, Known, Query, Question};
use crate::hir::HExpr;
use crate::model::lists::{cons, count, one};
use crate::model::lookup::{class_at, family_of};
use crate::problem::{Diag, Problem, Stop};
use crate::types::{Row, Ty};

verus! {

/// The answer to one question, where it is known.
pub open spec fn recall<'a>(known: &'a Chain<Known>, query: &Query) -> Option<&'a Answer>
    decreases known,
{
    match known {
        Chain::Nil => None,
        Chain::Cons(head, tail) => {
            if (head.query == *query) {
                Some(&head.answer)
            } else {
                recall(tail, query)
            }
        },
    }
}

/// The arms of the enum of a class, or the class alone.
pub open spec fn family_arms(cx: &Ctx, class: u32) -> Chain<u32>
{
    match family_of(cx, class) {
        Some(family) => class_at(cx, family).arms,
        None => one(class),
    }
}

/// What the coverage analysis knows of each class.
pub open spec fn arm_shapes(cx: &Ctx, classes: &Chain<ClassInfo>, at: u32) -> Chain<ArmShape>
    decreases classes,
{
    match classes {
        Chain::Nil => Chain::Nil,
        Chain::Cons(head, tail) => cons(ArmShape { fields: count(&head.field_tys), arms: family_arms(cx, at) }, arm_shapes(cx, tail, at.wrapping_add(1))),
    }
}

/// A question on the tables of a module.
pub open spec fn question(cx: &Ctx, query: Query) -> Question
{
    Question { query: query, metas: cx.metas, natives: cx.natives, shapes: arm_shapes(cx, &cx.classes, 0u32) }
}

/// The answer to a yes-or-no question.
pub open spec fn yes_or_no(cx: &Ctx, query: Query) -> Result<bool, Stop>
{
    match recall(&cx.answers, &query) {
        Some(Answer::Yes) => Ok(true),
        Some(Answer::No) => Ok(false),
        _ => Err(Stop::Ask(question(cx, query))),
    }
}

/// Whether a value of the type `found` can stand where the type
/// `expected` is asked for.
pub open spec fn compatible(cx: &Ctx, expected: &Ty, found: &Ty) -> Result<bool, Stop>
{
    yes_or_no(cx, Query::Compatible(*expected, *found))
}

/// The least type above two types, where there is one.
pub open spec fn join(cx: &Ctx, first: &Ty, second: &Ty) -> Result<Option<Ty>, Stop>
{
    let query = Query::Join(*first, *second);
    match recall(&cx.answers, &query) {
        Some(Answer::Joined(ty)) => Ok(Some(*ty)),
        Some(Answer::No) => Ok(None),
        _ => Err(Stop::Ask(question(cx, query))),
    }
}

/// Whether one effect row is inside another.
pub open spec fn row_included(cx: &Ctx, row: &Row, within: &Row) -> Result<bool, Stop>
{
    yes_or_no(cx, Query::RowIncluded(*row, *within))
}

/// Whether the values of a type live on the heap.
pub open spec fn is_heap(cx: &Ctx, ty: &Ty) -> Result<bool, Stop>
{
    yes_or_no(cx, Query::IsHeap(*ty))
}

/// Whether a built-in type never leaves its holder.
pub open spec fn is_holder_local(cx: &Ctx, ty: &Ty) -> Result<bool, Stop>
{
    yes_or_no(cx, Query::HolderLocal(*ty))
}

/// Whether a pattern matches a value that no earlier pattern matches,
/// and how much of the work limit is left. `None` when the analysis
/// exceeds the limit.
pub open spec fn useful(cx: &Ctx, earlier: &Chain<APat>, pattern: &APat, budget: u64) -> Result<Option<(bool, u64)>, Stop>
{
    let query = Query::Useful(*earlier, *pattern, budget);
    match recall(&cx.answers, &query) {
        Some(Answer::Weighed(found, left)) => Ok(Some((*found, *left))),
        Some(Answer::OverBudget) => Ok(None),
        _ => Err(Stop::Ask(question(cx, query))),
    }
}

/// Require that a change of a value leaves what the loops around it walk
/// as it is.
pub open spec fn unchanged_walk(cx: &Ctx, walked: Chain<HExpr>, value: &HExpr, span: Span) -> Result<(), Stop>
{
    let query = Query::Changes(walked, *value);
    match recall(&cx.answers, &query) {
        Some(Answer::No) => Ok(()),
        Some(Answer::Refused(code)) => Err(Stop::Fail(Diag { problem: Problem::WalkedChanged { code: *code }, subject: Chain::Nil, span: span })),
        _ => Err(Stop::Ask(question(cx, query))),
    }
}

/// The type that stands for a type that the core does not declare.
pub open spec fn omitted_type(cx: &Ctx, name: &str) -> Result<Ty, Stop>
{
    let query = Query::Omitted(chain_of(name@));
    match recall(&cx.answers, &query) {
        Some(Answer::Joined(ty)) => Ok(*ty),
        _ => Err(Stop::Ask(question(cx, query))),
    }
}

} // verus!
