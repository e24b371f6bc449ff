//! Answers to the questions that the rules do not decide themselves.

use vstd::prelude::*;
use crate::ast::Span;
use crate::chain::{Chain, copy_chain};
use crate::context::{APat, Answer, ArmShape, ClassInfo, Ctx, Known, Query, Question, clone_a_pats, clone_class_metas, same_query};
use crate::hir::HExpr;
use crate::lists::{cons, count, one};
use crate::lookup::{class_at, family_of};
use crate::problem::{Diag, Problem, Stop};
use crate::text::text;
use crate::types::{Row, Ty};
use crate::model;

verus! {

/// The answer to one question, where it is known.
pub fn recall<'a>(known: &'a Chain<Known>, query: &Query) -> (r: Option<&'a Answer>)
    ensures
        r == model::answers::recall(known, query),
    decreases known,
{
    match known {
        Chain::Nil => None,
        Chain::Cons(head, tail) => {
            if same_query(&head.query, &*query) {
                Some(&head.answer)
            } else {
                recall(tail, query)
            }
        },
    }
}

/// The arms of the enum of a class, or the class alone.
pub fn family_arms(cx: &Ctx, class: u32) -> (r: Chain<u32>)
    ensures
        r == model::answers::family_arms(cx, class),
{
    match family_of(cx, class) {
        Some(family) => copy_chain(&class_at(cx, family).arms),
        None => one(class),
    }
}

/// What the coverage analysis knows of each class.
pub fn arm_shapes(cx: &Ctx, classes: &Chain<ClassInfo>, at: u32) -> (r: Chain<ArmShape>)
    ensures
        r == model::answers::arm_shapes(cx, classes, at),
    decreases classes,
{
    match classes {
        Chain::Nil => Chain::Nil,
        Chain::Cons(head, tail) => cons(ArmShape { fields: count(&head.field_tys), arms: family_arms(cx, at) }, arm_shapes(cx, tail, at.wrapping_add(1))),
    }
}

/// A question on the tables of a module.
pub fn question(cx: &Ctx, query: Query) -> (r: Question)
    ensures
        r == model::answers::question(cx, query),
{
    Question { query: query, metas: clone_class_metas(&cx.metas), natives: cx.natives.clone(), shapes: arm_shapes(cx, &cx.classes, 0u32) }
}

/// The answer to a yes-or-no question.
pub fn yes_or_no(cx: &Ctx, query: Query) -> (r: Result<bool, Stop>)
    ensures
        r == model::answers::yes_or_no(cx, query),
{
    match recall(&cx.answers, &query) {
        Some(Answer::Yes) => Ok(true),
        Some(Answer::No) => Ok(false),
        _ => Err(Stop::Ask(question(cx, query))),
    }
}

/// Whether a value of the type `found` can stand where the type
/// `expected` is asked for.
pub fn compatible(cx: &Ctx, expected: &Ty, found: &Ty) -> (r: Result<bool, Stop>)
    ensures
        r == model::answers::compatible(cx, expected, found),
{
    yes_or_no(cx, Query::Compatible((*expected).clone(), (*found).clone()))
}

/// The least type above two types, where there is one.
pub fn join(cx: &Ctx, first: &Ty, second: &Ty) -> (r: Result<Option<Ty>, Stop>)
    ensures
        r == model::answers::join(cx, first, second),
{
    let query = Query::Join((*first).clone(), (*second).clone());
    match recall(&cx.answers, &query) {
        Some(Answer::Joined(ty)) => Ok(Some((*ty).clone())),
        Some(Answer::No) => Ok(None),
        _ => Err(Stop::Ask(question(cx, query))),
    }
}

/// Whether one effect row is inside another.
pub fn row_included(cx: &Ctx, row: &Row, within: &Row) -> (r: Result<bool, Stop>)
    ensures
        r == model::answers::row_included(cx, row, within),
{
    yes_or_no(cx, Query::RowIncluded(copy_chain(&*row), copy_chain(&*within)))
}

/// Whether the values of a type live on the heap.
pub fn is_heap(cx: &Ctx, ty: &Ty) -> (r: Result<bool, Stop>)
    ensures
        r == model::answers::is_heap(cx, ty),
{
    yes_or_no(cx, Query::IsHeap((*ty).clone()))
}

/// Whether a built-in type never leaves its holder.
pub fn is_holder_local(cx: &Ctx, ty: &Ty) -> (r: Result<bool, Stop>)
    ensures
        r == model::answers::is_holder_local(cx, ty),
{
    yes_or_no(cx, Query::HolderLocal((*ty).clone()))
}

/// Whether a pattern matches a value that no earlier pattern matches,
/// and how much of the work limit is left. `None` when the analysis
/// exceeds the limit.
pub fn useful(cx: &Ctx, earlier: &Chain<APat>, pattern: &APat, budget: u64) -> (r: Result<Option<(bool, u64)>, Stop>)
    ensures
        r == model::answers::useful(cx, earlier, pattern, budget),
{
    let query = Query::Useful(clone_a_pats(&*earlier), (*pattern).clone(), budget);
    match recall(&cx.answers, &query) {
        Some(Answer::Weighed(found, left)) => Ok(Some((*found, *left))),
        Some(Answer::OverBudget) => Ok(None),
        _ => Err(Stop::Ask(question(cx, query))),
    }
}

/// Require that a change of a value leaves what the loops around it walk
/// as it is.
pub fn unchanged_walk(cx: &Ctx, walked: Chain<HExpr>, value: &HExpr, span: Span) -> (r: Result<(), Stop>)
    ensures
        r == model::answers::unchanged_walk(cx, walked, value, span),
{
    let query = Query::Changes(walked, (*value).clone());
    match recall(&cx.answers, &query) {
        Some(Answer::No) => Ok(()),
        Some(Answer::Refused(code)) => Err(Stop::Fail(Diag { problem: Problem::WalkedChanged { code: copy_chain(&*code) }, subject: Chain::Nil, span: span })),
        _ => Err(Stop::Ask(question(cx, query))),
    }
}

/// The type that stands for a type that the core does not declare.
pub fn omitted_type(cx: &Ctx, name: &str) -> (r: Result<Ty, Stop>)
    ensures
        r == model::answers::omitted_type(cx, name),
{
    let query = Query::Omitted(text(name));
    match recall(&cx.answers, &query) {
        Some(Answer::Joined(ty)) => Ok((*ty).clone()),
        _ => Err(Stop::Ask(question(cx, query))),
    }
}

} // verus!
