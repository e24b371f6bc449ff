//! What a check against an expected type promises of its result.

use vstd::prelude::*;
use crate::chain::Chain;
use crate::context::Ctx;
use crate::hir::{HExpr, HStmt};
use crate::model::answers::compatible;
use crate::model::endings::diverges;
use crate::model::lists::one;
use crate::problem::Stop;
use crate::state::{Block, BlockMode};
use crate::types::Ty;

verus! {

/// Whether a value of one type stands where another is expected: it has
/// that type, it is known to be compatible, or it never exists.
pub open spec fn fits(cx: &Ctx, expected: Ty, found: Ty) -> bool {
    found == expected || found is Never || compatible(cx, &expected, &found) == Ok::<bool, Stop>(true)
}

/// Whether a checked expression, where there is one, fits a type.
pub open spec fn fits_as(cx: &Ctx, expected: Ty, result: Result<HExpr, Stop>) -> bool {
    result matches Ok(found) ==> fits(cx, expected, found.ty)
}

/// Whether a checked expression fits the type that its mode expects.
pub open spec fn fits_mode(cx: &Ctx, mode: BlockMode, result: Result<HExpr, Stop>) -> bool {
    mode matches BlockMode::Value(expected) ==> fits_as(cx, expected, result)
}

/// Whether every expression of a list fits one type.
pub open spec fn all_fit(cx: &Ctx, expected: Ty, items: Chain<HExpr>) -> bool
    decreases items,
{
    match items {
        Chain::Nil => true,
        Chain::Cons(head, tail) => fits(cx, expected, head.ty) && all_fit(cx, expected, *tail),
    }
}

/// Whether the expressions of a list fit the types of another, one by one.
pub open spec fn each_fits(cx: &Ctx, expected: Chain<Ty>, items: Chain<HExpr>) -> bool
    decreases items,
{
    match (expected, items) {
        (Chain::Cons(ty, tys), Chain::Cons(head, tail)) => fits(cx, *ty, head.ty) && each_fits(cx, *tys, *tail),
        _ => true,
    }
}

/// Whether a statement gives a value of a type, never completes, or needs
/// to give none.
pub open spec fn gives(cx: &Ctx, expected: Ty, stmt: HStmt) -> bool {
    match stmt {
        HStmt::Expr(value) => fits(cx, expected, value.ty),
        _ => diverges(&stmt) || expected is Unit,
    }
}

/// Whether the last statement of a body gives a value of a type.
pub open spec fn body_gives(cx: &Ctx, expected: Ty, body: Chain<HStmt>) -> bool
    decreases body,
{
    match body {
        Chain::Nil => expected is Unit,
        Chain::Cons(head, tail) => match *tail {
            Chain::Nil => gives(cx, expected, *head),
            Chain::Cons(_, _) => body_gives(cx, expected, *tail),
        },
    }
}

/// Whether no statement of a body stands behind one that never completes.
pub open spec fn reachable(body: Chain<HStmt>) -> bool
    decreases body,
{
    match body {
        Chain::Nil => true,
        Chain::Cons(head, tail) => reachable(*tail) && (*tail is Cons ==> !diverges(&*head)),
    }
}

/// A body of one statement.
pub proof fn lemma_one_stmt(stmt: HStmt)
    ensures
        reachable(one(stmt)),
        forall|cx: &Ctx, expected: Ty| #[trigger] body_gives(cx, expected, one(stmt)) == gives(cx, expected, stmt),
{
    reveal_with_fuel(reachable, 3);
    reveal_with_fuel(body_gives, 3);
}

/// What a checked block promises: each statement is reachable, and in a
/// value mode the block has the expected type and its last statement gives
/// a value of it.
pub open spec fn block_fits(cx: &Ctx, mode: BlockMode, result: Result<Block, Stop>) -> bool {
    result matches Ok(block) ==> {
        &&& reachable(block.body)
        &&& mode matches BlockMode::Value(expected) ==> block.ty == expected && body_gives(cx, expected, block.body)
    }
}

} // verus!
