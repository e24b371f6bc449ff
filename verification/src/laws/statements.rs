//! Statements: each is checked as what it is written to be.

use vstd::prelude::*;
use crate::ast::{Expr, LoopBinding, Span, Stmt, StmtKind, TypeExpr};
use crate::chain::Chain;
use crate::context::Ctx;
use crate::hir::{HExpr, HForKind, HStmt};
use crate::laws::capabilities::{law_assign_ctor_field, law_assign_field};
use crate::laws::lists::law_count;
use crate::laws::operators::{checking, lemma_two, synthesis};
use crate::model::blocks::{bind_loop, check_assign, check_assign_field, check_block, check_break, check_declare, check_for, check_last, check_rebind, check_return, check_returned, check_stmt, check_tail, check_value_break, check_while, for_bindings, iterate, iterate_range, tail_mutable, tail_type};
use crate::model::endings::diverges;
use crate::model::exprs::ctor_receiver;
use crate::model::lists::{one, two};
use crate::model::scope::{hidden_local, require_complete, resolve_value, set_slot};
use crate::model::subst::contains_callback;
use crate::problem::Stop;
use crate::state::{Block, BlockMode, CapSource, Checker, LoopMode, RetKind, ScopeEntry};
use crate::text::Text;
use crate::types::Ty;

verus! {

/// A `return` stands in a callable of known result, gives a value of that
/// result, and leaves no field of an initializer without a value.
pub proof fn law_return(cx: &Ctx, st: Checker, value: &Option<Expr>, span: Span)
    ensures
        check_return(cx, st, value, span).1 matches Ok(stmt) ==> {
            let done = check_return(cx, st, value, span).0;
            &&& st.ret matches RetKind::Known(ret)
            &&& stmt matches HStmt::Return(found)
            &&& match *value {
                None => found is None && ret == Ty::Unit,
                Some(source) => found matches Some(given) && checking(cx, st, &source, &ret).1 == Ok::<HExpr, Stop>(given) && !contains_callback(
                    &given.ty,
                ),
            }
            &&& done.saw_return
            &&& done.ctor matches Some(c) ==> require_complete(cx, c.class, &c, span) is Ok
        },
{
    reveal(checking);
    if let RetKind::Known(ret) = st.ret {
        let (next, found) = check_returned(cx, st, value, &ret, span);
        if let Some(source) = *value {
            let (_, given) = checking(cx, st, &source, &ret);
        }
    }
}

/// A `break` or a `continue` stands in a loop alone.
pub proof fn law_loops_only(cx: &Ctx, st: Checker, value: &Option<Expr>, span: Span, stmt: &Stmt)
    requires
        st.loops is Nil,
    ensures
        check_break(cx, st, value, span).1 is Err,
        stmt.kind is Continue ==> check_stmt(cx, st, stmt).1 is Err,
{
}

/// A `break` with a value gives what its loop takes: nothing in a loop
/// without a value, a value of its type in a loop with one.
pub proof fn law_break(cx: &Ctx, st: Checker, value: &Option<Expr>, span: Span)
    ensures
        check_break(cx, st, value, span).1 matches Ok(stmt) ==> {
            &&& stmt is Break
            &&& st.loops matches Chain::Cons(around, _)
            &&& match around.mode {
                LoopMode::UnitOnly => *value is None && stmt == HStmt::Break(None),
                LoopMode::Value(ty) => match *value {
                    None => ty == Ty::Unit && stmt == HStmt::Break(None),
                    Some(source) => checking(cx, st, &source, &ty).1 matches Ok(given) && stmt == HStmt::Break(Some(given)),
                },
                _ => true,
            }
        },
{
    reveal(checking);
    if let Chain::Cons(around, _) = st.loops {
        if let Some(source) = *value {
            assert(check_break(cx, st, value, span) == check_value_break(cx, st, around.mode, &source, span));
        }
    }
}

/// A `while` tests its condition as a truth value.
pub proof fn law_while(cx: &Ctx, st: Checker, cond: &Expr, body: &Chain<Stmt>, span: Span)
    ensures
        check_while(cx, st, cond, body, span).1 matches Ok(stmt) ==> (stmt matches HStmt::While { cond: test, .. } && checking(
            cx,
            st,
            cond,
            &Ty::Bool,
        ).1 == Ok::<HExpr, Stop>(test)),
{
    reveal(checking);
}

/// What checking a list of statements gives.
#[verifier::opaque]
spec fn block_of(cx: &Ctx, st: Checker, stmts: Chain<Stmt>, mode: BlockMode, span: Span) -> (Checker, Result<Block, Stop>) {
    check_block(cx, st, &stmts, &mode, span)
}

/// What checking one statement gives.
#[verifier::opaque]
pub open spec fn stepping(cx: &Ctx, st: Checker, stmt: &Stmt) -> (Checker, Result<HStmt, Stop>) {
    check_stmt(cx, st, stmt)
}

/// What checking the last statement of a list gives.
#[verifier::opaque]
pub open spec fn ending(cx: &Ctx, st: Checker, stmt: &Stmt, mode: &BlockMode) -> (Checker, Result<Block, Stop>) {
    check_last(cx, st, stmt, mode)
}

/// Whether a checked statement comes from a written one, checked in some
/// state.
pub open spec fn step_from(cx: &Ctx, stmt: Stmt, found: HStmt) -> bool {
    ||| exists|st: Checker| (#[trigger] stepping(cx, st, &stmt)).1 == Ok::<HStmt, Stop>(found)
    ||| exists|st: Checker, mode: BlockMode|
        (#[trigger] ending(cx, st, &stmt, &mode)).1 matches Ok(block) && block.body == Chain::Cons(Box::new(found), Box::new(Chain::Nil))
}

proof fn lemma_last(cx: &Ctx, st: Checker, stmt: &Stmt, mode: &BlockMode)
    ensures
        ending(cx, st, stmt, mode).1 matches Ok(block) ==> block.body is Cons && block.body == one(*block.body->Cons_0) && match *mode {
            BlockMode::Discard => block.ty == Ty::Unit && block.mutable,
            BlockMode::Value(ty) => block.ty == ty && block.mutable == tail_mutable(&*block.body->Cons_0),
            BlockMode::Synth => block.ty == tail_type(&*block.body->Cons_0) && block.mutable == tail_mutable(&*block.body->Cons_0),
        },
{
    reveal(ending);
}

proof fn lemma_block_step(cx: &Ctx, st: Checker, head: Stmt, next: Stmt, more: Chain<Stmt>, mode: BlockMode, span: Span)
    ensures
        ({
            let tail = Chain::Cons(Box::new(next), Box::new(more));
            let all = Chain::Cons(Box::new(head), Box::new(tail));
            block_of(cx, st, all, mode, span).1 matches Ok(block) ==> {
                let (after, first) = stepping(cx, st, &head);
                let rest = block_of(cx, after, tail, mode, span).1;
                &&& first is Ok
                &&& !diverges(&first->Ok_0)
                &&& rest is Ok
                &&& block.body == Chain::Cons(Box::new(first->Ok_0), Box::new(rest->Ok_0.body))
                &&& block.ty == rest->Ok_0.ty
                &&& block.mutable == rest->Ok_0.mutable
            }
        }),
{
    reveal(block_of);
    reveal(stepping);
}

proof fn lemma_block_last(cx: &Ctx, st: Checker, head: Stmt, mode: BlockMode, span: Span)
    ensures
        block_of(cx, st, Chain::Cons(Box::new(head), Box::new(Chain::Nil)), mode, span) == ending(cx, st, &head, &mode),
        block_of(cx, st, Chain::Nil, mode, span).1 matches Ok(block) ==> block.body is Nil && block.ty == Ty::Unit,
{
    reveal(block_of);
    reveal(ending);
}

/// Whether a checked list has one statement for each written one, in order,
/// and none behind one that diverges.
pub open spec fn listed(cx: &Ctx, stmts: Seq<Stmt>, body: Seq<HStmt>) -> bool {
    &&& body.len() == stmts.len()
    &&& forall|i: int| 0 <= i < body.len() ==> step_from(cx, stmts[i], #[trigger] body[i])
    &&& forall|i: int| 0 <= i < body.len() - 1 ==> !diverges(&#[trigger] body[i])
}

proof fn lemma_listed(cx: &Ctx, head: Stmt, stmts: Seq<Stmt>, first: HStmt, body: Seq<HStmt>)
    requires
        listed(cx, stmts, body),
        step_from(cx, head, first),
        body.len() > 0 ==> !diverges(&first),
    ensures
        listed(cx, seq![head] + stmts, seq![first] + body),
{
    let all = seq![first] + body;
    assert forall|i: int| 0 <= i < all.len() implies step_from(cx, (seq![head] + stmts)[i], #[trigger] all[i]) by {
        if i > 0 {
            assert(all[i] == body[i - 1]);
        }
    }
    assert forall|i: int| 0 <= i < all.len() - 1 implies !diverges(&#[trigger] all[i]) by {
        if i > 0 {
            assert(all[i] == body[i - 1]);
        }
    }
}

proof fn lemma_block(cx: &Ctx, st: Checker, stmts: Chain<Stmt>, mode: BlockMode, span: Span)
    ensures
        block_of(cx, st, stmts, mode, span).1 matches Ok(block) ==> listed(cx, stmts@, block.body@),
    decreases stmts,
{
    match stmts {
        Chain::Nil => {
            if block_of(cx, st, stmts, mode, span).1 is Ok {
                reveal(block_of);
                assert(block_of(cx, st, stmts, mode, span).1->Ok_0.body is Nil);
            }
        },
        Chain::Cons(head, tail) => match *tail {
            Chain::Nil => {
                lemma_block_last(cx, st, *head, mode, span);
                lemma_last(cx, st, &*head, &mode);
                if let Ok(block) = ending(cx, st, &*head, &mode).1 {
                    let found = *block.body->Cons_0;
                    assert(step_from(cx, *head, found));
                    lemma_listed(cx, *head, Seq::empty(), found, Seq::empty());
                    lemma_two(*head, *head);
                    lemma_two(found, found);
                    assert(stmts == one(*head));
                    assert(stmts@ =~= seq![*head] + Seq::<Stmt>::empty());
                    assert(one(found)@ =~= seq![found] + Seq::<HStmt>::empty());
                }
            },
            Chain::Cons(next, more) => {
                lemma_block_step(cx, st, *head, *next, *more, mode, span);
                if let Ok(block) = block_of(cx, st, stmts, mode, span).1 {
                    let (after, first) = stepping(cx, st, &*head);
                    lemma_block(cx, after, *tail, mode, span);
                    let rest = block_of(cx, after, *tail, mode, span).1->Ok_0;
                    assert(step_from(cx, *head, first->Ok_0));
                    lemma_listed(cx, *head, tail@, first->Ok_0, rest.body@);
                    assert(stmts@ =~= seq![*head] + tail@);
                    assert(block.body@ =~= seq![first->Ok_0] + rest.body@);
                }
            },
        },
    }
}

/// A checked block keeps its statements and their order, and none stands
/// behind one that diverges.
pub proof fn law_block(cx: &Ctx, st: Checker, stmts: &Chain<Stmt>, mode: &BlockMode, span: Span)
    ensures
        check_block(cx, st, stmts, mode, span).1 matches Ok(block) ==> listed(cx, stmts@, block.body@),
{
    lemma_block(cx, st, *stmts, *mode, span);
    reveal(block_of);
}

/// Whether a checked statement is of the kind that is written.
pub open spec fn same_kind(stmt: StmtKind, found: HStmt) -> bool {
    match stmt {
        StmtKind::Assign { .. } => found is Assign,
        StmtKind::AssignField { .. } => found is AssignField,
        StmtKind::While { .. } => found is While,
        StmtKind::For { .. } => found is For,
        StmtKind::Return(_) => found is Return,
        StmtKind::Break(_) => found is Break,
        StmtKind::Continue => found is Continue,
        StmtKind::Expr(_) => found is Expr,
    }
}

proof fn lemma_assign_kind(cx: &Ctx, st: Checker, name: &Text, name_span: Span, ty: &Option<TypeExpr>, value: &Expr)
    ensures
        check_assign(cx, st, name, name_span, ty, value).1 matches Ok(found) ==> found is Assign,
{
    let (next, resolved) = resolve_value(st, name);
    match resolved {
        Ok(None) => {
            assert(check_assign(cx, st, name, name_span, ty, value) == check_declare(cx, next, name, name_span, ty, value));
        },
        Ok(Some(found)) => {
            if let CapSource::Local(slot) = found.source {
                assert(check_assign(cx, st, name, name_span, ty, value) == check_rebind(cx, next, slot, found.mutable, name, name_span, ty, value));
            }
        },
        _ => {},
    }
}

proof fn lemma_field_kind(cx: &Ctx, st: Checker, recv: &Expr, field: &Text, field_span: Span, value: &Expr)
    ensures
        check_assign_field(cx, st, recv, field, field_span, value).1 matches Ok(found) ==> found is AssignField,
{
    match ctor_receiver(&st, recv) {
        None => law_assign_field(cx, st, recv, field, field_span, value),
        Some(class) => law_assign_ctor_field(cx, st, class, field, field_span, value),
    }
}

/// A statement stays what it is.
pub proof fn law_stmt_kind(cx: &Ctx, st: Checker, stmt: &Stmt)
    ensures
        check_stmt(cx, st, stmt).1 matches Ok(found) ==> same_kind(stmt.kind, found),
{
    match stmt.kind {
        StmtKind::Assign { name, name_span, ty, value } => {
            lemma_assign_kind(cx, st, &name, name_span, &ty, &value);
        },
        StmtKind::AssignField { recv, field, field_span, value } => {
            lemma_field_kind(cx, st, &recv, &field, field_span, &value);
        },
        StmtKind::While { cond, body } => law_while(cx, st, &cond, &body, stmt.span),
        StmtKind::For { bindings, value, body } => law_for_kind(cx, st, &bindings, &value, &body, stmt.span),
        StmtKind::Return(value) => law_return(cx, st, &value, stmt.span),
        StmtKind::Break(value) => law_break(cx, st, &value, stmt.span),
        _ => {},
    }
}

/// A `for` walks the value that is written, and binds one local for each
/// name.
pub proof fn law_for_kind(cx: &Ctx, st: Checker, bindings: &Chain<LoopBinding>, value: &Expr, body: &Chain<Stmt>, span: Span)
    ensures
        check_for(cx, st, bindings, value, body, span).1 matches Ok(stmt) ==> (stmt matches HStmt::For { source, .. } && synthesis(cx, st, value).1
            == Ok::<HExpr, Stop>(source)),
{
    reveal(synthesis);
}

/// A statement without a value ends a block of the unit type alone.
pub proof fn law_tail_value(cx: &Ctx, st: Checker, stmt: &Stmt, expected: &Ty)
    requires
        stmt.kind is Assign || stmt.kind is AssignField || stmt.kind is For,
        *expected != Ty::Unit,
    ensures
        check_tail(cx, st, stmt, expected).1 is Err,
{
}

/// The list that a `for` walks gives its elements; a map gives its entries,
/// as pairs or as key and value.
pub proof fn law_iterate(cx: &Ctx, st: Checker, source: &HExpr, bindings: u32, value_span: Span, span: Span)
    ensures
        source.ty matches Ty::ListOf(element) ==> (iterate(cx, st, source, bindings, value_span, span).1 matches Ok(found) && found.types@ == seq![
            *element,
        ] && found.mutable == source.mutable && (found.kind matches HForKind::List { element: kept, .. } && kept == *element)),
        source.ty matches Ty::MapOf(key, value) ==> (iterate(cx, st, source, bindings, value_span, span).1 matches Ok(found) && found.mutable
            == source.mutable && found.types@ == (if bindings == 2 {
            seq![*key, *value]
        } else {
            seq![Ty::Tuple(two(*key, *value))]
        }) && (found.kind matches HForKind::Entries { key: k, value: v, .. } && k == *key && v == *value)),
{
    match source.ty {
        Ty::ListOf(element) => lemma_two(*element, *element),
        Ty::MapOf(key, value) => {
            lemma_two(*key, *value);
            lemma_two(Ty::Tuple(two(*key, *value)), Ty::Unit);
        },
        _ => {},
    }
}

/// A range gives integers.
pub proof fn law_iterate_range(st: Checker, source: &HExpr)
    ensures
        iterate_range(st, source).1.types@ == seq![Ty::Int],
        iterate_range(st, source).1.kind is Range,
{
    lemma_two(Ty::Int, Ty::Int);
}

/// A loop binds as many names as its source gives parts.
pub proof fn law_for_bindings(st: Checker, bindings: &Chain<LoopBinding>, types: &Chain<Ty>, mutable: bool)
    requires
        bindings@.len() <= u32::MAX,
        types@.len() <= u32::MAX,
    ensures
        for_bindings(st, bindings, types, mutable).1 matches Ok(found) ==> bindings@.len() == types@.len() && found.slots@.len()
            == bindings@.len(),
{
    law_count(bindings);
    law_count(types);
    lemma_bind_loop(st, bindings, types, mutable, Chain::Nil);
}

proof fn lemma_bind_loop(st: Checker, bindings: &Chain<LoopBinding>, types: &Chain<Ty>, mutable: bool, scope: Chain<ScopeEntry>)
    ensures
        bind_loop(st, bindings, types, mutable, scope).1 matches Ok(found) && bindings@.len() == types@.len() ==> bind_loop(
            st,
            bindings,
            types,
            mutable,
            scope,
        ).1->Ok_0.slots@.len() == bindings@.len(),
    decreases bindings,
{
    match (bindings, types) {
        (Chain::Cons(binding, bindings_rest), Chain::Cons(ty, types_rest)) => {
            let (next, slot) = hidden_local(st, **ty, mutable);
            let inner = if binding.name@ == "_"@ {
                scope
            } else {
                set_slot(scope, &binding.name, slot)
            };
            lemma_bind_loop(next, &**bindings_rest, &**types_rest, mutable, inner);
        },
        _ => {},
    }
}

} // verus!
