//! Expected types: what is checked against a type fits it.

use vstd::prelude::*;
use crate::ast::{CaseArm, Expr, ExprKind, InterpPart, MapEntry, SelectArm, Span, Stmt};
use crate::chain::Chain;
use crate::context::Ctx;
use crate::hir::{HEntry, HExpr, HPart, HStmt};
use crate::laws::calls::target;
use crate::laws::flow::law_if;
use crate::laws::operators::{checking, comes_from, synthesis};
use crate::model::answers::compatible;
use crate::model::blocks::{check_assign_field, check_loop};
use crate::model::branches::{check_case, check_case_value, check_select, fork_type};
use crate::model::calls::{binds_variables, check_argument, check_each, check_nth, presynth, settle_args, settle_one, synth_argument, synth_nth, unlabeled};
use crate::model::desugar::{select_arms, select_wait};
use crate::model::exprs::{check_each_as, check_entries, check_expr, check_pairwise, ctor_receiver, field_ty_at, interpolable, synth_each, synth_expr, synth_interp, types_of};
use crate::model::fits::fits;
use crate::model::infer::{all_mutable, partial_substitute, unify};
use crate::model::keeps::kept;
use crate::model::lists::{cons, count};
use crate::model::lookup::{class_of, find_field};
use crate::model::scope::expect_compatible;
use crate::model::subst::{contains_callback, substitute};
use crate::problem::Stop;
use crate::state::{BlockMode, BranchType, Checker, Solution};
use crate::text::Text;
use crate::types::{Row, Ty};

verus! {

/// A value passes the comparison with an expected type exactly where it is
/// compatible, and passes unchanged.
pub proof fn law_expect_compatible(cx: &Ctx, expected: &Ty, found: HExpr, span: Span)
    ensures
        expect_compatible(cx, expected, found, span) is Ok <==> compatible(cx, expected, &found.ty) == Ok::<bool, Stop>(true),
        expect_compatible(cx, expected, found, span) matches Ok(kept) ==> kept == found,
{
}

proof fn lemma_case_type(cx: &Ctx, st: Checker, scrut: HExpr, arms: &Chain<CaseArm>, ty: Ty, span: Span)
    ensures
        check_case_value(cx, st, scrut, arms, &BlockMode::Value(ty), span).1 matches Ok(found) ==> found.ty == ty,
{
}

/// A case that a type is expected of has that type.
pub proof fn law_case_type(cx: &Ctx, st: Checker, scrut: &Expr, arms: &Chain<CaseArm>, ty: Ty, span: Span)
    ensures
        check_case(cx, st, scrut, arms, &BlockMode::Value(ty), span).1 matches Ok(found) ==> found.ty == ty,
{
    let (next, value) = synth_expr(cx, st, scrut);
    if let Ok(checked) = value {
        lemma_case_type(cx, next, checked, arms, ty, span);
    }
}

/// A `select` that a type is expected of has that type.
pub proof fn law_select_type(cx: &Ctx, st: Checker, arms: &Chain<SelectArm>, ty: Ty, span: Span)
    ensures
        check_select(cx, st, arms, &BlockMode::Value(ty), span).1 matches Ok(found) ==> found.ty == ty,
{
    if let Chain::Cons(first, rest) = arms {
        let waited = select_wait(&**first, &**rest, span);
        let cases = select_arms(arms, 0u32, count(arms));
        law_case_type(cx, st, &waited, &cases, ty, span);
    }
}

/// A loop that a type is expected of has that type, or never completes.
pub proof fn law_loop_type(cx: &Ctx, st: Checker, body: &Chain<Stmt>, ty: Ty, span: Span)
    ensures
        check_loop(cx, st, body, &BlockMode::Value(ty), span).1 matches Ok(found) ==> found.ty == ty || found.ty == Ty::Never,
{
}

proof fn lemma_fork(cx: &Ctx, st: Checker, expr: &Expr, expected: &Ty)
    requires
        *expr.kind is If || *expr.kind is Case || *expr.kind is Select || *expr.kind is Loop,
    ensures
        checking(cx, st, expr, expected).1 matches Ok(found) ==> found.ty == *expected || found.ty == Ty::Never,
{
    reveal(checking);
    match *expr.kind {
        ExprKind::If { branches, else_body } => law_if(cx, st, &branches, &else_body, &BlockMode::Value(*expected), expr.span),
        ExprKind::Case { scrut, arms } => law_case_type(cx, st, &scrut, &arms, *expected, expr.span),
        ExprKind::Select(arms) => law_select_type(cx, st, &arms, *expected, expr.span),
        ExprKind::Loop(body) => law_loop_type(cx, st, &body, *expected, expr.span),
        _ => {},
    }
}

proof fn lemma_whole(cx: &Ctx, st: Checker, expr: &Expr, expected: &Ty)
    requires
        !(*expr.kind is If || *expr.kind is Case || *expr.kind is Select || *expr.kind is Loop),
    ensures
        checking(cx, st, expr, expected).1 matches Ok(found) ==> found.ty == *expected || compatible(cx, expected, &found.ty) == Ok::<bool, Stop>(true),
{
    reveal(checking);
}

proof fn lemma_fits(cx: &Ctx, st: Checker, expr: &Expr, expected: &Ty)
    ensures
        checking(cx, st, expr, expected).1 matches Ok(found) ==> fits(cx, *expected, found.ty),
{
    if *expr.kind is If || *expr.kind is Case || *expr.kind is Select || *expr.kind is Loop {
        lemma_fork(cx, st, expr, expected);
    } else {
        lemma_whole(cx, st, expr, expected);
    }
}

/// Every expression that is checked against a type fits it.
pub proof fn law_check_fits(cx: &Ctx, st: Checker, expr: &Expr, expected: &Ty)
    ensures
        check_expr(cx, st, expr, expected).1 matches Ok(found) ==> fits(cx, *expected, found.ty),
{
    lemma_fits(cx, st, expr, expected);
    reveal(checking);
}

/// Whether values stand for expressions one for one, in order, each fit for
/// the type at its position.
pub open spec fn in_order(cx: &Ctx, items: Chain<Expr>, tys: Seq<Ty>, found: Chain<HExpr>) -> bool {
    &&& found@.len() == items@.len()
    &&& tys.len() == items@.len()
    &&& forall|i: int| 0 <= i < found@.len() ==> comes_from(cx, items@[i], #[trigger] found@[i]) && fits(cx, tys[i], found@[i].ty)
}

/// The elements of a list literal fit the element type and keep their
/// order.
pub proof fn law_check_each_as(cx: &Ctx, st: Checker, items: &Chain<Expr>, ty: &Ty)
    ensures
        check_each_as(cx, st, items, ty).1 matches Ok(found) ==> in_order(cx, *items, Seq::new(items@.len(), |i: int| *ty), found),
    decreases items,
{
    if let Chain::Cons(head, tail) = items {
        let (next, first) = check_expr(cx, st, &**head, ty);
        law_check_each_as(cx, next, tail, ty);
        if let Ok(found) = check_each_as(cx, st, items, ty).1 {
            let rest = check_each_as(cx, next, tail, ty).1->Ok_0;
            lemma_one_more(cx, st, **head, *ty, **tail, Seq::new(tail@.len(), |i: int| *ty), first->Ok_0, rest);
            assert(seq![*ty] + Seq::new(tail@.len(), |i: int| *ty) =~= Seq::new(items@.len(), |i: int| *ty));
        }
    }
}

proof fn lemma_one_more(cx: &Ctx, st: Checker, expr: Expr, ty: Ty, items: Chain<Expr>, tys: Seq<Ty>, value: HExpr, found: Chain<HExpr>)
    requires
        check_expr(cx, st, &expr, &ty).1 == Ok::<HExpr, Stop>(value),
        in_order(cx, items, tys, found),
    ensures
        in_order(cx, cons(expr, items), seq![ty] + tys, cons(value, found)),
{
    law_check_fits(cx, st, &expr, &ty);
    assert(comes_from(cx, expr, value)) by {
        reveal(checking);
        assert(checking(cx, st, &expr, &ty).1 == Ok::<HExpr, Stop>(value));
    }
    let all = cons(expr, items);
    let done = cons(value, found);
    assert forall|i: int| 0 <= i < done@.len() implies comes_from(cx, all@[i], #[trigger] done@[i]) && fits(cx, (seq![ty] + tys)[i], done@[i].ty) by {
        if i > 0 {
            assert(done@[i] == found@[i - 1]);
            assert(all@[i] == items@[i - 1]);
        }
    }
}

/// The elements of a tuple literal fit the types at their positions and
/// keep their order.
pub proof fn law_check_pairwise(cx: &Ctx, st: Checker, items: &Chain<Expr>, tys: &Chain<Ty>)
    requires
        items@.len() == tys@.len(),
    ensures
        check_pairwise(cx, st, items, tys).1 matches Ok(found) ==> in_order(cx, *items, tys@, found),
    decreases items,
{
    match (items, tys) {
        (Chain::Cons(head, tail), Chain::Cons(ty, rest_tys)) => {
            let (next, first) = check_expr(cx, st, &**head, &**ty);
            law_check_pairwise(cx, next, tail, rest_tys);
            if let Ok(found) = check_pairwise(cx, st, items, tys).1 {
                let rest = check_pairwise(cx, next, tail, rest_tys).1->Ok_0;
                lemma_one_more(cx, st, **head, **ty, **tail, rest_tys@, first->Ok_0, rest);
                assert(seq![**ty] + rest_tys@ =~= tys@);
            }
        },
        _ => {},
    }
}

/// Expressions that are checked alone keep their order.
pub proof fn law_synth_each(cx: &Ctx, st: Checker, items: &Chain<Expr>)
    ensures
        synth_each(cx, st, items).1 matches Ok(found) ==> found@.len() == items@.len() && forall|i: int| 0 <= i < found@.len() ==> comes_from(cx, items@[i], #[trigger] found@[i]),
    decreases items,
{
    if let Chain::Cons(head, tail) = items {
        let (next, first) = synth_expr(cx, st, &**head);
        law_synth_each(cx, next, tail);
        if let Ok(found) = synth_each(cx, st, items).1 {
            let rest = synth_each(cx, next, tail).1->Ok_0;
            assert(comes_from(cx, **head, first->Ok_0)) by {
                reveal(synthesis);
                assert(synthesis(cx, st, &**head).1 == first);
            }
            assert forall|i: int| 0 <= i < found@.len() implies comes_from(cx, items@[i], #[trigger] found@[i]) by {
                if i > 0 {
                    assert(found@[i] == rest@[i - 1]);
                    assert(items@[i] == tail@[i - 1]);
                }
            }
        }
    }
}

/// A tuple literal has one type for each element, that of the element.
pub proof fn law_types_of(items: &Chain<HExpr>)
    ensures
        types_of(items)@.len() == items@.len(),
        forall|i: int| 0 <= i < items@.len() ==> types_of(items)@[i] == (#[trigger] items@[i]).ty,
    decreases items,
{
    if let Chain::Cons(_, tail) = items {
        law_types_of(tail);
        assert forall|i: int| 0 <= i < items@.len() implies types_of(items)@[i] == (#[trigger] items@[i]).ty by {
            if i > 0 {
                assert(items@[i] == tail@[i - 1]);
                assert(types_of(items)@[i] == types_of(tail)@[i - 1]);
            }
        }
    }
}

/// Whether checked map entries stand for written ones, each key fit for the
/// key type and each value for the value type.
pub open spec fn entries_kept(cx: &Ctx, entries: Chain<MapEntry>, key: Ty, value: Ty, found: Chain<HEntry>) -> bool {
    &&& found@.len() == entries@.len()
    &&& forall|i: int| 0 <= i < found@.len() ==> entry_kept(cx, entries@[i], key, value, #[trigger] found@[i])
}

/// Whether one checked entry stands for the written one.
pub open spec fn entry_kept(cx: &Ctx, entry: MapEntry, key: Ty, value: Ty, found: HEntry) -> bool {
    &&& comes_from(cx, entry.key, found.key)
    &&& comes_from(cx, entry.value, found.value)
    &&& fits(cx, key, found.key.ty)
    &&& fits(cx, value, found.value.ty)
}

/// The entries of a map literal fit its types and keep their order.
pub proof fn law_check_entries(cx: &Ctx, st: Checker, entries: &Chain<MapEntry>, key: &Ty, value: &Ty)
    ensures
        check_entries(cx, st, entries, key, value).1 matches Ok(found) ==> entries_kept(cx, *entries, *key, *value, found),
    decreases entries,
{
    if let Chain::Cons(head, tail) = entries {
        let (next, first) = check_expr(cx, st, &head.key, key);
        let (after, second) = check_expr(cx, next, &head.value, value);
        law_check_entries(cx, after, tail, key, value);
        if let Ok(found) = check_entries(cx, st, entries, key, value).1 {
            let rest = check_entries(cx, after, tail, key, value).1->Ok_0;
            law_check_fits(cx, st, &head.key, key);
            law_check_fits(cx, next, &head.value, value);
            assert(entry_kept(cx, **head, *key, *value, found@[0])) by {
                reveal(checking);
                assert(checking(cx, st, &head.key, key).1 == first);
                assert(checking(cx, next, &head.value, value).1 == second);
            }
            assert forall|i: int| 0 <= i < found@.len() implies entry_kept(cx, entries@[i], *key, *value, #[trigger] found@[i]) by {
                if i > 0 {
                    assert(found@[i] == rest@[i - 1]);
                    assert(entries@[i] == tail@[i - 1]);
                }
            }
        }
    }
}

/// Whether a checked part of a text stands for the written one.
pub open spec fn part_kept(cx: &Ctx, part: InterpPart, found: HPart) -> bool {
    match part {
        InterpPart::Lit(lit) => found == HPart::Lit(lit),
        InterpPart::Value(expr) => found matches HPart::Value(value) && comes_from(cx, expr, value) && is_printed(cx, value.ty),
    }
}

/// Whether values of a type can stand inside a text.
pub open spec fn is_printed(cx: &Ctx, ty: Ty) -> bool {
    exists|span: Span| #[trigger] interpolable(cx, &ty, span) == Ok::<bool, Stop>(true)
}

/// The parts of a text keep their order.
pub proof fn law_synth_interp(cx: &Ctx, st: Checker, parts: &Chain<InterpPart>)
    ensures
        synth_interp(cx, st, parts).1 matches Ok(found) ==> found@.len() == parts@.len() && forall|i: int| 0 <= i < found@.len() ==> part_kept(cx, parts@[i], #[trigger] found@[i]),
    decreases parts,
{
    if let Chain::Cons(head, tail) = parts {
        match **head {
            InterpPart::Lit(_) => law_synth_interp(cx, st, tail),
            InterpPart::Value(expr) => {
                let (next, first) = synth_expr(cx, st, &expr);
                law_synth_interp(cx, next, tail);
                if first is Ok {
                    assert(comes_from(cx, expr, first->Ok_0)) by {
                        reveal(synthesis);
                        assert(synthesis(cx, st, &expr).1 == first);
                    }
                }
            },
        }
        if let Ok(found) = synth_interp(cx, st, parts).1 {
            assert(part_kept(cx, **head, found@[0]));
            assert forall|i: int| 0 <= i < found@.len() implies part_kept(cx, parts@[i], #[trigger] found@[i]) by {
                if i > 0 {
                    assert(parts@[i] == tail@[i - 1]);
                }
            }
        }
    }
}

/// A value that a fork joins can be changed only where the value of every
/// branch can.
pub proof fn law_fork_type(cx: &Ctx, mode: &BlockMode, complete: bool, hint: Option<Ty>, types: &Chain<BranchType>)
    ensures
        fork_type(cx, mode, complete, hint, types) matches Ok(found) ==> (found.mutable && found.ty != Ty::Unit ==> forall|i: int| 0 <= i < types@.len() ==> (#[trigger] types@[i]).mutable),
        *mode matches BlockMode::Value(ty) ==> (fork_type(cx, mode, complete, hint, types) matches Ok(found) && found.ty == ty),
{
    lemma_all_mutable(types);
}

proof fn lemma_all_mutable(types: &Chain<BranchType>)
    ensures
        all_mutable(types) <==> forall|i: int| 0 <= i < types@.len() ==> (#[trigger] types@[i]).mutable,
    decreases types,
{
    if let Chain::Cons(head, tail) = types {
        lemma_all_mutable(tail);
        assert(types@[0] == **head);
        if all_mutable(types) {
            assert forall|i: int| 0 <= i < types@.len() implies (#[trigger] types@[i]).mutable by {
                if i > 0 {
                    assert(types@[i] == tail@[i - 1]);
                }
            }
        } else if head.mutable {
            let i = choose|i: int| 0 <= i < tail@.len() && !(#[trigger] tail@[i]).mutable;
            assert(!types@[i + 1].mutable);
        }
    }
}

proof fn lemma_nth_fits(cx: &Ctx, st: Checker, args: &Chain<Expr>, at: u32, expected: &Ty, span: Span)
    ensures
        check_nth(cx, st, args, at, expected, span).1 matches Ok(found) ==> fits(cx, *expected, found.ty),
    decreases args,
{
    if let Chain::Cons(head, tail) = args {
        if at != 0 {
            lemma_nth_fits(cx, st, tail, (at - 1) as u32, expected, span);
        } else {
            law_argument_fits(cx, st, &**head, expected);
        }
    }
}

/// An argument fits its parameter, with a label or without.
pub proof fn law_argument_fits(cx: &Ctx, st: Checker, arg: &Expr, expected: &Ty)
    ensures
        check_argument(cx, st, arg, expected).1 matches Ok(found) ==> fits(cx, *expected, found.ty),
{
    match *arg.kind {
        ExprKind::Labeled { label: _, value } => law_check_fits(cx, st, &value, expected),
        _ => law_check_fits(cx, st, arg, expected),
    }
}

/// The argument that is checked for a position is the one that stands
/// there, its label left out; behind the last one there is none.
pub proof fn law_check_nth(cx: &Ctx, st: Checker, args: &Chain<Expr>, at: u32, expected: &Ty, span: Span)
    ensures
        check_nth(cx, st, args, at, expected, span).1 matches Ok(found) ==> at < args@.len() && comes_from(cx, *unlabeled(&args@[at as int]), found),
    decreases args,
{
    if let Chain::Cons(head, tail) = args {
        if at != 0 {
            law_check_nth(cx, st, tail, (at - 1) as u32, expected, span);
        } else {
            lemma_argument_from(cx, st, &**head, expected);
            assert(args@[0] == **head);
        }
    }
}

proof fn lemma_argument_from(cx: &Ctx, st: Checker, arg: &Expr, expected: &Ty)
    ensures
        check_argument(cx, st, arg, expected).1 matches Ok(found) ==> comes_from(cx, *unlabeled(arg), found),
{
    match *arg.kind {
        ExprKind::Labeled { label: _, value } => lemma_from(cx, st, &value, expected),
        _ => lemma_from(cx, st, arg, expected),
    }
}

proof fn lemma_argument_alone(cx: &Ctx, st: Checker, arg: &Expr)
    ensures
        synth_argument(cx, st, arg).1 matches Ok(found) ==> comes_from(cx, *unlabeled(arg), found),
{
    match *arg.kind {
        ExprKind::Labeled { label: _, value } => lemma_alone(cx, st, &value),
        _ => lemma_alone(cx, st, arg),
    }
}

proof fn lemma_alone(cx: &Ctx, st: Checker, expr: &Expr)
    ensures
        synth_expr(cx, st, expr).1 matches Ok(found) ==> comes_from(cx, *expr, found),
{
    reveal(synthesis);
    assert(synthesis(cx, st, expr) == synth_expr(cx, st, expr));
}

/// The same holds of an argument that is checked alone.
pub proof fn law_synth_nth(cx: &Ctx, st: Checker, args: &Chain<Expr>, at: u32, span: Span)
    ensures
        synth_nth(cx, st, args, at, span).1 matches Ok(found) ==> at < args@.len() && comes_from(cx, *unlabeled(&args@[at as int]), found),
    decreases args,
{
    if let Chain::Cons(head, tail) = args {
        if at != 0 {
            law_synth_nth(cx, st, tail, (at - 1) as u32, span);
        } else {
            lemma_argument_alone(cx, st, &**head);
            assert(args@[0] == **head);
        }
    }
}

/// Whether each value is what the argument at its place gives.
pub open spec fn all_placed(cx: &Ctx, args: Chain<Expr>, order: Seq<u32>, values: Seq<HExpr>) -> bool {
    forall|i: int| 0 <= i < values.len() && i < order.len() ==> is_placed(cx, args, order[i], #[trigger] values[i])
}

/// Whether a value is what the argument at one place gives.
pub open spec fn is_placed(cx: &Ctx, args: Chain<Expr>, at: u32, value: HExpr) -> bool {
    at < args@.len() && comes_from(cx, *unlabeled(&args@[at as int]), value)
}

/// The values of a call are those of its arguments, in the order of the
/// parameters.
pub proof fn law_each_placed(cx: &Ctx, st: Checker, args: &Chain<Expr>, order: &Chain<u32>, params: &Chain<Ty>, muts: &Chain<bool>, span: Span)
    ensures
        check_each(cx, st, args, order, params, muts, span).1 matches Ok(values) ==> all_placed(cx, *args, order@, values@),
    decreases order,
{
    match (order, params, muts) {
        (Chain::Cons(at, order_rest), Chain::Cons(param, params_rest), Chain::Cons(_, muts_rest)) => {
            let (next, value) = check_nth(cx, st, args, **at, &**param, span);
            law_check_nth(cx, st, args, **at, &**param, span);
            law_each_placed(cx, next, args, &**order_rest, &**params_rest, &**muts_rest, span);
            if let Ok(values) = check_each(cx, st, args, order, params, muts, span).1 {
                let rest = check_each(cx, next, args, &**order_rest, &**params_rest, &**muts_rest, span).1->Ok_0;
                assert forall|i: int| 0 <= i < values@.len() && i < order@.len() implies is_placed(cx, *args, order@[i], #[trigger] values@[i]) by {
                    if i > 0 {
                        assert(values@[i] == rest@[i - 1]);
                        assert(order@[i] == order_rest@[i - 1]);
                    }
                }
            }
        },
        _ => {},
    }
}

/// Whether each value found early is what the argument at its place gives.
pub open spec fn early_placed(cx: &Ctx, args: Chain<Expr>, order: Seq<u32>, values: Seq<Option<HExpr>>) -> bool {
    forall|i: int| 0 <= i < values.len() && i < order.len() ==> (#[trigger] values[i] matches Some(value) ==> is_placed(cx, args, order[i], value))
}

/// The values that decide type arguments are those of the arguments, in the
/// order of the parameters.
pub proof fn law_presynth_placed(cx: &Ctx, st: Checker, args: &Chain<Expr>, order: &Chain<u32>, params: &Chain<Ty>, solution: Solution, span: Span)
    ensures
        presynth(cx, st, args, order, params, solution, span).1 matches Ok(found) ==> early_placed(cx, *args, order@, found.values@) && (params@.len() == order@.len() ==> found.values@.len() == order@.len()),
    decreases order,
{
    match (order, params) {
        (Chain::Cons(at, order_rest), Chain::Cons(param, params_rest)) => {
            let part = partial_substitute(&**param, &solution);
            if binds_variables(cx, &st, args, **at, &part) {
                let (next, value) = synth_nth(cx, st, args, **at, span);
                law_synth_nth(cx, st, args, **at, span);
                if value is Ok {
                    let unified = unify(cx, &part, &value->Ok_0.ty, solution, true);
                    if unified is Ok {
                        law_presynth_placed(cx, next, args, &**order_rest, &**params_rest, unified->Ok_0, span);
                    }
                }
            } else {
                law_presynth_placed(cx, st, args, &**order_rest, &**params_rest, solution, span);
            }
            if let Ok(found) = presynth(cx, st, args, order, params, solution, span).1 {
                assert forall|i: int| 0 <= i < found.values@.len() && i < order@.len() implies (#[trigger] found.values@[i] matches Some(value) ==> is_placed(cx, *args, order@[i], value)) by {
                    if i > 0 {
                        assert(order@[i] == order_rest@[i - 1]);
                    }
                }
            }
        },
        _ => {},
    }
}

/// The values of a generic call are those of its arguments, in the order of
/// the parameters.
pub proof fn law_settled_placed(
    cx: &Ctx,
    st: Checker,
    args: &Chain<Expr>,
    order: &Chain<u32>,
    params: &Chain<Ty>,
    muts: &Chain<bool>,
    values: Chain<Option<HExpr>>,
    types: &Chain<Ty>,
    rows: &Chain<Row>,
    span: Span,
)
    requires
        early_placed(cx, *args, order@, values@),
    ensures
        settle_args(cx, st, args, order, params, muts, values, types, rows, span).1 matches Ok(found) ==> all_placed(cx, *args, order@, found@),
    decreases order,
{
    match (order, params, muts, values) {
        (Chain::Cons(at, order_rest), Chain::Cons(param, params_rest), Chain::Cons(_, muts_rest), Chain::Cons(early, values_rest)) => {
            let want = substitute(&**param, types, rows);
            let (next, value) = settle_one(cx, st, args, **at, *early, &want, span);
            law_check_nth(cx, st, args, **at, &want, span);
            assert(values@[0] == *early);
            assert(early_placed(cx, *args, order_rest@, values_rest@)) by {
                assert forall|i: int| 0 <= i < values_rest@.len() && i < order_rest@.len() implies (#[trigger] values_rest@[i] matches Some(value) ==> is_placed(cx, *args, order_rest@[i], value)) by {
                    assert(values@[i + 1] == values_rest@[i]);
                    assert(order@[i + 1] == order_rest@[i]);
                }
            }
            law_settled_placed(cx, next, args, &**order_rest, &**params_rest, &**muts_rest, *values_rest, types, rows, span);
            if let Ok(found) = settle_args(cx, st, args, order, params, muts, values, types, rows, span).1 {
                let rest = settle_args(cx, next, args, &**order_rest, &**params_rest, &**muts_rest, *values_rest, types, rows, span).1->Ok_0;
                assert forall|i: int| 0 <= i < found@.len() && i < order@.len() implies is_placed(cx, *args, order@[i], #[trigger] found@[i]) by {
                    if i > 0 {
                        assert(found@[i] == rest@[i - 1]);
                        assert(order@[i] == order_rest@[i - 1]);
                    }
                }
            }
        },
        _ => {},
    }
}

/// Whether each value fits the parameter at its position.
pub open spec fn arguments_fit(cx: &Ctx, params: Seq<Ty>, values: Seq<HExpr>) -> bool {
    forall|i: int| 0 <= i < values.len() && i < params.len() ==> fits(cx, params[i], (#[trigger] values[i]).ty)
}

proof fn lemma_arguments_fit(cx: &Ctx, param: Ty, params: Seq<Ty>, value: HExpr, values: Seq<HExpr>)
    requires
        fits(cx, param, value.ty),
        arguments_fit(cx, params, values),
    ensures
        arguments_fit(cx, seq![param] + params, seq![value] + values),
{
    let all = seq![value] + values;
    assert forall|i: int| 0 <= i < all.len() && i < (seq![param] + params).len() implies fits(cx, (seq![param] + params)[i], (#[trigger] all[i]).ty) by {
        if i > 0 {
            assert(all[i] == values[i - 1]);
        }
    }
}

/// The arguments of a call fit its parameters.
pub proof fn law_each_fits(cx: &Ctx, st: Checker, args: &Chain<Expr>, order: &Chain<u32>, params: &Chain<Ty>, muts: &Chain<bool>, span: Span)
    ensures
        check_each(cx, st, args, order, params, muts, span).1 matches Ok(values) ==> arguments_fit(cx, params@, values@),
    decreases order,
{
    match (order, params, muts) {
        (Chain::Cons(at, order_rest), Chain::Cons(param, params_rest), Chain::Cons(_, muts_rest)) => {
            let (next, value) = check_nth(cx, st, args, **at, &**param, span);
            lemma_nth_fits(cx, st, args, **at, &**param, span);
            law_each_fits(cx, next, args, &**order_rest, &**params_rest, &**muts_rest, span);
            if let Ok(values) = check_each(cx, st, args, order, params, muts, span).1 {
                let rest = check_each(cx, next, args, &**order_rest, &**params_rest, &**muts_rest, span).1->Ok_0;
                lemma_arguments_fit(cx, **param, params_rest@, value->Ok_0, rest@);
                assert(values@ =~= seq![value->Ok_0] + rest@);
                assert(params@ =~= seq![**param] + params_rest@);
            }
        },
        _ => {},
    }
}

/// The parameters of a signature under the arguments of a call.
pub open spec fn under(params: Seq<Ty>, types: Chain<Ty>, rows: Chain<Row>) -> Seq<Ty> {
    Seq::new(params.len(), |i: int| substitute(&params[i], &types, &rows))
}

proof fn lemma_settle_one(cx: &Ctx, st: Checker, args: &Chain<Expr>, at: u32, value: Option<HExpr>, want: &Ty, span: Span)
    ensures
        settle_one(cx, st, args, at, value, want, span).1 matches Ok(found) ==> fits(cx, *want, found.ty),
{
    lemma_nth_fits(cx, st, args, at, want, span);
}

/// The arguments of a generic call fit its parameters under its type
/// arguments, one for each.
pub proof fn law_settled_fit(
    cx: &Ctx,
    st: Checker,
    args: &Chain<Expr>,
    order: &Chain<u32>,
    params: &Chain<Ty>,
    muts: &Chain<bool>,
    values: Chain<Option<HExpr>>,
    types: &Chain<Ty>,
    rows: &Chain<Row>,
    span: Span,
)
    ensures
        settle_args(cx, st, args, order, params, muts, values, types, rows, span).1 matches Ok(found) ==> arguments_fit(cx, under(params@, *types, *rows), found@) && (
            params@.len() == order@.len() && muts@.len() == order@.len() && values@.len() == order@.len() ==> found@.len() == params@.len()),
    decreases order,
{
    match (order, params, muts, values) {
        (Chain::Cons(at, order_rest), Chain::Cons(param, params_rest), Chain::Cons(_, muts_rest), Chain::Cons(early, values_rest)) => {
            let want = substitute(&**param, types, rows);
            let (next, value) = settle_one(cx, st, args, **at, *early, &want, span);
            lemma_settle_one(cx, st, args, **at, *early, &want, span);
            law_settled_fit(cx, next, args, &**order_rest, &**params_rest, &**muts_rest, *values_rest, types, rows, span);
            if let Ok(found) = settle_args(cx, st, args, order, params, muts, values, types, rows, span).1 {
                let rest = settle_args(cx, next, args, &**order_rest, &**params_rest, &**muts_rest, *values_rest, types, rows, span).1->Ok_0;
                lemma_arguments_fit(cx, want, under(params_rest@, *types, *rows), value->Ok_0, rest@);
                assert(found@ =~= seq![value->Ok_0] + rest@);
                assert(under(params@, *types, *rows) =~= seq![want] + under(params_rest@, *types, *rows));
            }
        },
        _ => {},
    }
}

/// A written field takes a value that fits its type, under the type
/// arguments of the receiver, and no callback.
pub proof fn law_assigned_value(cx: &Ctx, st: Checker, recv: &Expr, field: &Text, field_span: Span, value: &Expr)
    ensures
        check_assign_field(cx, st, recv, field, field_span, value).1 matches Ok(stmt) ==> {
            &&& stmt matches HStmt::AssignField { recv: target, field: at, value: given }
            &&& comes_from(cx, *value, given)
            &&& !contains_callback(&given.ty)
            &&& ctor_receiver(&st, recv) matches Some(class) ==> fits(cx, field_ty_at(cx, class, at), given.ty)
            &&& ctor_receiver(&st, recv) is None ==> (class_of(cx, &target.ty) matches Some(nominal)
                && fits(cx, substitute(&field_ty_at(cx, nominal.class, at), &nominal.args, &Chain::Nil), given.ty))
        },
{
    match ctor_receiver(&st, recv) {
        Some(class) => {
            if let Some(at) = find_field(cx, class, field) {
                law_check_fits(cx, st, value, &field_ty_at(cx, class, at));
                lemma_from(cx, st, value, &field_ty_at(cx, class, at));
            }
        },
        None => {
            let (next, target) = synth_expr(cx, st, recv);
            if target is Ok {
                if let Some(nominal) = class_of(cx, &target->Ok_0.ty) {
                    if let Some(at) = find_field(cx, nominal.class, field) {
                        let ty = substitute(&field_ty_at(cx, nominal.class, at), &nominal.args, &Chain::Nil);
                        law_check_fits(cx, next, value, &ty);
                        lemma_from(cx, next, value, &ty);
                    }
                }
            }
        },
    }
}

proof fn lemma_from(cx: &Ctx, st: Checker, expr: &Expr, ty: &Ty)
    ensures
        check_expr(cx, st, expr, ty).1 matches Ok(found) ==> comes_from(cx, *expr, found),
{
    reveal(checking);
    assert(checking(cx, st, expr, ty) == check_expr(cx, st, expr, ty));
}

} // verus!
