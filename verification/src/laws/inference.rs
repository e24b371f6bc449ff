//! Inference: how the type arguments of a call are found.

use vstd::prelude::*;
use crate::ast::{Span, TypeExpr};
use crate::chain::Chain;
use crate::context::{Ctx, Decl, TyEnv};
use crate::laws::lists::{law_concat, law_count, law_nth, law_same_len, law_set_nth};
use crate::laws::rows::{canonical, elements, law_canonical_row};
use crate::laws::written::law_resolve_types;
use crate::model::answers::join;
use crate::model::calls::{explicit_types, resolve_all_now, set_from};
use crate::model::infer::{bind_row_var, bind_type_var, element_comparable, elements_comparable, filled_types, first_open, join_branches, join_from, row_so_far, settled_rows, unify, unify_all};
use crate::model::lists::{concat, one, same_len, set_nth};
use crate::model::rows::{canonical_row, substitute_row};
use crate::model::subst::{substitute, substitute_all};
use crate::problem::Stop;
use crate::state::{BranchType, Solution};
use crate::text::Text;
use crate::types::{Row, RowElem, Ty};

verus! {

/// Binding a type variable fills it where it is open, keeps what it has
/// where that is the same or nothing may change it, and leaves every other
/// variable as it is.
pub proof fn law_bind_type_var(cx: &Ctx, solution: Solution, index: u32, actual: &Ty, covariant: bool)
    requires
        index < solution.types@.len(),
    ensures
        solution.types@[index as int] is None ==> (bind_type_var(cx, solution, index, actual, covariant) matches Ok(next) && next.types@ == solution.types@.update(index as int, Some(*actual))
            && next.rows == solution.rows),
        solution.types@[index as int] matches Some(previous) ==> (previous == *actual || !covariant ==> bind_type_var(cx, solution, index, actual, covariant) == Ok::<Solution, Stop>(
            solution,
        )),
        solution.types@[index as int] matches Some(previous) ==> (bind_type_var(cx, solution, index, actual, covariant) matches Ok(next) ==> next == solution || (join(
            cx,
            &previous,
            actual,
        ) matches Ok(Some(both)) && next.types@ == solution.types@.update(index as int, Some(both)))),
{
    law_nth(&solution.types, index);
    law_set_nth(solution.types, index, Some(*actual));
    if let Some(previous) = solution.types@[index as int] {
        if let Ok(Some(both)) = join(cx, &previous, actual) {
            law_set_nth(solution.types, index, Some(both));
        }
    }
}

/// Whether what is found so far is what the arguments are.
pub open spec fn agrees(solution: Solution, types: Chain<Ty>) -> bool {
    &&& solution.types@.len() == types@.len()
    &&& forall|i: int| 0 <= i < types@.len() ==> (#[trigger] solution.types@[i] matches Some(found) ==> found == types@[i])
}

/// Whether every found argument stays found.
pub open spec fn keeps_found(before: Solution, after: Solution) -> bool {
    forall|i: int| 0 <= i < before.types@.len() && before.types@[i] is Some ==> #[trigger] after.types@[i] == before.types@[i]
}

/// Whether a type names a variable where inference can see it.
pub open spec fn shows(ty: Ty, index: u32) -> bool
    decreases ty,
{
    match ty {
        Ty::Var(own) => own == index,
        Ty::Inst(_, args) => shows_in(args, index),
        Ty::ListOf(item) => shows(*item, index),
        Ty::MapOf(key, value) => shows(*key, index) || shows(*value, index),
        Ty::Tuple(items) => shows_in(items, index),
        Ty::Fn(params, _, ret, _) => shows_in(params, index) || shows(*ret, index),
        Ty::Callback(params, _, ret, _) => shows_in(params, index) || shows(*ret, index),
        _ => false,
    }
}

/// Whether a type of a list does.
pub open spec fn shows_in(items: Chain<Ty>, index: u32) -> bool
    decreases items,
{
    match items {
        Chain::Nil => false,
        Chain::Cons(head, tail) => shows(*head, index) || shows_in(*tail, index),
    }
}

/// Whether inference finds what the arguments are, and each one that the
/// declared type shows.
pub open spec fn finds(before: Solution, types: Chain<Ty>, decl: Ty, result: Result<Solution, Stop>) -> bool {
    &&& result is Ok
    &&& agrees(result->Ok_0, types)
    &&& keeps_found(before, result->Ok_0)
    &&& forall|index: u32| index < types@.len() && #[trigger] shows(decl, index) ==> result->Ok_0.types@[index as int] == Some(types@[index as int])
}

/// The same of a list.
pub open spec fn finds_in(before: Solution, types: Chain<Ty>, decls: Chain<Ty>, result: Result<Solution, Stop>) -> bool {
    &&& result is Ok
    &&& agrees(result->Ok_0, types)
    &&& keeps_found(before, result->Ok_0)
    &&& forall|index: u32| index < types@.len() && #[trigger] shows_in(decls, index) ==> result->Ok_0.types@[index as int] == Some(types@[index as int])
}

/// Whether every argument has values.
pub open spec fn inhabited(types: Chain<Ty>) -> bool {
    forall|i: int| 0 <= i < types@.len() ==> #[trigger] types@[i] != Ty::Never
}

proof fn lemma_same_shape(items: Chain<Ty>, types: Chain<Ty>, rows: Chain<Row>)
    ensures
        substitute_all(&items, &types, &rows)@.len() == items@.len(),
    decreases items,
{
    if let Chain::Cons(_, tail) = items {
        lemma_same_shape(*tail, types, rows);
    }
}

proof fn lemma_rows_aside(declared: Row, actual: Row, solution: Solution)
    ensures
        bind_row_var(&declared, &actual, solution).types == solution.types,
{
}

/// Inference finds the arguments under which a declared type is the actual
/// one: where the actual type is the declared one under some arguments,
/// each argument that the declared type shows comes out, and nothing else.
pub proof fn law_unify_finds(cx: &Ctx, decl: Ty, types: Chain<Ty>, rows: Chain<Row>, solution: Solution, covariant: bool)
    requires
        agrees(solution, types),
        inhabited(types),
    ensures
        finds(solution, types, decl, unify(cx, &decl, &substitute(&decl, &types, &rows), solution, covariant)),
    decreases decl, 1int,
{
    let actual = substitute(&decl, &types, &rows);
    match decl {
        Ty::Var(index) => {
            law_nth(&types, index);
            law_nth(&solution.types, index);
            if index < types@.len() {
                assert(types@[index as int] != Ty::Never);
                law_bind_type_var(cx, solution, index, &actual, covariant);
                assert(solution.types@[index as int] matches Some(found) ==> found == types@[index as int]);
                assert(unify(cx, &decl, &actual, solution, covariant) == bind_type_var(cx, solution, index, &actual, covariant));
                assert(unify(cx, &decl, &actual, solution, covariant) is Ok);
                let next = unify(cx, &decl, &actual, solution, covariant)->Ok_0;
                assert(next.types@[index as int] == Some(types@[index as int]));
                assert(next.types@.len() == types@.len());
                assert forall|i: int| 0 <= i < types@.len() implies (#[trigger] next.types@[i] matches Some(found) ==> found == types@[i]) by {
                    if i != index {
                        assert(next.types@[i] == solution.types@[i]);
                    }
                }
                assert(agrees(next, types));
                assert(keeps_found(solution, next));
                assert forall|other: u32| other < types@.len() && #[trigger] shows(decl, other) implies next.types@[other as int] == Some(types@[other as int]) by {
                    assert(other == index);
                }
            } else {
                assert(unify(cx, &decl, &actual, solution, covariant) == Ok::<Solution, Stop>(solution));
                assert forall|other: u32| other < types@.len() && #[trigger] shows(decl, other) implies solution.types@[other as int] == Some(types@[other as int]) by {
                    assert(other == index);
                }
                assert(keeps_found(solution, solution));
                assert(agrees(solution, types));
            }
        },
        Ty::Inst(class, args) => {
            lemma_same_shape(args, types, rows);
            law_same_len(&args, &substitute_all(&args, &types, &rows));
            law_unify_finds_all(cx, args, types, rows, solution, false);
            let last = unify(cx, &decl, &actual, solution, covariant)->Ok_0;
            assert forall|other: u32| other < types@.len() && #[trigger] shows(decl, other) implies last.types@[other as int] == Some(types@[other as int]) by {
                assert(shows_in(args, other));
            }
        },
        Ty::ListOf(item) => {
            law_unify_finds(cx, *item, types, rows, solution, false);
            let last = unify(cx, &decl, &actual, solution, covariant)->Ok_0;
            assert forall|other: u32| other < types@.len() && #[trigger] shows(decl, other) implies last.types@[other as int] == Some(types@[other as int]) by {
                assert(shows(*item, other));
            }
        },
        Ty::MapOf(key, value) => {
            law_unify_finds(cx, *key, types, rows, solution, false);
            let next = unify(cx, &*key, &substitute(&*key, &types, &rows), solution, false)->Ok_0;
            law_unify_finds(cx, *value, types, rows, next, false);
            let last = unify(cx, &decl, &actual, solution, covariant)->Ok_0;
            assert(forall|i: int| 0 <= i < solution.types@.len() && solution.types@[i] is Some ==> next.types@[i] == solution.types@[i]);
            assert forall|other: u32| other < types@.len() && #[trigger] shows(decl, other) implies last.types@[other as int] == Some(types@[other as int]) by {
                if shows(*key, other) {
                    assert(next.types@[other as int] == Some(types@[other as int]));
                } else {
                    assert(shows(*value, other));
                }
            }
        },
        Ty::Tuple(items) => {
            lemma_same_shape(items, types, rows);
            law_same_len(&items, &substitute_all(&items, &types, &rows));
            law_unify_finds_all(cx, items, types, rows, solution, covariant);
            let last = unify(cx, &decl, &actual, solution, covariant)->Ok_0;
            assert forall|other: u32| other < types@.len() && #[trigger] shows(decl, other) implies last.types@[other as int] == Some(types@[other as int]) by {
                assert(shows_in(items, other));
            }
        },
        Ty::Fn(params, _, ret, row) => {
            lemma_callable(cx, decl, params, *ret, row, types, rows, solution);
            let last = unify(cx, &decl, &actual, solution, covariant)->Ok_0;
            assert forall|other: u32| other < types@.len() && #[trigger] shows(decl, other) implies last.types@[other as int] == Some(types@[other as int]) by {
                assert(shows_in(params, other) || shows(*ret, other));
            }
        },
        Ty::Callback(params, _, ret, row) => {
            lemma_callable(cx, decl, params, *ret, row, types, rows, solution);
            let last = unify(cx, &decl, &actual, solution, covariant)->Ok_0;
            assert forall|other: u32| other < types@.len() && #[trigger] shows(decl, other) implies last.types@[other as int] == Some(types@[other as int]) by {
                assert(shows_in(params, other) || shows(*ret, other));
            }
        },
        _ => {},
    }
}

proof fn lemma_callable(cx: &Ctx, decl: Ty, params: Chain<Ty>, ret: Ty, row: Row, types: Chain<Ty>, rows: Chain<Row>, solution: Solution)
    requires
        (decl matches Ty::Fn(own, _, result, _) && own == params && *result == ret) || (decl matches Ty::Callback(own, _, result, _) && own == params && *result == ret),
        agrees(solution, types),
        inhabited(types),
    ensures
        ({
            let first = unify_all(cx, &params, &substitute_all(&params, &types, &rows), solution, false);
            let second = unify(cx, &ret, &substitute(&ret, &types, &rows), first->Ok_0, true);
            let last = bind_row_var(&row, &substitute_row(&row, &rows), second->Ok_0);
            &&& same_len(&params, &substitute_all(&params, &types, &rows))
            &&& first is Ok
            &&& second is Ok
            &&& agrees(last, types)
            &&& keeps_found(solution, last)
            &&& forall|index: u32| index < types@.len() && #[trigger] shows_in(params, index) ==> last.types@[index as int] == Some(types@[index as int])
            &&& forall|index: u32| index < types@.len() && #[trigger] shows(ret, index) ==> last.types@[index as int] == Some(types@[index as int])
        }),
    decreases decl, 0int,
{
    lemma_same_shape(params, types, rows);
    law_same_len(&params, &substitute_all(&params, &types, &rows));
    law_unify_finds_all(cx, params, types, rows, solution, false);
    let first = unify_all(cx, &params, &substitute_all(&params, &types, &rows), solution, false)->Ok_0;
    law_unify_finds(cx, ret, types, rows, first, true);
    let second = unify(cx, &ret, &substitute(&ret, &types, &rows), first, true)->Ok_0;
    lemma_rows_aside(row, substitute_row(&row, &rows), second);
}

/// The same of types position by position.
pub proof fn law_unify_finds_all(cx: &Ctx, decls: Chain<Ty>, types: Chain<Ty>, rows: Chain<Row>, solution: Solution, covariant: bool)
    requires
        agrees(solution, types),
        inhabited(types),
    ensures
        finds_in(solution, types, decls, unify_all(cx, &decls, &substitute_all(&decls, &types, &rows), solution, covariant)),
    decreases decls, 1int,
{
    if let Chain::Cons(head, tail) = decls {
        law_unify_finds(cx, *head, types, rows, solution, covariant);
        let next = unify(cx, &*head, &substitute(&*head, &types, &rows), solution, covariant)->Ok_0;
        law_unify_finds_all(cx, *tail, types, rows, next, covariant);
        let last = unify_all(cx, &*tail, &substitute_all(&*tail, &types, &rows), next, covariant);
        assert(unify_all(cx, &decls, &substitute_all(&decls, &types, &rows), solution, covariant) == last);
        assert forall|i: int| 0 <= i < solution.types@.len() && solution.types@[i] is Some implies #[trigger] last->Ok_0.types@[i] == solution.types@[i] by {
            assert(next.types@[i] == solution.types@[i]);
        }
        assert forall|index: u32| index < types@.len() && #[trigger] shows_in(decls, index) implies last->Ok_0.types@[index as int] == Some(types@[index as int]) by {
            if shows(*head, index) {
                assert(next.types@[index as int] == Some(types@[index as int]));
            } else {
                assert(shows_in(*tail, index));
            }
        }
    }
}

/// The arguments of a call are those that were found.
pub proof fn law_filled_types(types: &Chain<Option<Ty>>, at: u32)
    ensures
        filled_types(types, at)@.len() == types@.len(),
        forall|i: int| 0 <= i < types@.len() ==> (#[trigger] types@[i] matches Some(found) ==> filled_types(types, at)@[i] == found),
        at + types@.len() <= u32::MAX ==> forall|i: int| 0 <= i < types@.len() ==> (#[trigger] types@[i] is None ==> filled_types(types, at)@[i] == Ty::Var((at + i) as u32)),
    decreases types,
{
    if let Chain::Cons(_, tail) = types {
        let next = at.wrapping_add(1);
        law_filled_types(tail, next);
        assert forall|i: int| 0 <= i < types@.len() implies (#[trigger] types@[i] matches Some(found) ==> filled_types(types, at)@[i] == found) by {
            if i > 0 {
                assert(types@[i] == tail@[i - 1]);
                assert(filled_types(types, at)@[i] == filled_types(tail, next)@[i - 1]);
            }
        }
        if at + types@.len() <= u32::MAX {
            assert forall|i: int| 0 <= i < types@.len() && #[trigger] types@[i] is None implies filled_types(types, at)@[i] == Ty::Var((at + i) as u32) by {
                if i > 0 {
                    assert(types@[i] == tail@[i - 1]);
                    assert(filled_types(types, at)@[i] == filled_types(tail, next)@[i - 1]);
                }
            }
        }
    }
}

/// The effect arguments of a call are those that were found; one that
/// nothing fixes is empty.
pub proof fn law_settled_rows(rows: &Chain<Option<Row>>)
    ensures
        settled_rows(rows)@.len() == rows@.len(),
        forall|i: int| 0 <= i < rows@.len() ==> settled_rows(rows)@[i] == (match #[trigger] rows@[i] {
            Some(row) => row,
            None => Chain::Nil,
        }),
    decreases rows,
{
    if let Chain::Cons(_, tail) = rows {
        law_settled_rows(tail);
        assert forall|i: int| 0 <= i < rows@.len() implies settled_rows(rows)@[i] == (match #[trigger] rows@[i] {
            Some(row) => row,
            None => Chain::Nil,
        }) by {
            if i > 0 {
                assert(rows@[i] == tail@[i - 1]);
                assert(settled_rows(rows)@[i] == settled_rows(tail)@[i - 1]);
            }
        }
    }
}

/// A call has every type argument exactly where none is open.
pub proof fn law_first_open(types: &Chain<Option<Ty>>)
    ensures
        first_open(types) is None <==> forall|i: int| 0 <= i < types@.len() ==> #[trigger] types@[i] is Some,
    decreases types,
{
    if let Chain::Cons(head, tail) = types {
        law_first_open(tail);
        assert(types@[0] == **head);
        if first_open(types) is None {
            assert forall|i: int| 0 <= i < types@.len() implies #[trigger] types@[i] is Some by {
                if i > 0 {
                    assert(types@[i] == tail@[i - 1]);
                }
            }
        } else if **head is Some {
            let i = choose|i: int| 0 <= i < tail@.len() && #[trigger] tail@[i] is None;
            assert(types@[i + 1] is None);
        }
    }
}

/// A declared row that is one effect variable takes in what the actual row
/// has; any other declared row binds nothing.
pub proof fn law_bind_row_var(declared: &Row, actual: &Row, solution: Solution)
    ensures
        bind_row_var(declared, actual, solution).types == solution.types,
        bind_row_var(declared, actual, solution).rows@.len() == solution.rows@.len(),
        forall|index: u32| *declared == #[trigger] one(RowElem::Var(index)) && index < solution.rows@.len() ==> (bind_row_var(declared, actual, solution).rows@[index as int] matches Some(row)
            && canonical(row) && elements(row) == elements(row_so_far(&solution.rows, index)).union(elements(*actual))),
        declared@.len() != 1 ==> bind_row_var(declared, actual, solution) == solution,
{
    reveal_with_fuel(Chain::items, 3);
    if let Chain::Cons(only, rest) = declared {
        if let RowElem::Var(index) = **only {
            law_nth(&solution.rows, index);
            let both = concat(row_so_far(&solution.rows, index), *actual);
            law_canonical_row(both);
            lemma_both(row_so_far(&solution.rows, index), *actual);
            law_set_nth(solution.rows, index, Some(canonical_row(&both)));
        }
    }
}

proof fn lemma_both(a: Row, b: Row)
    ensures
        elements(concat(a, b)) == elements(a).union(elements(b)),
{
    law_concat(a, b);
    assert forall|e: RowElem| elements(concat(a, b)).contains(e) == elements(a).union(elements(b)).contains(e) by {
        let all = a@ + b@;
        if a@.contains(e) {
            let i = a@.index_of(e);
            assert(all[i] == e);
        }
        if b@.contains(e) {
            let i = b@.index_of(e);
            assert(all[a@.len() + i] == e);
        }
        if all.contains(e) {
            let i = all.index_of(e);
            if i < a@.len() {
                assert(a@[i] == e);
            } else {
                assert(b@[i - a@.len()] == e);
            }
        }
    }
    assert(elements(concat(a, b)) =~= elements(a).union(elements(b)));
}

/// A call that writes type arguments writes as many as are its own.
pub proof fn law_explicit_types(cx: &Ctx, env: &TyEnv, what: &Text, solution: Solution, names: u32, own_start: u32, explicit: &Chain<TypeExpr>, span: Span)
    requires
        own_start <= names,
        explicit@.len() <= u32::MAX,
        explicit_types(cx, env, what, solution, names, own_start, explicit, span) is Ok,
    ensures
        explicit@.len() == 0 ==> explicit_types(cx, env, what, solution, names, own_start, explicit, span)->Ok_0 == solution,
        explicit@.len() > 0 ==> explicit@.len() == names - own_start && resolve_all_now(cx, env, explicit) is Ok,
        explicit@.len() > 0 && solution.types@.len() == names ==> forall|i: int|
            0 <= i < names ==> #[trigger] explicit_types(cx, env, what, solution, names, own_start, explicit, span)->Ok_0.types@[i] == (if i < own_start {
                solution.types@[i]
            } else {
                Some(resolve_all_now(cx, env, explicit)->Ok_0@[i - own_start])
            }),
{
    law_count(explicit);
    if explicit@.len() > 0 {
        let found = resolve_all_now(cx, env, explicit)->Ok_0;
        law_resolve_types(cx, env, Decl { keys: Chain::Nil, next_func: 0, values: Chain::Nil }, explicit);
        lemma_set_from(solution.types, own_start, found);
    }
}

proof fn lemma_set_from(types: Chain<Option<Ty>>, at: u32, found: Chain<Ty>)
    ensures
        set_from(types, at, found)@.len() == types@.len(),
        at + found@.len() <= types@.len() && types@.len() <= u32::MAX ==> forall|i: int| 0 <= i < types@.len() ==> #[trigger] set_from(types, at, found)@[i] == (if at <= i < at + found@.len() {
            Some(found@[i - at])
        } else {
            types@[i]
        }),
    decreases found,
{
    if let Chain::Cons(head, tail) = found {
        let next = set_nth(types, at, Some(*head));
        law_set_nth(types, at, Some(*head));
        lemma_set_from(next, at.wrapping_add(1), *tail);
        if at + found@.len() <= types@.len() && types@.len() <= u32::MAX {
            if at + 1 <= u32::MAX {
                assert forall|i: int| 0 <= i < types@.len() implies #[trigger] set_from(types, at, found)@[i] == (if at <= i < at + found@.len() {
                    Some(found@[i - at])
                } else {
                    types@[i]
                }) by {
                    assert(set_from(types, at, found)@[i] == set_from(next, at.wrapping_add(1), *tail)@[i]);
                    if i > at && i < at + found@.len() {
                        assert(found@[i - at] == tail@[i - at - 1]);
                    }
                }
            }
        }
    }
}

/// Branches that never complete give no type; what completes joins alone.
pub proof fn law_join_branches(cx: &Ctx, branches: &Chain<BranchType>)
    ensures
        (forall|i: int| 0 <= i < branches@.len() ==> (#[trigger] branches@[i]).ty == Ty::Never) ==> join_branches(cx, branches) == Ok::<Ty, Stop>(Ty::Never),
        forall|at: int| #[trigger] completes_alone(*branches, at) ==> join_branches(cx, branches) == Ok::<Ty, Stop>(branches@[at].ty),
{
    lemma_join_never(cx, None, branches);
    assert forall|at: int| #[trigger] completes_alone(*branches, at) implies join_branches(cx, branches) == Ok::<Ty, Stop>(branches@[at].ty) by {
        lemma_join_one(cx, branches, at);
    }
}

/// Whether one branch completes and no other does.
pub open spec fn completes_alone(branches: Chain<BranchType>, at: int) -> bool {
    &&& 0 <= at < branches@.len()
    &&& branches@[at].ty != Ty::Never
    &&& forall|i: int| 0 <= i < branches@.len() && i != at ==> (#[trigger] branches@[i]).ty == Ty::Never
}

proof fn lemma_join_never(cx: &Ctx, joined: Option<Ty>, branches: &Chain<BranchType>)
    ensures
        (forall|i: int| 0 <= i < branches@.len() ==> (#[trigger] branches@[i]).ty == Ty::Never) ==> join_from(cx, joined, branches) == Ok::<Option<Ty>, Stop>(joined),
    decreases branches,
{
    if let Chain::Cons(head, tail) = branches {
        lemma_join_never(cx, joined, tail);
        if forall|i: int| 0 <= i < branches@.len() ==> (#[trigger] branches@[i]).ty == Ty::Never {
            assert(branches@[0].ty == Ty::Never);
            assert forall|i: int| 0 <= i < tail@.len() implies (#[trigger] tail@[i]).ty == Ty::Never by {
                assert(branches@[i + 1].ty == Ty::Never);
            }
        }
    }
}

proof fn lemma_join_one(cx: &Ctx, branches: &Chain<BranchType>, at: int)
    requires
        completes_alone(*branches, at),
    ensures
        join_from(cx, None, branches) == Ok::<Option<Ty>, Stop>(Some(branches@[at].ty)),
    decreases branches,
{
    if let Chain::Cons(head, tail) = branches {
        assert(branches@[0] == **head);
        assert forall|i: int| 0 <= i < tail@.len() && i != at - 1 implies (#[trigger] tail@[i]).ty == Ty::Never by {
            assert(branches@[i + 1] == tail@[i]);
        }
        if at == 0 {
            lemma_join_never(cx, Some(head.ty), tail);
        } else {
            assert(branches@[at] == tail@[at - 1]);
            lemma_join_one(cx, tail, at - 1);
        }
    }
}

/// A tuple can be compared where each of its elements can.
pub proof fn law_elements_comparable(cx: &Ctx, items: &Chain<Ty>)
    ensures
        elements_comparable(cx, items) == Ok::<bool, Stop>(true) <==> forall|i: int| 0 <= i < items@.len() ==> element_comparable(cx, &#[trigger] items@[i]) == Ok::<bool, Stop>(true),
    decreases items,
{
    if let Chain::Cons(head, tail) = items {
        law_elements_comparable(cx, tail);
        assert(items@[0] == **head);
        if elements_comparable(cx, items) == Ok::<bool, Stop>(true) {
            assert forall|i: int| 0 <= i < items@.len() implies element_comparable(cx, &#[trigger] items@[i]) == Ok::<bool, Stop>(true) by {
                if i > 0 {
                    assert(items@[i] == tail@[i - 1]);
                }
            }
        } else if element_comparable(cx, &**head) == Ok::<bool, Stop>(true) {
            let i = choose|i: int| 0 <= i < tail@.len() && element_comparable(cx, &#[trigger] tail@[i]) != Ok::<bool, Stop>(true);
            assert(items@[i + 1] == tail@[i]);
            assert(element_comparable(cx, &items@[i + 1]) != Ok::<bool, Stop>(true));
        }
    }
}

} // verus!
