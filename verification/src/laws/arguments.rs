//! Arguments: what a call has proved of what it hands over.

use vstd::prelude::*;
use crate::ast::{Expr, Span, TypeExpr};
use crate::chain::Chain;
use crate::context::{Ctx, InterfaceUse, TyEnv};
use crate::hir::HExpr;
use crate::laws::fitting::{arguments_fit, law_each_fits, law_settled_fit, under};
use crate::laws::lists::{law_concat, law_count};
use crate::laws::rows::{elements, law_canonical_row};
use crate::model::answers::row_included;
use crate::model::calls::{check_args_simple, check_each, check_nth, check_poly_call, expected_types, explicit_types, presynth, settle_args, settle_one};
use crate::model::conform::type_conforms;
use crate::model::infer::{arrange_args, check_argument_bounds, check_type_arguments};
use crate::model::lists::{concat, count};
use crate::model::scope::charge_row;
use crate::model::subst::{contains_callback_in, substitute, substitute_interface_use};
use crate::problem::Stop;
use crate::state::{Checker, PolyOut, Signature, Solution};
use crate::text::Text;
use crate::types::{Row, RowElem, Ty};

verus! {

/// Whether a type conforms to each bound, with the arguments of a call
/// substituted.
pub open spec fn meets_bounds(cx: &Ctx, env: TyEnv, argument: Ty, bounds: Chain<InterfaceUse>, types: Chain<Ty>, rows: Chain<Row>) -> bool {
    forall|i: int|
        0 <= i < bounds@.len() ==> type_conforms(cx, &env, &argument, &substitute_interface_use(&#[trigger] bounds@[i], &types, &rows))
}

/// A type argument is accepted exactly where it conforms to every bound of
/// its parameter.
pub proof fn law_argument_bounds(
    cx: &Ctx,
    env: &TyEnv,
    argument: &Ty,
    bounds: &Chain<InterfaceUse>,
    types: &Chain<Ty>,
    rows: &Chain<Row>,
    span: Span,
)
    ensures
        check_argument_bounds(cx, env, argument, bounds, types, rows, span) is Ok <==> meets_bounds(cx, *env, *argument, *bounds, *types, *rows),
    decreases bounds,
{
    match bounds {
        Chain::Nil => {},
        Chain::Cons(head, tail) => {
            law_argument_bounds(cx, env, argument, &**tail, types, rows, span);
            assert(bounds@[0] == **head);
            assert forall|i: int| 0 <= i < tail@.len() implies #[trigger] tail@[i] == bounds@[i + 1] by {}
            if check_argument_bounds(cx, env, argument, bounds, types, rows, span) is Ok {
                assert forall|i: int| 0 <= i < bounds@.len() implies type_conforms(
                    cx,
                    env,
                    argument,
                    &substitute_interface_use(&#[trigger] bounds@[i], types, rows),
                ) by {
                    if i > 0 {
                        assert(tail@[i - 1] == bounds@[i]);
                    }
                }
            } else if type_conforms(cx, env, argument, &substitute_interface_use(&**head, types, rows)) {
                let i = choose|i: int|
                    0 <= i < tail@.len() && !type_conforms(cx, env, argument, &substitute_interface_use(&#[trigger] tail@[i], types, rows));
                assert(bounds@[i + 1] == tail@[i]);
            }
        },
    }
}

/// Whether each type argument conforms to every bound of its parameter.
pub open spec fn arguments_conform(
    cx: &Ctx,
    env: TyEnv,
    arguments: Chain<Ty>,
    bounds: Chain<Chain<InterfaceUse>>,
    types: Chain<Ty>,
    rows: Chain<Row>,
) -> bool {
    forall|i: int|
        0 <= i < arguments@.len() && i < bounds@.len() ==> meets_bounds(cx, env, #[trigger] arguments@[i], bounds@[i], types, rows)
}

/// Type arguments are accepted exactly where each conforms to every bound
/// of its parameter.
pub proof fn law_type_arguments(
    cx: &Ctx,
    env: &TyEnv,
    arguments: &Chain<Ty>,
    bounds: &Chain<Chain<InterfaceUse>>,
    types: &Chain<Ty>,
    rows: &Chain<Row>,
    span: Span,
)
    ensures
        check_type_arguments(cx, env, arguments, bounds, types, rows, span) is Ok <==> arguments_conform(
            cx,
            *env,
            *arguments,
            *bounds,
            *types,
            *rows,
        ),
    decreases bounds,
{
    match (arguments, bounds) {
        (Chain::Cons(argument, more), Chain::Cons(list, rest)) => {
            law_argument_bounds(cx, env, &**argument, &**list, types, rows, span);
            law_type_arguments(cx, env, &**more, &**rest, types, rows, span);
            assert(arguments@[0] == **argument && bounds@[0] == **list);
            assert forall|i: int| 0 <= i < more@.len() && i < rest@.len() implies #[trigger] more@[i] == arguments@[i + 1] && rest@[i] == bounds@[i
                + 1] by {}
            if check_type_arguments(cx, env, arguments, bounds, types, rows, span) is Ok {
                assert forall|i: int| 0 <= i < arguments@.len() && i < bounds@.len() implies meets_bounds(
                    cx,
                    *env,
                    #[trigger] arguments@[i],
                    bounds@[i],
                    *types,
                    *rows,
                ) by {
                    if i > 0 {
                        assert(meets_bounds(cx, *env, more@[i - 1], rest@[i - 1], *types, *rows));
                    }
                }
            } else if meets_bounds(cx, *env, **argument, **list, *types, *rows) {
                let i = choose|i: int|
                    0 <= i < more@.len() && i < rest@.len() && !meets_bounds(cx, *env, #[trigger] more@[i], rest@[i], *types, *rows);
                assert(arguments@[i + 1] == more@[i]);
            } else {
                assert(!meets_bounds(cx, *env, arguments@[0], bounds@[0], *types, *rows));
            }
        },
        _ => {},
    }
}

/// Whether each value that a `mut` parameter takes is mutable.
pub open spec fn capable(values: Seq<HExpr>, muts: Seq<bool>) -> bool {
    forall|i: int| 0 <= i < values.len() && i < muts.len() && muts[i] ==> (#[trigger] values[i]).mutable
}

proof fn lemma_capable(value: HExpr, values: Seq<HExpr>, flag: bool, muts: Seq<bool>)
    requires
        flag ==> value.mutable,
        capable(values, muts),
    ensures
        capable(seq![value] + values, seq![flag] + muts),
{
    let all = seq![value] + values;
    assert forall|i: int| 0 <= i < all.len() && i < (seq![flag] + muts).len() && (seq![flag] + muts)[i] implies (#[trigger] all[i]).mutable by {
        if i > 0 {
            assert(all[i] == values[i - 1]);
        }
    }
}

/// A call with concrete parameters hands a `mut` parameter mutable values
/// alone.
pub proof fn law_check_each(
    cx: &Ctx,
    st: Checker,
    args: &Chain<Expr>,
    order: &Chain<u32>,
    params: &Chain<Ty>,
    muts: &Chain<bool>,
    span: Span,
)
    ensures
        check_each(cx, st, args, order, params, muts, span).1 matches Ok(values) ==> capable(values@, muts@) && values@.len() <= order@.len() && (
        params@.len() == order@.len() && muts@.len() == order@.len() ==> values@.len() == order@.len()),
    decreases order,
{
    match (order, params, muts) {
        (Chain::Cons(at, order_rest), Chain::Cons(param, params_rest), Chain::Cons(flag, muts_rest)) => {
            let (next, value) = check_nth(cx, st, args, **at, &**param, span);
            law_check_each(cx, next, args, &**order_rest, &**params_rest, &**muts_rest, span);
            if let Ok(values) = check_each(cx, st, args, order, params, muts, span).1 {
                let rest = check_each(cx, next, args, &**order_rest, &**params_rest, &**muts_rest, span).1->Ok_0;
                lemma_capable(value->Ok_0, rest@, **flag, muts_rest@);
                assert(values@ =~= seq![value->Ok_0] + rest@);
                assert(muts@ =~= seq![**flag] + muts_rest@);
            }
        },
        _ => {},
    }
}

/// A generic call hands a `mut` parameter mutable values alone.
pub proof fn law_settle_args(
    cx: &Ctx,
    st: Checker,
    args: &Chain<Expr>,
    order: &Chain<u32>,
    params: &Chain<Ty>,
    muts: &Chain<bool>,
    values: Chain<Option<HExpr>>,
    types: &Chain<Ty>,
    rows: &Chain<Row>,
    span: Span,
)
    ensures
        settle_args(cx, st, args, order, params, muts, values, types, rows, span).1 matches Ok(found) ==> capable(found@, muts@),
    decreases order,
{
    match (order, params, muts, values) {
        (Chain::Cons(at, order_rest), Chain::Cons(param, params_rest), Chain::Cons(flag, muts_rest), Chain::Cons(early, values_rest)) => {
            let (next, value) = settle_one(cx, st, args, **at, *early, &substitute(&**param, types, rows), span);
            law_settle_args(cx, next, args, &**order_rest, &**params_rest, &**muts_rest, *values_rest, types, rows, span);
            if let Ok(found) = settle_args(cx, st, args, order, params, muts, values, types, rows, span).1 {
                let rest = settle_args(cx, next, args, &**order_rest, &**params_rest, &**muts_rest, *values_rest, types, rows, span).1->Ok_0;
                lemma_capable(value->Ok_0, rest@, **flag, muts_rest@);
                assert(found@ =~= seq![value->Ok_0] + rest@);
                assert(muts@ =~= seq![**flag] + muts_rest@);
            }
        },
        _ => {},
    }
}

/// What checking the arguments of a call gives.
#[verifier::opaque]
spec fn handed(cx: &Ctx, st: Checker, args: Chain<Expr>, order: Chain<u32>, params: Chain<Ty>, muts: Chain<bool>, span: Span) -> (
    Checker,
    Result<Chain<HExpr>, Stop>,
) {
    check_each(cx, st, &args, &order, &params, &muts, span)
}

proof fn lemma_handed(cx: &Ctx, st: Checker, args: Chain<Expr>, order: Chain<u32>, params: Chain<Ty>, muts: Chain<bool>, span: Span)
    ensures
        handed(cx, st, args, order, params, muts, span).1 matches Ok(values) ==> capable(values@, muts@) && arguments_fit(cx, params@, values@),
{
    reveal(handed);
    law_each_fits(cx, st, &args, &order, &params, &muts, span);
    law_check_each(cx, st, &args, &order, &params, &muts, span);
}

/// What checking the arguments against concrete parameters gives.
#[verifier::opaque]
spec fn simple(cx: &Ctx, st: Checker, args: Chain<Expr>, params: Chain<Ty>, muts: Chain<bool>, names: Chain<Text>, what: Text, span: Span) -> (
    Checker,
    Result<Chain<HExpr>, Stop>,
) {
    check_args_simple(cx, st, &args, &params, &muts, &names, &what, span)
}

proof fn lemma_args_simple(
    cx: &Ctx,
    st: Checker,
    args: &Chain<Expr>,
    params: &Chain<Ty>,
    muts: &Chain<bool>,
    names: &Chain<Text>,
    what: &Text,
    span: Span,
)
    ensures
        simple(cx, st, *args, *params, *muts, *names, *what, span).1 matches Ok(values) ==> count(args) == count(params) && exists|
            order: Chain<u32>,
        |
            (#[trigger] handed(cx, st, *args, order, *params, *muts, span)).1 == Ok::<Chain<HExpr>, Stop>(values),
{
    reveal(simple);
    reveal(handed);
    if let Ok(values) = check_args_simple(cx, st, args, params, muts, names, what, span).1 {
        let order = arrange_args(args, names)->Ok_0;
        assert(handed(cx, st, *args, order, *params, *muts, span).1 == Ok::<Chain<HExpr>, Stop>(values));
    }
}

proof fn lemma_simple(
    cx: &Ctx,
    st: Checker,
    args: &Chain<Expr>,
    params: &Chain<Ty>,
    muts: &Chain<bool>,
    names: &Chain<Text>,
    what: &Text,
    span: Span,
)
    requires
        args@.len() <= u32::MAX,
        params@.len() <= u32::MAX,
    ensures
        simple(cx, st, *args, *params, *muts, *names, *what, span).1 matches Ok(values) ==> args@.len() == params@.len() && capable(values@, muts@) && arguments_fit(cx, params@, values@),
{
    law_count(args);
    law_count(params);
    lemma_args_simple(cx, st, args, params, muts, names, what, span);
    if let Ok(values) = simple(cx, st, *args, *params, *muts, *names, *what, span).1 {
        let order = choose|order: Chain<u32>|
            (#[trigger] handed(cx, st, *args, order, *params, *muts, span)).1 == Ok::<Chain<HExpr>, Stop>(values);
        lemma_handed(cx, st, *args, order, *params, *muts, span);
    }
}

/// An accepted argument count is that of the parameters, each argument fits
/// its parameter, and a `mut` parameter takes mutable values alone.
pub proof fn law_check_args_simple(
    cx: &Ctx,
    st: Checker,
    args: &Chain<Expr>,
    params: &Chain<Ty>,
    muts: &Chain<bool>,
    names: &Chain<Text>,
    what: &Text,
    span: Span,
)
    requires
        args@.len() <= u32::MAX,
        params@.len() <= u32::MAX,
    ensures
        check_args_simple(cx, st, args, params, muts, names, what, span).1 matches Ok(values) ==> args@.len() == params@.len() && capable(
            values@,
            muts@,
        ) && arguments_fit(cx, params@, values@),
{
    lemma_simple(cx, st, args, params, muts, names, what, span);
    reveal(simple);
}

/// What settling the arguments of a generic call gives.
#[verifier::opaque]
spec fn settled(
    cx: &Ctx,
    st: Checker,
    args: Chain<Expr>,
    order: Chain<u32>,
    sig: Signature,
    values: Chain<Option<HExpr>>,
    types: Chain<Ty>,
    rows: Chain<Row>,
    span: Span,
) -> (Checker, Result<Chain<HExpr>, Stop>) {
    settle_args(cx, st, &args, &order, &sig.params, &sig.muts, values, &types, &rows, span)
}

/// Whether the bounds of a signature are checked.
#[verifier::opaque]
spec fn bounded(cx: &Ctx, env: TyEnv, sig: Signature, types: Chain<Ty>, rows: Chain<Row>, span: Span) -> bool {
    check_type_arguments(cx, &env, &types, &sig.type_bounds, &types, &rows, span) is Ok
}

/// Whether arguments come out of some state of a call.
spec fn settled_somewhere(cx: &Ctx, st: Checker, args: Chain<Expr>, order: Chain<u32>, sig: Signature, early: Chain<Option<HExpr>>, found: PolyOut, span: Span) -> bool {
    &&& settled(cx, st, args, order, sig, early, found.targs, found.rowargs, span).1 == Ok::<Chain<HExpr>, Stop>(found.args)
    &&& bounded(cx, st.env, sig, found.targs, found.rowargs, span)
}

/// What checking a generic call gives.
#[verifier::opaque]
spec fn generic_call(
    cx: &Ctx,
    st: Checker,
    what: Text,
    sig: Signature,
    pre: Solution,
    own_start: u32,
    explicit: Chain<TypeExpr>,
    args: Chain<Expr>,
    expected: Option<&Ty>,
    span: Span,
) -> (Checker, Result<PolyOut, Stop>) {
    check_poly_call(cx, st, &what, &sig, pre, own_start, &explicit, &args, expected, span)
}

/// Whether a call is one that its signature admits.
pub open spec fn admitted(cx: &Ctx, sig: Signature, args: Chain<Expr>, found: PolyOut) -> bool {
    &&& args@.len() == sig.params@.len()
    &&& exists|env: TyEnv| #[trigger] arguments_conform(cx, env, found.targs, sig.type_bounds, found.targs, found.rowargs)
    &&& capable(found.args@, sig.muts@)
    &&& arguments_fit(cx, under(sig.params@, found.targs, found.rowargs), found.args@)
    &&& found.ret == substitute(&sig.ret, &found.targs, &found.rowargs)
    &&& !contains_callback_in(&found.targs)
}

proof fn lemma_poly_steps(
    cx: &Ctx,
    st: Checker,
    what: &Text,
    sig: &Signature,
    pre: Solution,
    own_start: u32,
    explicit: &Chain<TypeExpr>,
    args: &Chain<Expr>,
    expected: Option<&Ty>,
    span: Span,
)
    ensures
        generic_call(cx, st, *what, *sig, pre, own_start, *explicit, *args, expected, span).1 matches Ok(found) ==> {
            &&& count(args) == count(&sig.params)
            &&& exists|next: Checker, order: Chain<u32>, early: Chain<Option<HExpr>>|
                #[trigger] settled_somewhere(cx, next, *args, order, *sig, early, found, span)
            &&& found.ret == substitute(&sig.ret, &found.targs, &found.rowargs)
            &&& !contains_callback_in(&found.targs)
        },
{
    reveal(generic_call);
    if let Ok(found) = check_poly_call(cx, st, what, sig, pre, own_start, explicit, args, expected, span).1 {
        let order = arrange_args(args, &sig.names)->Ok_0;
        let first = explicit_types(cx, &st.env, what, pre, count(&sig.type_names), own_start, explicit, span)->Ok_0;
        let second = expected_types(cx, &sig.ret, expected, first)->Ok_0;
        let (next, early) = presynth(cx, st, args, &order, &sig.params, second, span);
        reveal(settled);
        reveal(bounded);
        assert(settled_somewhere(cx, next, *args, order, *sig, early->Ok_0.values, found, span));
    }
}

proof fn lemma_settled_args(
    cx: &Ctx,
    st: Checker,
    args: Chain<Expr>,
    order: Chain<u32>,
    sig: Signature,
    values: Chain<Option<HExpr>>,
    types: Chain<Ty>,
    rows: Chain<Row>,
    span: Span,
)
    ensures
        settled(cx, st, args, order, sig, values, types, rows, span).1 matches Ok(found) ==> capable(found@, sig.muts@) && arguments_fit(cx, under(sig.params@, types, rows), found@),
{
    reveal(settled);
    law_settled_fit(cx, st, &args, &order, &sig.params, &sig.muts, values, &types, &rows, span);
    law_settle_args(cx, st, &args, &order, &sig.params, &sig.muts, values, &types, &rows, span);
}

proof fn lemma_bounded(cx: &Ctx, env: TyEnv, sig: Signature, types: Chain<Ty>, rows: Chain<Row>, span: Span)
    ensures
        bounded(cx, env, sig, types, rows, span) ==> arguments_conform(cx, env, types, sig.type_bounds, types, rows),
{
    reveal(bounded);
    law_type_arguments(cx, &env, &types, &sig.type_bounds, &types, &rows, span);
}

proof fn lemma_generic_call(
    cx: &Ctx,
    st: Checker,
    what: &Text,
    sig: &Signature,
    pre: Solution,
    own_start: u32,
    explicit: &Chain<TypeExpr>,
    args: &Chain<Expr>,
    expected: Option<&Ty>,
    span: Span,
)
    requires
        args@.len() <= u32::MAX,
        sig.params@.len() <= u32::MAX,
    ensures
        generic_call(cx, st, *what, *sig, pre, own_start, *explicit, *args, expected, span).1 matches Ok(found) ==> admitted(cx, *sig, *args, found),
{
    law_count(args);
    law_count(&sig.params);
    lemma_poly_steps(cx, st, what, sig, pre, own_start, explicit, args, expected, span);
    if let Ok(found) = generic_call(cx, st, *what, *sig, pre, own_start, *explicit, *args, expected, span).1 {
        let (next, order, early) = choose|next: Checker, order: Chain<u32>, early: Chain<Option<HExpr>>|
            #[trigger] settled_somewhere(cx, next, *args, order, *sig, early, found, span);
        lemma_settled_args(cx, next, *args, order, *sig, early, found.targs, found.rowargs, span);
        lemma_bounded(cx, next.env, *sig, found.targs, found.rowargs, span);
    }
}

/// The type arguments of an accepted generic call conform to the bounds of
/// the parameters, its arguments fit the parameters under them, its `mut`
/// parameters take mutable values alone, and its result is that of the
/// signature under its arguments.
pub proof fn law_poly_call(
    cx: &Ctx,
    st: Checker,
    what: &Text,
    sig: &Signature,
    pre: Solution,
    own_start: u32,
    explicit: &Chain<TypeExpr>,
    args: &Chain<Expr>,
    expected: Option<&Ty>,
    span: Span,
)
    requires
        args@.len() <= u32::MAX,
        sig.params@.len() <= u32::MAX,
    ensures
        check_poly_call(cx, st, what, sig, pre, own_start, explicit, args, expected, span).1 matches Ok(found) ==> admitted(cx, *sig, *args, found),
{
    lemma_generic_call(cx, st, what, sig, pre, own_start, explicit, args, expected, span);
    reveal(generic_call);
}

/// A row is charged exactly where the declared row holds it. The entry
/// collects what it performs instead.
pub proof fn law_charge_row(cx: &Ctx, st: Checker, row: &Row, span: Span)
    ensures
        row_included(cx, row, &st.declared_row) == Ok::<bool, Stop>(true) ==> charge_row(cx, st, row, span) == (st, Ok::<(), Stop>(())),
        row_included(cx, row, &st.declared_row) == Ok::<bool, Stop>(false) ==> if st.collect_row {
            &&& charge_row(cx, st, row, span).1 is Ok
            &&& elements(charge_row(cx, st, row, span).0.declared_row) == elements(st.declared_row).union(elements(*row))
        } else {
            charge_row(cx, st, row, span).1 is Err
        },
        row_included(cx, row, &st.declared_row) is Err ==> charge_row(cx, st, row, span).1 is Err,
{
    law_canonical_row(concat(st.declared_row, *row));
    lemma_both_rows(st.declared_row, *row);
}

proof fn lemma_both_rows(a: Row, b: Row)
    ensures
        elements(concat(a, b)) == elements(a).union(elements(b)),
    decreases a,
{
    match a {
        Chain::Nil => {
            assert(elements(concat(a, b)) =~= elements(a).union(elements(b)));
        },
        Chain::Cons(head, tail) => {
            lemma_both_rows(*tail, b);
            law_concat(a, b);
            assert(elements(concat(a, b)) =~= elements(a).union(elements(b))) by {
                assert forall|e: RowElem| elements(concat(a, b)).contains(e) == elements(a).union(elements(b)).contains(e) by {
                    assert(concat(a, b)@ =~= a@ + b@);
                    if a@.contains(e) {
                        let i = choose|i: int| 0 <= i < a@.len() && a@[i] == e;
                        assert(concat(a, b)@[i] == e);
                    }
                    if b@.contains(e) {
                        let i = choose|i: int| 0 <= i < b@.len() && b@[i] == e;
                        assert(concat(a, b)@[a@.len() + i] == e);
                    }
                }
            }
        },
    }
}

} // verus!
