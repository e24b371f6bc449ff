//! Scopes, loops and initialization states.

use vstd::prelude::*;
use crate::ast::Span;
use crate::chain::Chain;
use crate::context::Ctx;
use crate::hir::HExpr;
use crate::laws::lists::{law_all_set, law_first_unset, law_nth};
use crate::model::lists::{first_unset, one};
use crate::model::lookup::class_at;
use crate::model::resolve::{named, unnamed};
use crate::model::scope::{bind_name, both_set, ctor_complete, lookup_slot, merge_states, merged_state, pop_loop, pop_scope, push_loop, push_scope, require_complete, set_slot, slot_in, slot_in_scopes};
use crate::problem::{Problem, Stop};
use crate::state::{BranchState, Checker, CtorCtx, CtorState, LoopMode, ScopeEntry};
use crate::text::Text;

verus! {

/// A set name has its new slot; another name keeps its own.
pub proof fn law_set_slot(scope: Chain<ScopeEntry>, name: &Text, slot: u32, other: &Text)
    ensures
        slot_in(&set_slot(scope, name, slot), name) == Some(slot),
        *other != *name ==> slot_in(&set_slot(scope, name, slot), other) == slot_in(&scope, other),
    decreases scope,
{
    match scope {
        Chain::Nil => {
            reveal_with_fuel(slot_in, 3);
        },
        Chain::Cons(_, tail) => law_set_slot(*tail, name, slot, other),
    }
}

/// A bound name resolves to its slot; another name resolves as before.
pub proof fn law_bind_name(st: Checker, name: &Text, slot: u32, other: &Text)
    ensures
        lookup_slot(&bind_name(st, name, slot), name) == Some(slot),
        *other != *name ==> lookup_slot(&bind_name(st, name, slot), other) == lookup_slot(&st, other),
{
    match st.scopes {
        Chain::Nil => {
            law_set_slot(Chain::Nil, name, slot, other);
            reveal_with_fuel(slot_in_scopes, 3);
        },
        Chain::Cons(head, _) => law_set_slot(*head, name, slot, other),
    }
}

/// Closing a scope undoes opening it.
pub proof fn law_pop_scope(st: Checker, scope: Chain<ScopeEntry>)
    ensures
        pop_scope(push_scope(st, scope)) == st,
{
}

/// Leaving a loop undoes entering it.
pub proof fn law_pop_loop(st: Checker, mode: LoopMode, walked: Option<HExpr>)
    ensures
        pop_loop(push_loop(st, mode, walked)).0 == st,
        pop_loop(push_loop(st, mode, walked)).1.mode == mode,
{
}

/// The names of an inner scope hide the same names outside; the others
/// stay visible.
pub proof fn law_inner_scope(st: Checker, scope: Chain<ScopeEntry>, name: &Text)
    ensures
        lookup_slot(&push_scope(st, scope), name) == (match slot_in(&scope, name) {
            Some(slot) => Some(slot),
            None => lookup_slot(&st, name),
        }),
{
}

/// Whether every branch that completes has set one field.
pub open spec fn all_set_at(states: &Chain<BranchState>, at: int) -> bool
    decreases states,
{
    match states {
        Chain::Nil => true,
        Chain::Cons(head, tail) => (head.diverged || head.state.inited@[at]) && all_set_at(tail, at),
    }
}

/// Whether every branch that completes agrees on the super call.
pub open spec fn all_done(states: &Chain<BranchState>, done: bool) -> bool
    decreases states,
{
    match states {
        Chain::Nil => true,
        Chain::Cons(head, tail) => (head.diverged || head.state.super_done == done) && all_done(tail, done),
    }
}

/// Whether every branch that completes tracks one number of fields.
pub open spec fn all_wide(states: &Chain<BranchState>, width: int) -> bool
    decreases states,
{
    match states {
        Chain::Nil => true,
        Chain::Cons(head, tail) => (head.diverged || head.state.inited@.len() == width) && all_wide(tail, width),
    }
}

/// Whether some branch completes.
pub open spec fn some_completes(states: &Chain<BranchState>) -> bool
    decreases states,
{
    match states {
        Chain::Nil => false,
        Chain::Cons(head, tail) => !head.diverged || some_completes(tail),
    }
}

proof fn lemma_both_set(a: Chain<bool>, b: &Chain<bool>)
    requires
        a@.len() == b@.len(),
    ensures
        both_set(a, b)@.len() == a@.len(),
        forall|i: int| 0 <= i < a@.len() ==> both_set(a, b)@[i] == (a@[i] && b@[i]),
    decreases a,
{
    match (a, b) {
        (Chain::Cons(x, xs), Chain::Cons(y, ys)) => {
            lemma_both_set(*xs, ys);
            assert forall|i: int| 0 <= i < a@.len() implies both_set(a, b)@[i] == (a@[i] && b@[i]) by {
                if i > 0 {
                    assert(a@[i] == xs@[i - 1]);
                    assert(b@[i] == ys@[i - 1]);
                    assert(both_set(a, b)@[i] == both_set(*xs, ys)@[i - 1]);
                } else {
                    assert(a@[0] == *x);
                    assert(b@[0] == **y);
                }
            }
        },
        _ => {},
    }
}

proof fn lemma_merge_states(merged: CtorState, states: &Chain<BranchState>, span: Span)
    requires
        all_wide(states, merged.inited@.len() as int),
    ensures
        merge_states(merged, states, span) is Ok <==> all_done(states, merged.super_done),
        merge_states(merged, states, span) matches Ok(found) ==> {
            &&& found.super_done == merged.super_done
            &&& found.inited@.len() == merged.inited@.len()
            &&& forall|i: int| 0 <= i < merged.inited@.len() ==> #[trigger] found.inited@[i] == (merged.inited@[i] && all_set_at(states, i))
        },
    decreases states,
{
    match states {
        Chain::Nil => {},
        Chain::Cons(head, tail) => {
            if head.diverged {
                lemma_merge_states(merged, tail, span);
            } else if merged.super_done == head.state.super_done {
                lemma_both_set(merged.inited, &head.state.inited);
                let next = CtorState { inited: both_set(merged.inited, &head.state.inited), super_done: merged.super_done };
                lemma_merge_states(next, tail, span);
                assert(merge_states(merged, states, span) == merge_states(next, tail, span));
            }
        },
    }
}

/// Behind a fork, a field is set exactly when every branch that completes
/// has set it. The branches must agree on the super call. Where no branch
/// completes, the state before the fork stands.
pub proof fn law_merged_state(entry: CtorState, states: &Chain<BranchState>, span: Span, width: int, done: bool)
    requires
        all_wide(states, width),
    ensures
        !some_completes(states) ==> merged_state(entry, states, span) == Ok::<CtorState, crate::problem::Stop>(entry),
        some_completes(states) && all_done(states, done) ==> {
            &&& merged_state(entry, states, span) matches Ok(found)
            &&& found.super_done == done
            &&& found.inited@.len() == width
            &&& forall|i: int| 0 <= i < width ==> #[trigger] found.inited@[i] == all_set_at(states, i)
        },
        merged_state(entry, states, span) is Err <==> (some_completes(states) && !all_done(states, true) && !all_done(states, false)),
    decreases states,
{
    match states {
        Chain::Nil => {},
        Chain::Cons(head, tail) => {
            if head.diverged {
                law_merged_state(entry, tail, span, width, done);
                if some_completes(states) && all_done(states, done) {
                    let found = merged_state(entry, states, span)->Ok_0;
                    assert forall|i: int| 0 <= i < width implies #[trigger] found.inited@[i] == all_set_at(states, i) by {
                        assert(found.inited@[i] == all_set_at(tail, i));
                    }
                }
            } else {
                lemma_merge_states(head.state, tail, span);
                assert(merged_state(entry, states, span) == merge_states(head.state, tail, span));
                if some_completes(states) && all_done(states, done) {
                    let found = merged_state(entry, states, span)->Ok_0;
                    assert forall|i: int| 0 <= i < width implies #[trigger] found.inited@[i] == all_set_at(states, i) by {
                        assert(found.inited@[i] == (head.state.inited@[i] && all_set_at(tail, i)));
                    }
                }
            }
        },
    }
}

/// An initializer is complete exactly when each field is set and a needed
/// super call is done.
pub proof fn law_ctor_complete(c: &CtorCtx)
    ensures
        ctor_complete(c) == ((forall|i: int| 0 <= i < c.state.inited@.len() ==> c.state.inited@[i]) && (c.needs_super ==> c.state.super_done)),
{
    crate::laws::lists::law_all_set(&c.state.inited);
}

/// Whether a field is the first one without a value.
pub open spec fn first_missing(inited: Seq<bool>, at: u32) -> bool {
    &&& at < inited.len()
    &&& !inited[at as int]
    &&& forall|i: int| 0 <= i < at ==> inited[i]
}

/// An initializer passes exactly when it is complete on the path. Where
/// it is not, a missing `super.init` is reported first; behind that the
/// first field without a value, by its name.
pub proof fn law_require_complete(cx: &Ctx, class: u32, c: &CtorCtx, span: Span)
    requires
        c.state.inited@.len() <= u32::MAX,
        c.state.inited@.len() <= class_at(cx, class).field_names@.len(),
    ensures
        require_complete(cx, class, c, span) is Ok <==> ctor_complete(c),
        c.needs_super && !c.state.super_done
            ==> require_complete(cx, class, c, span) == Err::<(), Stop>(unnamed(Problem::SuperInitMissing, span)),
        forall|at: u32| #[trigger] first_missing(c.state.inited@, at) && !(c.needs_super && !c.state.super_done)
            ==> require_complete(cx, class, c, span) == Err::<(), Stop>(
            named(Problem::FieldNotInitialized, &class_at(cx, class).field_names@[at as int], span),
        ),
{
    law_first_unset(&c.state.inited);
    law_all_set(&c.state.inited);
    assert forall|at: u32| #[trigger] first_missing(c.state.inited@, at) && !(c.needs_super && !c.state.super_done)
        implies require_complete(cx, class, c, span) == Err::<(), Stop>(
        named(Problem::FieldNotInitialized, &class_at(cx, class).field_names@[at as int], span),
    ) by {
        law_nth(&class_at(cx, class).field_names, at);
        assert(first_unset(&c.state.inited) is Some);
        assert(first_unset(&c.state.inited)->0 == at);
    }
}

} // verus!
