//! Names, locals, scopes and definite initialization inside a callable.

use vstd::prelude::*;
use crate::answers::{compatible, row_included, unchanged_walk};
use crate::ast::{Expr, ExprKind, Span, nowhere};
use crate::chain::{Chain, copy_chain};
use crate::context::{ClassKind, Ctx, TyEnv, UseBinding};
use crate::hir::{HExpr, HKind, HirFunc};
use crate::lists::{all_set, append, concat, cons, count, find_id, first_unset, nth, one};
use crate::lookup::{class_at, lookup_type};
use crate::problem::{Diag, Problem, Stop};
use crate::resolve::{named, unnamed};
use crate::rows::canonical_row;
use crate::state::{BranchState, CapSource, CaptureRec, Checker, CtorCtx, CtorState, LocalVar, LoopContext, LoopMode, MadeFunc, NameRes, Output, ScopeEntry};
use crate::text::{Text, is_text, same_text, text};
use crate::types::{Row, Ty};
use crate::uses::{find_use, sys_group_name};
use crate::model::fits::fits_as;
use crate::model::sound::{expr_ok, func_ok, has_slot, name_step, opt_expr_ok, opt_name_ok, ready, room, row_covered, row_in, row_within, scope_in, step, widens};
use crate::model::keeps::kept;
use crate::model;

verus! {

broadcast use {crate::model::keeps::group_kept, crate::model::sound::group_sound};

/// A checked expression.
pub fn hexpr(ty: Ty, mutable: bool, kind: HKind) -> (r: HExpr)
    ensures
        r == model::scope::hexpr(ty, mutable, kind),
{
    HExpr { ty: ty, mutable: mutable, kind: Box::new(kind) }
}

/// The problem of a value of the wrong type.
pub fn mismatch(expected: &Ty, found: &Ty, span: Span) -> (r: Stop)
    ensures
        r == model::scope::mismatch(expected, found, span),
{
    unnamed(Problem::Mismatch { expected: (*expected).clone(), found: (*found).clone() }, span)
}

/// Require a value to fit an expected type.
pub fn expect_compatible(cx: &Ctx, expected: &Ty, found: HExpr, span: Span) -> (r: Result<HExpr, Stop>)
    ensures
        r == model::scope::expect_compatible(cx, expected, found, span),
        fits_as(cx, *expected, r),
{
    let fits = match compatible(cx, expected, &found.ty) {
        Ok(found) => found,
        Err(stop) => {
            return Err(stop);
        },
    };
    if fits {
        Ok(found)
    } else {
        Err(mismatch(expected, &found.ty, span))
    }
}

/// The slot of one name in one scope.
pub fn slot_in(scope: &Chain<ScopeEntry>, name: &Text) -> (r: Option<u32>)
    ensures
        r == model::scope::slot_in(scope, name),
    decreases scope,
{
    match scope {
        Chain::Nil => None,
        Chain::Cons(head, tail) => {
            if same_text(&head.name, &*name) {
                Some(head.slot)
            } else {
                slot_in(tail, name)
            }
        },
    }
}

/// The slot of one name in the innermost scope that binds it.
pub fn slot_in_scopes(scopes: &Chain<Chain<ScopeEntry>>, name: &Text) -> (r: Option<u32>)
    ensures
        r == model::scope::slot_in_scopes(scopes, name),
    decreases scopes,
{
    match scopes {
        Chain::Nil => None,
        Chain::Cons(head, tail) => {
            match slot_in(head, name) {
                Some(slot) => Some(slot),
                None => slot_in_scopes(tail, name),
            }
        },
    }
}

/// The local slot of one name: the innermost scope decides.
pub fn lookup_slot(st: &Checker, name: &Text) -> (r: Option<u32>)
    ensures
        r == model::scope::lookup_slot(st, name),
{
    slot_in_scopes(&st.scopes, name)
}

/// The type of one local slot.
pub fn local_ty(st: &Checker, slot: u32) -> (r: Ty)
    ensures
        r == model::scope::local_ty(st, slot),
{
    match nth(&st.locals, slot) {
        Some(local) => local.ty.clone(),
        None => Ty::Never,
    }
}

/// Whether one local slot holds a mutable reference.
pub fn local_mutable(st: &Checker, slot: u32) -> (r: bool)
    ensures
        r == model::scope::local_mutable(st, slot),
{
    match nth(&st.locals, slot) {
        Some(local) => local.mutable,
        None => true,
    }
}

/// The value of one local slot.
pub fn local_expr(st: &Checker, slot: u32) -> (r: HExpr)
    ensures
        r == model::scope::local_expr(st, slot),
{
    hexpr(local_ty(st, slot), local_mutable(st, slot), HKind::Local(slot))
}

/// The `self` expression of a method body.
pub fn self_value(st: &Checker) -> (r: HExpr)
    ensures
        r == model::scope::self_value(st),
{
    local_expr(st, 0u32)
}

/// The next free local slot.
pub fn next_slot(st: &Checker) -> (r: u32)
    ensures
        r == model::scope::next_slot(st),
{
    count(&st.locals)
}

/// A checker with one more local.
pub fn add_local(st: Checker, ty: Ty, mutable: bool) -> (r: Checker)
    ensures
        r == model::scope::add_local(st, ty, mutable),
        kept(st, r),
        forall|cx: &Ctx| #![trigger ready(cx, st)] #![trigger room(cx, st)] step(cx, st, r, true, true),
{
    proof {
        reveal(ready);
        reveal(room);
        reveal(widens);
    }
    Checker { locals: append(st.locals, LocalVar { ty: ty, mutable: mutable }), ..st }
}

/// A local without a name, and its slot.
pub fn hidden_local(st: Checker, ty: Ty, mutable: bool) -> (r: (Checker, u32))
    ensures
        r == model::scope::hidden_local(st, ty, mutable),
        kept(st, r.0),
        forall|cx: &Ctx|
            #![trigger ready(cx, st)]
            #![trigger room(cx, st)]
            step(
                cx,
                st,
                r.0,
                true,
                has_slot(room(cx, r.0), r.1),
            ),
{
    proof {
        reveal(ready);
        reveal(room);
        reveal(widens);
    }
    let slot = next_slot(&st);
    (add_local(st, ty, mutable), slot)
}

/// A scope in which one name has one slot.
pub fn set_slot(scope: Chain<ScopeEntry>, name: &Text, slot: u32) -> (r: Chain<ScopeEntry>)
    ensures
        r == model::scope::set_slot(scope, name, slot),
    decreases scope,
{
    match scope {
        Chain::Nil => one(ScopeEntry { name: copy_chain(&*name), slot: slot }),
        Chain::Cons(head, tail) => {
            if same_text(&head.name, &*name) {
                cons(ScopeEntry { name: head.name, slot: slot }, *tail)
            } else {
                Chain::Cons(head, Box::new(set_slot(*tail, name, slot)))
            }
        },
    }
}

/// Bind one name in the innermost scope.
pub fn bind_name(st: Checker, name: &Text, slot: u32) -> (r: Checker)
    ensures
        r == model::scope::bind_name(st, name, slot),
        kept(st, r),
        forall|cx: &Ctx|
            #![trigger ready(cx, st)]
            #![trigger room(cx, st)]
            step(
                cx,
                st,
                r,
                has_slot(room(cx, st), slot),
                true,
            ),
{
    proof {
        reveal(ready);
        reveal(room);
        reveal(widens);
    }
    match st.scopes {
        Chain::Nil => Checker { scopes: one(set_slot(Chain::Nil, name, slot)), ..st },
        Chain::Cons(head, tail) => Checker { scopes: cons(set_slot(*head, name, slot), *tail), ..st },
    }
}

/// Open one scope.
pub fn push_scope(st: Checker, scope: Chain<ScopeEntry>) -> (r: Checker)
    ensures
        r == model::scope::push_scope(st, scope),
        forall|cx: &Ctx|
            #![trigger ready(cx, st)]
            #![trigger room(cx, st)]
            step(
                cx,
                st,
                r,
                scope_in(room(cx, st), scope),
                true,
            ),
{
    proof {
        reveal(ready);
        reveal(room);
        reveal(widens);
    }
    Checker { scopes: cons(scope, st.scopes), ..st }
}

/// Close the innermost scope.
pub fn pop_scope(st: Checker) -> (r: Checker)
    ensures
        r == model::scope::pop_scope(st),
        forall|cx: &Ctx| #![trigger ready(cx, st)] #![trigger room(cx, st)] step(cx, st, r, true, true),
{
    proof {
        reveal(ready);
        reveal(room);
        reveal(widens);
    }
    match st.scopes {
        Chain::Nil => Checker { scopes: Chain::Nil, ..st },
        Chain::Cons(_, tail) => Checker { scopes: *tail, ..st },
    }
}

/// Open one loop.
pub fn push_loop(st: Checker, mode: LoopMode, walked: Option<HExpr>) -> (r: Checker)
    ensures
        r == model::scope::push_loop(st, mode, walked),
        forall|cx: &Ctx|
            #![trigger ready(cx, st)]
            #![trigger room(cx, st)]
            step(
                cx,
                st,
                r,
                opt_expr_ok(room(cx, st), walked),
                true,
            ),
{
    proof {
        reveal(ready);
        reveal(room);
        reveal(widens);
    }
    Checker { loops: cons(LoopContext { mode: mode, breaks: Chain::Nil, gap: None, walked: walked }, st.loops), ..st }
}

/// Close the innermost loop.
pub fn pop_loop(st: Checker) -> (r: (Checker, LoopContext))
    ensures
        r == model::scope::pop_loop(st),
        forall|cx: &Ctx| #![trigger ready(cx, st)] #![trigger room(cx, st)] step(cx, st, r.0, true, true),
{
    proof {
        reveal(ready);
        reveal(room);
        reveal(widens);
    }
    match st.loops {
        Chain::Nil => (Checker { loops: Chain::Nil, ..st }, LoopContext { mode: LoopMode::UnitOnly, breaks: Chain::Nil, gap: None, walked: None }),
        Chain::Cons(head, tail) => (Checker { loops: *tail, ..st }, *head),
    }
}

/// The name that one scope binds to a slot.
pub fn name_in(scope: &Chain<ScopeEntry>, slot: u32) -> (r: Option<Text>)
    ensures
        r == model::scope::name_in(scope, slot),
    decreases scope,
{
    match scope {
        Chain::Nil => None,
        Chain::Cons(head, tail) => {
            if head.slot == slot {
                Some(copy_chain(&head.name))
            } else {
                name_in(tail, slot)
            }
        },
    }
}

/// The innermost name that scopes bind to a slot.
pub fn name_in_scopes(scopes: &Chain<Chain<ScopeEntry>>, slot: u32) -> (r: Option<Text>)
    ensures
        r == model::scope::name_in_scopes(scopes, slot),
    decreases scopes,
{
    match scopes {
        Chain::Nil => None,
        Chain::Cons(head, tail) => {
            match name_in(head, slot) {
                Some(name) => Some(name),
                None => name_in_scopes(tail, slot),
            }
        },
    }
}

/// Find the innermost name bound to one local slot.
pub fn name_of_slot(st: &Checker, slot: u32) -> (r: Option<Text>)
    ensures
        r == model::scope::name_of_slot(st, slot),
{
    name_in_scopes(&st.scopes, slot)
}

/// Whether an initializer has assigned every field and run the parent
/// initializer where it has to.
pub fn ctor_complete(c: &CtorCtx) -> (r: bool)
    ensures
        r == model::scope::ctor_complete(c),
{
    all_set(&c.state.inited) && (!c.needs_super || c.state.super_done)
}

/// Require an initializer to be complete on this path.
pub fn require_complete(cx: &Ctx, class: u32, c: &CtorCtx, span: Span) -> (r: Result<(), Stop>)
    ensures
        r == model::scope::require_complete(cx, class, c, span),
{
    if c.needs_super && !c.state.super_done {
        return Err(unnamed(Problem::SuperInitMissing, span));
    }
    match first_unset(&c.state.inited) {
        None => Ok(()),
        Some(missing) => {
            match nth(&class_at(cx, class).field_names, missing) {
                Some(name) => Err(named(Problem::FieldNotInitialized, name, span)),
                None => Err(unnamed(Problem::FieldNotInitialized, span)),
            }
        },
    }
}

/// The initialization state of the path, inside an initializer.
pub fn ctor_state(st: &Checker) -> (r: Option<CtorState>)
    ensures
        r == model::scope::ctor_state(st),
{
    match &st.ctor {
        Some(c) => Some(c.state.clone()),
        None => None,
    }
}

/// Set the initialization state of the path, inside an initializer.
pub fn with_ctor_state(st: Checker, state: &Option<CtorState>) -> (r: Checker)
    ensures
        r == model::scope::with_ctor_state(st, state),
        kept(st, r),
        forall|cx: &Ctx| #![trigger ready(cx, st)] #![trigger room(cx, st)] step(cx, st, r, true, true),
{
    proof {
        reveal(ready);
        reveal(room);
        reveal(widens);
    }
    match (st.ctor, state) {
        (Some(c), Some(found)) => Checker { ctor: Some(CtorCtx { state: (*found).clone(), ..c }), ..st },
        (other, _) => Checker { ctor: other, ..st },
    }
}

/// Reject a `super.init` call inside a loop condition or body.
pub fn ctor_guard_loop(st: &Checker, before: &Option<CtorState>, span: Span) -> (r: Result<(), Stop>)
    ensures
        r == model::scope::ctor_guard_loop(st, before, span),
{
    match (&st.ctor, before) {
        (Some(c), Some(state)) => {
            if c.state.super_done != state.super_done {
                Err(unnamed(Problem::SuperInitInLoop, span))
            } else {
                Ok(())
            }
        },
        _ => Ok(()),
    }
}

/// The markers that both lists set.
pub fn both_set(a: Chain<bool>, b: &Chain<bool>) -> (r: Chain<bool>)
    ensures
        r == model::scope::both_set(a, b),
    decreases a,
{
    match (a, b) {
        (Chain::Cons(x, xs), Chain::Cons(y, ys)) => cons(*x && **y, both_set(*xs, ys)),
        (rest, _) => rest,
    }
}

/// Merge the states of the branches that go on.
pub fn merge_states(merged: CtorState, states: &Chain<BranchState>, span: Span) -> (r: Result<CtorState, Stop>)
    ensures
        r == model::scope::merge_states(merged, states, span),
    decreases states,
{
    match states {
        Chain::Nil => Ok(merged),
        Chain::Cons(head, tail) => {
            if head.diverged {
                merge_states(merged, tail, span)
            } else if merged.super_done != head.state.super_done {
                Err(unnamed(Problem::SuperInitUneven, span))
            } else {
                merge_states(CtorState { inited: both_set(merged.inited, &head.state.inited), super_done: merged.super_done }, tail, span)
            }
        },
    }
}

/// The state behind a fork: what every branch that goes on has
/// assigned, or the state before it where none goes on.
pub fn merged_state(entry: CtorState, states: &Chain<BranchState>, span: Span) -> (r: Result<CtorState, Stop>)
    ensures
        r == model::scope::merged_state(entry, states, span),
    decreases states,
{
    match states {
        Chain::Nil => Ok(entry),
        Chain::Cons(head, tail) => {
            if head.diverged {
                merged_state(entry, tail, span)
            } else {
                merge_states(head.state.clone(), tail, span)
            }
        },
    }
}

/// Merge forked initialization states from branches.
pub fn merge_ctor_states(
    st: Checker,
    entry: Option<CtorState>,
    states: &Chain<BranchState>,
    span: Span,
) -> (r: (Checker, Result<(), Stop>))
    ensures
        r == model::scope::merge_ctor_states(st, entry, states, span),
        kept(st, r.0),
        forall|cx: &Ctx| #![trigger ready(cx, st)] #![trigger room(cx, st)] step(cx, st, r.0, true, true),
{
    proof {
        reveal(ready);
        reveal(room);
        reveal(widens);
    }
    match (st.ctor.is_some(), entry) {
        (true, Some(before)) => {
            let merged = match merged_state(before, states, span) {
                Ok(found) => found,
                Err(stop) => {
                    return (st, Err(stop));
                },
            };
            (with_ctor_state(st, &Some(merged)), Ok(()))
        },
        _ => (st, Ok(())),
    }
}

/// A problem without a place, moved to a place.
pub fn reposition(stop: Stop, span: Span) -> (r: Stop)
    ensures
        r == model::scope::reposition(stop, span),
{
    match stop {
        Stop::Fail(diag) => {
            if diag.span.lo == 0 && diag.span.hi == 0 {
                Stop::Fail(Diag { span: span, ..diag })
            } else {
                Stop::Fail(diag)
            }
        },
        Stop::Ask(asked) => Stop::Ask(asked),
    }
}

/// The position of one captured name.
pub fn capture_position(captures: &Chain<CaptureRec>, name: &Text) -> (r: Option<u32>)
    ensures
        r == model::scope::capture_position(captures, name),
    decreases captures,
{
    match captures {
        Chain::Nil => None,
        Chain::Cons(head, tail) => {
            if same_text(&head.name, &*name) {
                Some(0u32)
            } else {
                match capture_position(tail, name) {
                    None => None,
                    Some(at) => Some(at.wrapping_add(1)),
                }
            }
        },
    }
}

/// Whether capturing a name would let `self` out of an initializer too
/// early.
pub fn captures_early(st: &Checker, name: &Text) -> (r: bool)
    ensures
        r == model::scope::captures_early(st, name),
{
    match &st.ctor {
        Some(c) => is_text(&*name, "self") && !ctor_complete(c),
        None => false,
    }
}

/// The capture of one name that a closure already has.
pub fn known_capture(st: &Checker, name: &Text) -> (r: Option<NameRes>)
    ensures
        r == model::scope::known_capture(st, name),
{
    let at = match capture_position(&st.captures, name) {
        Some(found) => found,
        None => {
            return None;
        },
    };
    let found = match nth(&st.captures, at) {
        Some(found) => found,
        None => {
            return None;
        },
    };
    Some(NameRes { source: CapSource::Capture(at), ty: found.ty.clone(), mutable: found.mutable })
}

/// A closure with one more capture.
pub fn add_capture(st: Checker, name: &Text, found: NameRes) -> (r: (Checker, NameRes))
    ensures
        r == model::scope::add_capture(st, name, found),
{
    let at = count(&st.captures);
    let captured = NameRes { source: CapSource::Capture(at), ty: found.ty.clone(), mutable: found.mutable };
    (Checker { captures: append(st.captures, CaptureRec { name: copy_chain(&*name), ty: found.ty, mutable: found.mutable, source: found.source }), ..st }, captured)
}

/// Look up a name for a closure inside this callable. The callable
/// registers captures of its own on the way.
pub fn capture_lookup(st: Checker, name: &Text) -> (r: (Checker, Result<Option<NameRes>, Stop>))
    ensures
        r == model::scope::capture_lookup(st, name),
        kept(st, r.0),
        name_step(st, r.0, r.1),
    decreases st, 1int,
{
    match lookup_slot(&st, name) {
        Some(slot) => {
            if captures_early(&st, name) {
                (st, Err(unnamed(Problem::SelfCapturedEarly, nowhere())))
            } else {
                let found = NameRes { source: CapSource::Local(slot), ty: local_ty(&st, slot), mutable: local_mutable(&st, slot) };
                (st, Ok(Some(found)))
            }
        },
        None => capture_outside(st, name),
    }
}

/// Look up a name outside a closure, and capture it where it is found.
pub fn capture_outside(st: Checker, name: &Text) -> (r: (Checker, Result<Option<NameRes>, Stop>))
    ensures
        r == model::scope::capture_outside(st, name),
        kept(st, r.0),
        name_step(st, r.0, r.1),
    decreases st, 0int,
{
    if !st.is_closure {
        return (st, Ok(None));
    }
    match known_capture(&st, name) {
        Some(found) => (st, Ok(Some(found))),
        None => {
            match st.outer {
                None => (Checker { outer: None, ..st }, Ok(None)),
                Some(outer) => {
                    match capture_lookup(*outer, name) {
                        (around, Err(stop)) => (Checker { outer: Some(Box::new(around)), ..st }, Err(stop)),
                        (around, Ok(None)) => (Checker { outer: Some(Box::new(around)), ..st }, Ok(None)),
                        (around, Ok(Some(found))) => {
                            let st = Checker { outer: Some(Box::new(around)), ..st };
                            let (st, captured) = add_capture(st, name, found);
                            (st, Ok(Some(captured)))
                        },
                    }
                },
            }
        },
    }
}

/// Resolve a name to a local or a capture, registering captures of the
/// surrounding callables on demand.
pub fn resolve_value(st: Checker, name: &Text) -> (r: (Checker, Result<Option<NameRes>, Stop>))
    ensures
        r == model::scope::resolve_value(st, name),
        kept(st, r.0),
        forall|cx: &Ctx|
            #![trigger ready(cx, st)]
            #![trigger room(cx, st)]
            step(
                cx,
                st,
                r.0,
                true,
                (r.1 matches Ok(found) ==> opt_name_ok(room(cx, r.0), found)),
            ),
{
    proof {
        reveal(ready);
        reveal(room);
        reveal(widens);
    }
    match lookup_slot(&st, name) {
        Some(slot) => {
            let found = NameRes { source: CapSource::Local(slot), ty: local_ty(&st, slot), mutable: local_mutable(&st, slot) };
            (st, Ok(Some(found)))
        },
        None => capture_outside(st, name),
    }
}

/// The expression of a resolved name.
pub fn name_expr(found: NameRes) -> (r: HExpr)
    ensures
        r == model::scope::name_expr(found),
{
    match found.source {
        CapSource::Local(slot) => hexpr(found.ty, found.mutable, HKind::Local(slot)),
        CapSource::Capture(at) => hexpr(found.ty, found.mutable, HKind::Capture(at)),
    }
}

/// Find one user module function in a user body.
pub fn module_func(cx: &Ctx, env: &TyEnv, name: &Text) -> (r: Option<u32>)
    ensures
        r == model::scope::module_func(cx, env, name),
{
    if env.core_scope {
        None
    } else {
        find_id(&cx.func_index, name)
    }
}

/// The `self` of a method body or of a closure inside one. Inside an
/// initializer it may not escape before every required field is
/// assigned.
pub fn synth_self(st: Checker, span: Span) -> (r: (Checker, Result<HExpr, Stop>))
    ensures
        r == model::scope::synth_self(st, span),
        kept(st, r.0),
        forall|cx: &Ctx|
            #![trigger ready(cx, st)]
            #![trigger room(cx, st)]
            step(
                cx,
                st,
                r.0,
                true,
                (r.1 matches Ok(found) ==> expr_ok(room(cx, r.0), found)),
            ),
{
    proof {
        reveal(ready);
        reveal(room);
        reveal(widens);
    }
    match resolve_value(st, &text("self")) {
        (st, Err(stop)) => (st, Err(reposition(stop, span))),
        (st, Ok(None)) => (st, Err(unnamed(Problem::SelfOutsideMethod, span))),
        (st, Ok(Some(found))) => {
            let early = match &st.ctor {
                Some(c) => !ctor_complete(c),
                None => false,
            };
            if early {
                (st, Err(unnamed(Problem::SelfEscapesEarly, span)))
            } else {
                (st, Ok(name_expr(found)))
            }
        },
    }
}

/// Require the row of a call to be inside the declared row. The module
/// entry collects the union instead.
pub fn charge_row(cx: &Ctx, st: Checker, row: &Row, span: Span) -> (r: (Checker, Result<(), Stop>))
    ensures
        r == model::scope::charge_row(cx, st, row, span),
        kept(st, r.0),
        step(cx, st, r.0, true, true),
        r.1 is Ok ==> row_covered(cx, *row, r.0.declared_row),
        r.1 is Ok ==> row_in(room(cx, r.0), *row),
{
    proof {
        reveal(ready);
        reveal(room);
        reveal(widens);
    }
    let included = match row_included(cx, row, &st.declared_row) {
        Ok(found) => found,
        Err(stop) => {
            return (st, Err(stop));
        },
    };
    if included {
        proof {
            assert(row_within(room(cx, st), st.declared_row, *row));
        }
        (st, Ok(()))
    } else if st.collect_row {
        let merged = canonical_row(&concat(copy_chain(&st.declared_row), copy_chain(&*row)));
        let st = Checker { declared_row: merged, ..st };
        proof {
            assert(row_within(room(cx, st), st.declared_row, *row));
        }
        (st, Ok(()))
    } else {
        let problem = Problem::RowTooWide { needed: copy_chain(&*row), declared: copy_chain(&st.declared_row) };
        (st, Err(unnamed(problem, span)))
    }
}

/// Resolve a name to its `use` binding. Locals, module functions, and
/// module types shadow a `use` binding.
pub fn use_binding(cx: &Ctx, st: Checker, name: &Text) -> (r: (Checker, Result<Option<UseBinding>, Stop>))
    ensures
        r == model::scope::use_binding(cx, st, name),
        kept(st, r.0),
        step(cx, st, r.0, true, true),
{
    proof {
        reveal(ready);
        reveal(room);
        reveal(widens);
    }
    if st.env.core_scope {
        return (st, Ok(None));
    }
    let (st, out) = resolve_value(st, name);
    let found = match out {
        Ok(found) => found,
        Err(stop) => {
            return (st, Err(stop));
        },
    };
    if found.is_some() || find_id(&cx.func_index, name).is_some() || lookup_type(cx, name, &st.env).is_some() {
        (st, Ok(None))
    } else {
        match find_use(&cx.uses, name) {
            Some(binding) => (st, Ok(Some((*binding).clone()))),
            None => (st, Ok(None)),
        }
    }
}

/// Whether the bare name `sys` means the operation root here.
pub fn sys_in_scope(st: Checker) -> (r: (Checker, Result<bool, Stop>))
    ensures
        r == model::scope::sys_in_scope(st),
        kept(st, r.0),
        forall|cx: &Ctx| #![trigger ready(cx, st)] #![trigger room(cx, st)] step(cx, st, r.0, true, true),
{
    proof {
        reveal(ready);
        reveal(room);
        reveal(widens);
    }
    let (st, out) = resolve_value(st, &text("sys"));
    let found = match out {
        Ok(found) => found,
        Err(stop) => {
            return (st, Err(stop));
        },
    };
    (st, Ok(found.is_none()))
}

/// Whether an expression is one bare name.
pub fn is_name(expr: &Expr, name: &str) -> (r: bool)
    ensures
        r == model::scope::is_name(expr, name),
{
    match &*expr.kind {
        ExprKind::Name(found) => is_text(&*found, name),
        _ => false,
    }
}

/// Read `sys.<group>` out of a receiver: the qualified form, or a group
/// alias that a `use` line binds.
pub fn sys_group_of(cx: &Ctx, st: Checker, recv: &Expr) -> (r: (Checker, Result<Option<Text>, Stop>))
    ensures
        r == model::scope::sys_group_of(cx, st, recv),
        kept(st, r.0),
        step(cx, st, r.0, true, true),
{
    proof {
        reveal(ready);
        reveal(room);
        reveal(widens);
    }
    match &*recv.kind {
        ExprKind::Field { recv: inner, name, name_span: _ } => {
            if is_name(inner, "sys") {
                let (st, out) = sys_in_scope(st);
                let visible = match out {
                    Ok(found) => found,
                    Err(stop) => {
                        return (st, Err(stop));
                    },
                };
                if visible {
                    (st, Ok(sys_group_name(&cx.bundle.groups, name)))
                } else {
                    (st, Ok(None))
                }
            } else {
                (st, Ok(None))
            }
        },
        ExprKind::Name(name) => {
            let (st, out) = use_binding(cx, st, name);
            let binding = match out {
                Ok(found) => found,
                Err(stop) => {
                    return (st, Err(stop));
                },
            };
            match binding {
                Some(UseBinding::SysGroup(group)) => (st, Ok(Some(group))),
                _ => (st, Ok(None)),
            }
        },
        _ => (st, Ok(None)),
    }
}

/// Read a receiver expression as an enum qualifier, such as the `Option`
/// in `Option.Some`.
pub fn enum_qualifier(cx: &Ctx, st: &Checker, recv: &Expr) -> (r: Option<u32>)
    ensures
        r == model::scope::enum_qualifier(cx, st, recv),
{
    match &*recv.kind {
        ExprKind::Name(name) => {
            if lookup_slot(st, name).is_some() || module_func(cx, &st.env, name).is_some() {
                None
            } else {
                match lookup_type(cx, name, &st.env) {
                    Some(class) => {
                        if class_at(cx, class).kind == ClassKind::EnumParent {
                            Some(class)
                        } else {
                            None
                        }
                    },
                    None => None,
                }
            }
        },
        _ => None,
    }
}

/// The digits of a number below ten.
pub fn digit_char(n: u32) -> (r: char)
    ensures
        r == model::scope::digit_char(n),
{
    if n == 0 {
        return '0';
    }
    if n == 1 {
        return '1';
    }
    if n == 2 {
        return '2';
    }
    if n == 3 {
        return '3';
    }
    if n == 4 {
        return '4';
    }
    if n == 5 {
        return '5';
    }
    if n == 6 {
        return '6';
    }
    if n == 7 {
        return '7';
    }
    if n == 8 {
        '8'
    } else {
        '9'
    }
}

/// The decimal digits of a number in front of a text.
pub fn decimal_before(n: u32, rest: Text) -> (r: Text)
    ensures
        r == model::scope::decimal_before(n, rest),
    decreases n,
{
    let next = cons(digit_char(n % 10), rest);
    if n < 10 {
        next
    } else {
        decimal_before(n / 10, next)
    }
}

/// The text between angle brackets that names a generated function.
pub fn generated_name(kind: &str, n: u32) -> (r: Text)
    ensures
        r == model::scope::generated_name(kind, n),
{
    concat(text(kind), decimal_before(n, one('>')))
}

/// Add one function to the table, and give its index.
pub fn push_func(st: Checker, func: HirFunc) -> (r: (Checker, u32))
    ensures
        r == model::scope::push_func(st, func),
        kept(st, r.0),
        forall|cx: &Ctx|
            #![trigger ready(cx, st)]
            #![trigger room(cx, st)]
            step(
                cx,
                st,
                r.0,
                func_ok(cx, func),
                true,
            ),
{
    proof {
        reveal(ready);
        reveal(room);
        reveal(widens);
    }
    let index = st.out.next_func;
    let out = Output { next_func: index.wrapping_add(1), made: append(st.out.made, MadeFunc { index: index, func: func }) };
    (Checker { out: out, ..st }, index)
}

/// What the loops around a place walk, the innermost first.
pub fn walked_values(loops: &Chain<LoopContext>) -> (r: Chain<HExpr>)
    ensures
        r == model::scope::walked_values(loops),
    decreases loops,
{
    match loops {
        Chain::Nil => Chain::Nil,
        Chain::Cons(head, tail) => {
            match &head.walked {
                Some(value) => cons((*value).clone(), walked_values(tail)),
                None => walked_values(tail),
            }
        },
    }
}

/// Require that no loop around a place walks a value that changes there.
pub fn guard_walked(cx: &Ctx, st: &Checker, value: &HExpr, span: Span) -> (r: Result<(), Stop>)
    ensures
        r == model::scope::guard_walked(cx, st, value, span),
{
    let walked = walked_values(&st.loops);
    if walked.is_empty() {
        Ok(())
    } else {
        unchanged_walk(cx, walked, value, span)
    }
}

/// The same of an argument, where its parameter is mutable.
pub fn guard_argument(cx: &Ctx, st: &Checker, value: &HExpr, mutable: bool, span: Span) -> (r: Result<(), Stop>)
    ensures
        r == model::scope::guard_argument(cx, st, value, mutable, span),
{
    if mutable {
        guard_walked(cx, st, value, span)
    } else {
        Ok(())
    }
}

} // verus!
