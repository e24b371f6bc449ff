//! Names, locals, scopes and definite initialization inside a callable.
//!
//! The functions here state what the functions of the same name compute.

use vstd::prelude::*;
use crate::ast::{Expr, ExprKind, Span, nowhere};
use crate::chain::{Chain, chain_of};
use crate::context::{ClassKind, Ctx, TyEnv, UseBinding};
use crate::hir::{HExpr, HKind, HirFunc};
use crate::model::answers::{compatible, row_included, unchanged_walk};
use crate::model::lists::{all_set, append, concat, cons, count, find_id, first_unset, nth, one};
use crate::model::lookup::{class_at, lookup_type};
use crate::model::resolve::{named, unnamed};
use crate::model::rows::canonical_row;
use crate::model::uses::{find_use, sys_group_name};
use crate::problem::{Diag, Problem, Stop};
use crate::state::{BranchState, CapSource, CaptureRec, Checker, CtorCtx, CtorState, LocalVar, LoopContext, LoopMode, MadeFunc, NameRes, Output, ScopeEntry};
use crate::text::Text;
use crate::types::{Row, Ty};

verus! {

/// A checked expression.
pub open spec fn hexpr(ty: Ty, mutable: bool, kind: HKind) -> HExpr
{
    HExpr { ty: ty, mutable: mutable, kind: Box::new(kind) }
}

/// The problem of a value of the wrong type.
pub open spec fn mismatch(expected: &Ty, found: &Ty, span: Span) -> Stop
{
    unnamed(Problem::Mismatch { expected: *expected, found: *found }, span)
}

/// Require a value to fit an expected type.
pub open spec fn expect_compatible(cx: &Ctx, expected: &Ty, found: HExpr, span: Span) -> Result<HExpr, Stop>
{
    match compatible(cx, expected, &found.ty) {
        Err(stop) => Err(stop),
        Ok(fits) => {
            if fits {
                Ok(found)
            } else {
                Err(mismatch(expected, &found.ty, span))
            }
        },
    }
}

/// The slot of one name in one scope.
pub open spec fn slot_in(scope: &Chain<ScopeEntry>, name: &Text) -> Option<u32>
    decreases scope,
{
    match scope {
        Chain::Nil => None,
        Chain::Cons(head, tail) => {
            if (head.name == *name) {
                Some(head.slot)
            } else {
                slot_in(tail, name)
            }
        },
    }
}

/// The slot of one name in the innermost scope that binds it.
pub open spec fn slot_in_scopes(scopes: &Chain<Chain<ScopeEntry>>, name: &Text) -> Option<u32>
    decreases scopes,
{
    match scopes {
        Chain::Nil => None,
        Chain::Cons(head, tail) => {
            match slot_in(head, name) {
                Some(slot) => Some(slot),
                None => slot_in_scopes(tail, name),
            }
        },
    }
}

/// The local slot of one name: the innermost scope decides.
pub open spec fn lookup_slot(st: &Checker, name: &Text) -> Option<u32>
{
    slot_in_scopes(&st.scopes, name)
}

/// The type of one local slot.
pub open spec fn local_ty(st: &Checker, slot: u32) -> Ty
{
    match nth(&st.locals, slot) {
        Some(local) => local.ty,
        None => Ty::Never,
    }
}

/// Whether one local slot holds a mutable reference.
pub open spec fn local_mutable(st: &Checker, slot: u32) -> bool
{
    match nth(&st.locals, slot) {
        Some(local) => local.mutable,
        None => true,
    }
}

/// The value of one local slot.
pub open spec fn local_expr(st: &Checker, slot: u32) -> HExpr
{
    hexpr(local_ty(st, slot), local_mutable(st, slot), HKind::Local(slot))
}

/// The `self` expression of a method body.
pub open spec fn self_value(st: &Checker) -> HExpr
{
    local_expr(st, 0u32)
}

/// The next free local slot.
pub open spec fn next_slot(st: &Checker) -> u32
{
    count(&st.locals)
}

/// A checker with one more local.
pub open spec fn add_local(st: Checker, ty: Ty, mutable: bool) -> Checker
{
    Checker { locals: append(st.locals, LocalVar { ty: ty, mutable: mutable }), ..st }
}

/// A local without a name, and its slot.
pub open spec fn hidden_local(st: Checker, ty: Ty, mutable: bool) -> (Checker, u32)
{
    let slot = next_slot(&st);
    (add_local(st, ty, mutable), slot)
}

/// A scope in which one name has one slot.
pub open spec fn set_slot(scope: Chain<ScopeEntry>, name: &Text, slot: u32) -> Chain<ScopeEntry>
    decreases scope,
{
    match scope {
        Chain::Nil => one(ScopeEntry { name: *name, slot: slot }),
        Chain::Cons(head, tail) => {
            if (head.name == *name) {
                cons(ScopeEntry { name: head.name, slot: slot }, *tail)
            } else {
                Chain::Cons(head, Box::new(set_slot(*tail, name, slot)))
            }
        },
    }
}

/// Bind one name in the innermost scope.
pub open spec fn bind_name(st: Checker, name: &Text, slot: u32) -> Checker
{
    match st.scopes {
        Chain::Nil => Checker { scopes: one(set_slot(Chain::Nil, name, slot)), ..st },
        Chain::Cons(head, tail) => Checker { scopes: cons(set_slot(*head, name, slot), *tail), ..st },
    }
}

/// Open one scope.
pub open spec fn push_scope(st: Checker, scope: Chain<ScopeEntry>) -> Checker
{
    Checker { scopes: cons(scope, st.scopes), ..st }
}

/// Close the innermost scope.
pub open spec fn pop_scope(st: Checker) -> Checker
{
    match st.scopes {
        Chain::Nil => Checker { scopes: Chain::Nil, ..st },
        Chain::Cons(_, tail) => Checker { scopes: *tail, ..st },
    }
}

/// Open one loop.
pub open spec fn push_loop(st: Checker, mode: LoopMode, walked: Option<HExpr>) -> Checker
{
    Checker { loops: cons(LoopContext { mode: mode, breaks: Chain::Nil, gap: None, walked: walked }, st.loops), ..st }
}

/// Close the innermost loop.
pub open spec fn pop_loop(st: Checker) -> (Checker, LoopContext)
{
    match st.loops {
        Chain::Nil => (Checker { loops: Chain::Nil, ..st }, LoopContext { mode: LoopMode::UnitOnly, breaks: Chain::Nil, gap: None, walked: None }),
        Chain::Cons(head, tail) => (Checker { loops: *tail, ..st }, *head),
    }
}

/// The name that one scope binds to a slot.
pub open spec fn name_in(scope: &Chain<ScopeEntry>, slot: u32) -> Option<Text>
    decreases scope,
{
    match scope {
        Chain::Nil => None,
        Chain::Cons(head, tail) => {
            if head.slot == slot {
                Some(head.name)
            } else {
                name_in(tail, slot)
            }
        },
    }
}

/// The innermost name that scopes bind to a slot.
pub open spec fn name_in_scopes(scopes: &Chain<Chain<ScopeEntry>>, slot: u32) -> Option<Text>
    decreases scopes,
{
    match scopes {
        Chain::Nil => None,
        Chain::Cons(head, tail) => {
            match name_in(head, slot) {
                Some(name) => Some(name),
                None => name_in_scopes(tail, slot),
            }
        },
    }
}

/// Find the innermost name bound to one local slot.
pub open spec fn name_of_slot(st: &Checker, slot: u32) -> Option<Text>
{
    name_in_scopes(&st.scopes, slot)
}

/// Whether an initializer has assigned every field and run the parent
/// initializer where it has to.
pub open spec fn ctor_complete(c: &CtorCtx) -> bool
{
    all_set(&c.state.inited) && (!c.needs_super || c.state.super_done)
}

/// Require an initializer to be complete on this path.
pub open spec fn require_complete(cx: &Ctx, class: u32, c: &CtorCtx, span: Span) -> Result<(), Stop>
{
    if c.needs_super && !c.state.super_done {
        Err(unnamed(Problem::SuperInitMissing, span))
    } else {
        match first_unset(&c.state.inited) {
            None => Ok(()),
            Some(missing) => {
                match nth(&class_at(cx, class).field_names, missing) {
                    Some(name) => Err(named(Problem::FieldNotInitialized, name, span)),
                    None => Err(unnamed(Problem::FieldNotInitialized, span)),
                }
            },
        }
    }
}

/// The initialization state of the path, inside an initializer.
pub open spec fn ctor_state(st: &Checker) -> Option<CtorState>
{
    match &st.ctor {
        Some(c) => Some(c.state),
        None => None,
    }
}

/// Set the initialization state of the path, inside an initializer.
pub open spec fn with_ctor_state(st: Checker, state: &Option<CtorState>) -> Checker
{
    match (st.ctor, state) {
        (Some(c), Some(found)) => Checker { ctor: Some(CtorCtx { state: *found, ..c }), ..st },
        (other, _) => Checker { ctor: other, ..st },
    }
}

/// Reject a `super.init` call inside a loop condition or body.
pub open spec fn ctor_guard_loop(st: &Checker, before: &Option<CtorState>, span: Span) -> Result<(), Stop>
{
    match (&st.ctor, before) {
        (Some(c), Some(state)) => {
            if c.state.super_done != state.super_done {
                Err(unnamed(Problem::SuperInitInLoop, span))
            } else {
                Ok(())
            }
        },
        _ => Ok(()),
    }
}

/// The markers that both lists set.
pub open spec fn both_set(a: Chain<bool>, b: &Chain<bool>) -> Chain<bool>
    decreases a,
{
    match (a, b) {
        (Chain::Cons(x, xs), Chain::Cons(y, ys)) => cons(*x && **y, both_set(*xs, ys)),
        (rest, _) => rest,
    }
}

/// Merge the states of the branches that go on.
pub open spec fn merge_states(merged: CtorState, states: &Chain<BranchState>, span: Span) -> Result<CtorState, Stop>
    decreases states,
{
    match states {
        Chain::Nil => Ok(merged),
        Chain::Cons(head, tail) => {
            if head.diverged {
                merge_states(merged, tail, span)
            } else if merged.super_done != head.state.super_done {
                Err(unnamed(Problem::SuperInitUneven, span))
            } else {
                merge_states(CtorState { inited: both_set(merged.inited, &head.state.inited), super_done: merged.super_done }, tail, span)
            }
        },
    }
}

/// The state behind a fork: what every branch that goes on has
/// assigned, or the state before it where none goes on.
pub open spec fn merged_state(entry: CtorState, states: &Chain<BranchState>, span: Span) -> Result<CtorState, Stop>
    decreases states,
{
    match states {
        Chain::Nil => Ok(entry),
        Chain::Cons(head, tail) => {
            if head.diverged {
                merged_state(entry, tail, span)
            } else {
                merge_states(head.state, tail, span)
            }
        },
    }
}

/// Merge forked initialization states from branches.
pub open spec fn merge_ctor_states(
    st: Checker,
    entry: Option<CtorState>,
    states: &Chain<BranchState>,
    span: Span,
) -> (Checker, Result<(), Stop>)
{
    match (st.ctor.is_some(), entry) {
        (true, Some(before)) => {
            match merged_state(before, states, span) {
                Err(stop) => (st, Err(stop)),
                Ok(merged) => {
                    (with_ctor_state(st, &Some(merged)), Ok(()))
                },
            }
        },
        _ => (st, Ok(())),
    }
}

/// A problem without a place, moved to a place.
pub open spec fn reposition(stop: Stop, span: Span) -> Stop
{
    match stop {
        Stop::Fail(diag) => {
            if diag.span.lo == 0 && diag.span.hi == 0 {
                Stop::Fail(Diag { span: span, ..diag })
            } else {
                Stop::Fail(diag)
            }
        },
        Stop::Ask(asked) => Stop::Ask(asked),
    }
}

/// The position of one captured name.
pub open spec fn capture_position(captures: &Chain<CaptureRec>, name: &Text) -> Option<u32>
    decreases captures,
{
    match captures {
        Chain::Nil => None,
        Chain::Cons(head, tail) => {
            if (head.name == *name) {
                Some(0u32)
            } else {
                match capture_position(tail, name) {
                    None => None,
                    Some(at) => Some(at.wrapping_add(1)),
                }
            }
        },
    }
}

/// Whether capturing a name would let `self` out of an initializer too
/// early.
pub open spec fn captures_early(st: &Checker, name: &Text) -> bool
{
    match &st.ctor {
        Some(c) => ((*name)@ == "self"@) && !ctor_complete(c),
        None => false,
    }
}

/// The capture of one name that a closure already has.
pub open spec fn known_capture(st: &Checker, name: &Text) -> Option<NameRes>
{
    match capture_position(&st.captures, name) {
        None => None,
        Some(at) => {
            match nth(&st.captures, at) {
                None => None,
                Some(found) => {
                    Some(NameRes { source: CapSource::Capture(at), ty: found.ty, mutable: found.mutable })
                },
            }
        },
    }
}

/// A closure with one more capture.
pub open spec fn add_capture(st: Checker, name: &Text, found: NameRes) -> (Checker, NameRes)
{
    let at = count(&st.captures);
    let captured = NameRes { source: CapSource::Capture(at), ty: found.ty, mutable: found.mutable };
    (Checker { captures: append(st.captures, CaptureRec { name: *name, ty: found.ty, mutable: found.mutable, source: found.source }), ..st }, captured)
}

/// Look up a name for a closure inside this callable. The callable
/// registers captures of its own on the way.
pub open spec fn capture_lookup(st: Checker, name: &Text) -> (Checker, Result<Option<NameRes>, Stop>)
    decreases st, 1int,
{
    match lookup_slot(&st, name) {
        Some(slot) => {
            if captures_early(&st, name) {
                (st, Err(unnamed(Problem::SelfCapturedEarly, nowhere())))
            } else {
                let found = NameRes { source: CapSource::Local(slot), ty: local_ty(&st, slot), mutable: local_mutable(&st, slot) };
                (st, Ok(Some(found)))
            }
        },
        None => capture_outside(st, name),
    }
}

/// Look up a name outside a closure, and capture it where it is found.
pub open spec fn capture_outside(st: Checker, name: &Text) -> (Checker, Result<Option<NameRes>, Stop>)
    decreases st, 0int,
{
    if !st.is_closure {
        (st, Ok(None))
    } else {
        match known_capture(&st, name) {
            Some(found) => (st, Ok(Some(found))),
            None => {
                match st.outer {
                    None => (Checker { outer: None, ..st }, Ok(None)),
                    Some(outer) => {
                        match capture_lookup(*outer, name) {
                            (around, Err(stop)) => (Checker { outer: Some(Box::new(around)), ..st }, Err(stop)),
                            (around, Ok(None)) => (Checker { outer: Some(Box::new(around)), ..st }, Ok(None)),
                            (around, Ok(Some(found))) => {
                                let st = Checker { outer: Some(Box::new(around)), ..st };
                                let (st, captured) = add_capture(st, name, found);
                                (st, Ok(Some(captured)))
                            },
                        }
                    },
                }
            },
        }
    }
}

/// Resolve a name to a local or a capture, registering captures of the
/// surrounding callables on demand.
pub open spec fn resolve_value(st: Checker, name: &Text) -> (Checker, Result<Option<NameRes>, Stop>)
{
    match lookup_slot(&st, name) {
        Some(slot) => {
            let found = NameRes { source: CapSource::Local(slot), ty: local_ty(&st, slot), mutable: local_mutable(&st, slot) };
            (st, Ok(Some(found)))
        },
        None => capture_outside(st, name),
    }
}

/// The expression of a resolved name.
pub open spec fn name_expr(found: NameRes) -> HExpr
{
    match found.source {
        CapSource::Local(slot) => hexpr(found.ty, found.mutable, HKind::Local(slot)),
        CapSource::Capture(at) => hexpr(found.ty, found.mutable, HKind::Capture(at)),
    }
}

/// Find one user module function in a user body.
pub open spec fn module_func(cx: &Ctx, env: &TyEnv, name: &Text) -> Option<u32>
{
    if env.core_scope {
        None
    } else {
        find_id(&cx.func_index, name)
    }
}

/// The `self` of a method body or of a closure inside one. Inside an
/// initializer it may not escape before every required field is
/// assigned.
pub open spec fn synth_self(st: Checker, span: Span) -> (Checker, Result<HExpr, Stop>)
{
    match resolve_value(st, &chain_of("self"@)) {
        (st, Err(stop)) => (st, Err(reposition(stop, span))),
        (st, Ok(None)) => (st, Err(unnamed(Problem::SelfOutsideMethod, span))),
        (st, Ok(Some(found))) => {
            let early = match &st.ctor {
                Some(c) => !ctor_complete(c),
                None => false,
            };
            if early {
                (st, Err(unnamed(Problem::SelfEscapesEarly, span)))
            } else {
                (st, Ok(name_expr(found)))
            }
        },
    }
}

/// Require the row of a call to be inside the declared row. The module
/// entry collects the union instead.
pub open spec fn charge_row(cx: &Ctx, st: Checker, row: &Row, span: Span) -> (Checker, Result<(), Stop>)
{
    match row_included(cx, row, &st.declared_row) {
        Err(stop) => (st, Err(stop)),
        Ok(included) => {
            if included {
                (st, Ok(()))
            } else if st.collect_row {
                let merged = canonical_row(&concat(st.declared_row, *row));
                let st = Checker { declared_row: merged, ..st };
                (st, Ok(()))
            } else {
                let problem = Problem::RowTooWide { needed: *row, declared: st.declared_row };
                (st, Err(unnamed(problem, span)))
            }
        },
    }
}

/// Resolve a name to its `use` binding. Locals, module functions, and
/// module types shadow a `use` binding.
pub open spec fn use_binding(cx: &Ctx, st: Checker, name: &Text) -> (Checker, Result<Option<UseBinding>, Stop>)
{
    if st.env.core_scope {
        (st, Ok(None))
    } else {
        match resolve_value(st, name) {
            (st, Err(stop)) => (st, Err(stop)),
            (st, Ok(found)) => {
                if found.is_some() || find_id(&cx.func_index, name).is_some() || lookup_type(cx, name, &st.env).is_some() {
                    (st, Ok(None))
                } else {
                    match find_use(&cx.uses, name) {
                        Some(binding) => (st, Ok(Some(*binding))),
                        None => (st, Ok(None)),
                    }
                }
            },
        }
    }
}

/// Whether the bare name `sys` means the operation root here.
pub open spec fn sys_in_scope(st: Checker) -> (Checker, Result<bool, Stop>)
{
    match resolve_value(st, &chain_of("sys"@)) {
        (st, Err(stop)) => (st, Err(stop)),
        (st, Ok(found)) => {
            (st, Ok(found.is_none()))
        },
    }
}

/// Whether an expression is one bare name.
pub open spec fn is_name(expr: &Expr, name: &str) -> bool
{
    match &*expr.kind {
        ExprKind::Name(found) => ((*found)@ == name@),
        _ => false,
    }
}

/// Read `sys.<group>` out of a receiver: the qualified form, or a group
/// alias that a `use` line binds.
pub open spec fn sys_group_of(cx: &Ctx, st: Checker, recv: &Expr) -> (Checker, Result<Option<Text>, Stop>)
{
    match &*recv.kind {
        ExprKind::Field { recv: inner, name, name_span: _ } => {
            if is_name(inner, "sys") {
                match sys_in_scope(st) {
                    (st, Err(stop)) => (st, Err(stop)),
                    (st, Ok(visible)) => {
                        if visible {
                            (st, Ok(sys_group_name(&cx.bundle.groups, name)))
                        } else {
                            (st, Ok(None))
                        }
                    },
                }
            } else {
                (st, Ok(None))
            }
        },
        ExprKind::Name(name) => {
            match use_binding(cx, st, name) {
                (st, Err(stop)) => (st, Err(stop)),
                (st, Ok(binding)) => {
                    match binding {
                        Some(UseBinding::SysGroup(group)) => (st, Ok(Some(group))),
                        _ => (st, Ok(None)),
                    }
                },
            }
        },
        _ => (st, Ok(None)),
    }
}

/// Read a receiver expression as an enum qualifier, such as the `Option`
/// in `Option.Some`.
pub open spec fn enum_qualifier(cx: &Ctx, st: &Checker, recv: &Expr) -> Option<u32>
{
    match &*recv.kind {
        ExprKind::Name(name) => {
            if lookup_slot(st, name).is_some() || module_func(cx, &st.env, name).is_some() {
                None
            } else {
                match lookup_type(cx, name, &st.env) {
                    Some(class) => {
                        if class_at(cx, class).kind == ClassKind::EnumParent {
                            Some(class)
                        } else {
                            None
                        }
                    },
                    None => None,
                }
            }
        },
        _ => None,
    }
}

/// The digits of a number below ten.
pub open spec fn digit_char(n: u32) -> char
{
    if n == 0 {
        '0'
    } else if n == 1 {
        '1'
    } else if n == 2 {
        '2'
    } else if n == 3 {
        '3'
    } else if n == 4 {
        '4'
    } else if n == 5 {
        '5'
    } else if n == 6 {
        '6'
    } else if n == 7 {
        '7'
    } else if n == 8 {
        '8'
    } else {
        '9'
    }
}

/// The decimal digits of a number in front of a text.
pub open spec fn decimal_before(n: u32, rest: Text) -> Text
    decreases n,
{
    let next = cons(digit_char(n % 10), rest);
    if n < 10 {
        next
    } else {
        decimal_before(n / 10, next)
    }
}

/// The text between angle brackets that names a generated function.
pub open spec fn generated_name(kind: &str, n: u32) -> Text
{
    concat(chain_of(kind@), decimal_before(n, one('>')))
}

/// Add one function to the table, and give its index.
pub open spec fn push_func(st: Checker, func: HirFunc) -> (Checker, u32)
{
    let index = st.out.next_func;
    let out = Output { next_func: index.wrapping_add(1), made: append(st.out.made, MadeFunc { index: index, func: func }) };
    (Checker { out: out, ..st }, index)
}

/// What the loops around a place walk, the innermost first.
pub open spec fn walked_values(loops: &Chain<LoopContext>) -> Chain<HExpr>
    decreases loops,
{
    match loops {
        Chain::Nil => Chain::Nil,
        Chain::Cons(head, tail) => {
            match &head.walked {
                Some(value) => cons(*value, walked_values(tail)),
                None => walked_values(tail),
            }
        },
    }
}

/// Require that no loop around a place walks a value that changes there.
pub open spec fn guard_walked(cx: &Ctx, st: &Checker, value: &HExpr, span: Span) -> Result<(), Stop>
{
    let walked = walked_values(&st.loops);
    if walked.is_empty() {
        Ok(())
    } else {
        unchanged_walk(cx, walked, value, span)
    }
}

/// The same of an argument, where its parameter is mutable.
pub open spec fn guard_argument(cx: &Ctx, st: &Checker, value: &HExpr, mutable: bool, span: Span) -> Result<(), Stop>
{
    if mutable {
        guard_walked(cx, st, value, span)
    } else {
        Ok(())
    }
}

} // verus!
