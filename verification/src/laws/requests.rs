//! Machines, requests and messages: what their checks accept.

use vstd::prelude::*;
use crate::ast::{Expr, Span, TypeExpr};
use crate::chain::{Chain, chain_of};
use crate::context::Ctx;
use crate::hir::{HExpr, HKind, TableAction, TargetKind};
use crate::laws::fitting::{law_argument_fits, law_check_fits};
use crate::laws::machines::performs;
use crate::laws::operators::lemma_two;
use crate::model::answers::is_holder_local;
use crate::model::calls::{check_nth, placed, synth_first, synth_nth};
use crate::model::conform::find_method_owner;
use crate::model::control::{check_answer, check_fault_denied, check_from_fn, check_mock, check_proc_run, check_receive, check_reject, check_restore, check_serve_file, spawn_body};
use crate::model::fits::fits;
use crate::model::infer::arrange_args;
use crate::model::lists::{append, count, find_literal, one, two};
use crate::model::lookup::{all_always_frozen, always_frozen_at, ancestor_args, check_mailbox_type, class_always_frozen, class_at, core_inst, holder_local_class, holder_local_in, holder_local_part};
use crate::model::scope::synth_self;
use crate::model::subst::variables;
use crate::model::system::{op_args_type, op_at, op_fn_type, op_reply, packed, proc_mailbox_type, result_of};
use crate::problem::Stop;
use crate::state::{Checker, Target};
use crate::text::Text;
use crate::types::Ty;

verus! {

/// Whether an expression performs an operation on these values alone.
pub open spec fn performs_on(found: HExpr, op: u32, args: Seq<HExpr>) -> bool {
    *found.kind matches HKind::Perform { op: kept, args: given } && kept == op && given@ == args
}

/// A message is received inside a process alone; its type is the mailbox of
/// the process.
pub proof fn law_receive(cx: &Ctx, st: Checker, member: &Text, name_span: Span, args: &Chain<Expr>, span: Span)
    requires
        check_receive(cx, st, member, name_span, args, span).1 is Ok,
    ensures
        proc_mailbox_type(cx, &st) matches Some(mailbox) && (core_inst(cx, "Recv", one(mailbox), span) matches Ok(received) && if member@ == "recv"@ {
            performs(check_receive(cx, st, member, name_span, args, span).1->Ok_0, cx.bundle.slots.proc_recv, synth_self(st, span).1->Ok_0, received)
        } else {
            performs(check_receive(cx, st, member, name_span, args, span).1->Ok_0, cx.bundle.slots.proc_recv_wait, synth_self(st, span).1->Ok_0, Ty::Wait(Box::new(received)))
        }),
        count(args) == 0,
{
    reveal_with_fuel(Chain::items, 3);
}

/// The mailbox of a process is that of the process class among its
/// ancestors.
pub proof fn law_mailbox_type(cx: &Ctx, st: &Checker)
    ensures
        proc_mailbox_type(cx, st) matches Some(mailbox) ==> (st.self_class matches Some(class) && (find_literal(&cx.core_types, "Proc") matches Some(proc_class) && (ancestor_args(
            cx,
            class,
            variables(&class_at(cx, class).type_params, 0u32),
            proc_class,
        ) matches Some(args) && args@.len() > 0 && args@[0] == mailbox))),
{
    reveal_with_fuel(Chain::items, 2);
}

/// The scheduler takes a loaded machine; the handle has its result and no
/// mailbox.
pub proof fn law_proc_run(cx: &Ctx, st: Checker, member: &Text, args: &Chain<Expr>, span: Span)
    requires
        check_proc_run(cx, st, member, args, span).1 is Ok,
    ensures
        synth_first(cx, st, args, span).1 matches Ok(vm) && (vm.ty matches Ty::Vm(result) && performs(
            check_proc_run(cx, st, member, args, span).1->Ok_0,
            cx.bundle.slots.proc_run,
            vm,
            Ty::Handle(Box::new(Ty::Never), result),
        )),
        count(args) == 1,
{
    reveal_with_fuel(Chain::items, 3);
}

/// A machine is made of a function value and of its arguments; it gives the
/// result of the function.
pub proof fn law_from_fn(cx: &Ctx, st: Checker, recv: HExpr, name: &Text, args: &Chain<Expr>, span: Span)
    requires
        check_from_fn(cx, st, recv, name, args, span).1 is Ok,
    ensures
        ({
            let order = arrange_args(args, &two(chain_of("program"@), chain_of("args"@)))->Ok_0;
            let (next, program) = synth_nth(cx, st, args, placed(&order, 0u32), span);
            let found = check_from_fn(cx, st, recv, name, args, span).1->Ok_0;
            &&& program matches Ok(value) && (value.ty matches Ty::Fn(params, _, ret, _) && found.ty == Ty::Vm(ret) && (*found.kind matches HKind::Perform { op, args: given } && op
                == cx.bundle.slots.vm_from_fn && given@.len() == 3 && given@[0] == recv && given@[1] == value && fits(cx, packed(params), given@[2].ty)))
            &&& count(args) == 2
        }),
{
    reveal_with_fuel(Chain::items, 5);
    let order = arrange_args(args, &two(chain_of("program"@), chain_of("args"@)))->Ok_0;
    let (next, program) = synth_nth(cx, st, args, placed(&order, 0u32), span);
    if let Ty::Fn(params, _, _, _) = program->Ok_0.ty {
        law_nth_fits(cx, next, args, placed(&order, 1u32), &packed(params), span);
    }
}

/// The argument at a place fits what is expected of it.
pub proof fn law_nth_fits(cx: &Ctx, st: Checker, args: &Chain<Expr>, at: u32, expected: &Ty, span: Span)
    ensures
        check_nth(cx, st, args, at, expected, span).1 matches Ok(found) ==> fits(cx, *expected, found.ty),
    decreases args,
{
    if let Chain::Cons(head, tail) = args {
        if at != 0 {
            law_nth_fits(cx, st, tail, (at - 1) as u32, expected, span);
        } else {
            law_argument_fits(cx, st, &**head, expected);
        }
    }
}

/// A machine is restored from a snapshot alone.
pub proof fn law_restore(cx: &Ctx, st: Checker, recv: HExpr, name: &Text, args: &Chain<Expr>, span: Span)
    requires
        check_restore(cx, st, recv, name, args, span).1 is Ok,
    ensures
        synth_first(cx, st, args, span).1 matches Ok(snapshot) && (snapshot.ty matches Ty::Snapshot(result) && performs_on(
            check_restore(cx, st, recv, name, args, span).1->Ok_0,
            cx.bundle.slots.vm_restore,
            seq![recv, snapshot],
        ) && result_of(cx, Ty::Vm(result), "RestoreError", span) == Ok::<Ty, Stop>(check_restore(cx, st, recv, name, args, span).1->Ok_0.ty)),
{
    let snapshot = synth_first(cx, st, args, span).1->Ok_0;
    lemma_two(recv, snapshot);
}

/// A file is served for a pending call of the open operation alone.
pub proof fn law_serve_file(cx: &Ctx, st: Checker, recv: HExpr, name: &Text, args: &Chain<Expr>, span: Span)
    requires
        check_serve_file(cx, st, recv, name, args, span).1 is Ok,
    ensures
        synth_first(cx, st, args, span).1 matches Ok(call) && performs_on(check_serve_file(cx, st, recv, name, args, span).1->Ok_0, cx.bundle.slots.vm_serve_file, seq![recv, call]) && (
        call.ty matches Ty::PendingCall(wanted, reply) && op_args_type(cx, cx.bundle.slots.fs_open, span) == Ok::<Ty, Stop>(*wanted) && op_reply(
            cx,
            cx.bundle.slots.fs_open,
            span,
        ) == Ok::<Ty, Stop>(*reply)),
{
    let call = synth_first(cx, st, args, span).1->Ok_0;
    lemma_two(recv, call);
}

/// An answer is one of the reply type of the call that it answers.
pub proof fn law_answer(cx: &Ctx, st: Checker, recv: HExpr, name: &Text, args: &Chain<Expr>, span: Span)
    requires
        check_answer(cx, st, recv, name, args, span).1 is Ok,
    ensures
        ({
            let order = arrange_args(args, &two(chain_of("call"@), chain_of("value"@)))->Ok_0;
            let call = synth_nth(cx, st, args, placed(&order, 0u32), span).1;
            let found = check_answer(cx, st, recv, name, args, span).1->Ok_0;
            &&& call matches Ok(token) && (token.ty matches Ty::PendingCall(_, reply) && (*found.kind matches HKind::Perform { op, args: given } && op == cx.bundle.slots.vm_answer && given@.len()
                == 3 && given@[0] == recv && given@[1] == token && fits(cx, *reply, given@[2].ty)))
            &&& found.ty == Ty::Unit
        }),
{
    reveal_with_fuel(Chain::items, 5);
    let order = arrange_args(args, &two(chain_of("call"@), chain_of("value"@)))->Ok_0;
    let (next, call) = synth_nth(cx, st, args, placed(&order, 0u32), span);
    if let Ty::PendingCall(_, reply) = call->Ok_0.ty {
        law_nth_fits(cx, next, args, placed(&order, 1u32), &*reply, span);
    }
}

/// A rejection takes a request and a fault.
pub proof fn law_reject(cx: &Ctx, st: Checker, recv: HExpr, name: &Text, args: &Chain<Expr>, span: Span)
    requires
        check_reject(cx, st, recv, name, args, span).1 is Ok,
    ensures
        *check_reject(cx, st, recv, name, args, span).1->Ok_0.kind matches HKind::Perform { op, args: given } && op == cx.bundle.slots.vm_reject && given@.len() == 3 && given@[0] == recv && fits(
            cx,
            Ty::Request,
            given@[1].ty,
        ) && fits(cx, Ty::Fault, given@[2].ty),
{
    reveal_with_fuel(Chain::items, 5);
    let order = arrange_args(args, &two(chain_of("request"@), chain_of("fault"@)))->Ok_0;
    law_nth_fits(cx, st, args, placed(&order, 0u32), &Ty::Request, span);
    let next = check_nth(cx, st, args, placed(&order, 0u32), &Ty::Request, span).0;
    law_nth_fits(cx, next, args, placed(&order, 1u32), &Ty::Fault, span);
}

/// A program builds one fault alone, of one text.
pub proof fn law_fault_denied(cx: &Ctx, st: Checker, name: &Text, name_span: Span, type_args: &Chain<TypeExpr>, args: &Chain<Expr>, span: Span)
    requires
        check_fault_denied(cx, st, name, name_span, type_args, args, span).1 is Ok,
    ensures
        name@ == "denied"@,
        count(args) == 1,
        check_fault_denied(cx, st, name, name_span, type_args, args, span).1->Ok_0.ty == Ty::Fault,
        *check_fault_denied(cx, st, name, name_span, type_args, args, span).1->Ok_0.kind matches HKind::FaultDenied(reason) && fits(cx, Ty::Str, reason.ty),
{
    let order = arrange_args(args, &one(chain_of("reason"@)))->Ok_0;
    law_nth_fits(cx, st, args, placed(&order, 0u32), &Ty::Str, span);
}

/// The body of a process takes `self` alone.
pub proof fn law_spawn_body(cx: &Ctx, class: u32, span: Span)
    ensures
        spawn_body(cx, class, span) matches Ok(found) ==> find_method_owner(cx, class, &chain_of("on_spawn"@)) == Some(found) && found.sig.params@.len() == 0
            && found.sig.own_type_params@.len() == 0 && found.sig.own_effect_params@.len() == 0 && found.owner_args@.len() == 0,
{
}

/// A mock stands for one fixed operation, and is a function of its type.
pub proof fn law_mock(cx: &Ctx, st: Checker, action: TableAction, target: Target, args: &Chain<Expr>, span: Span)
    ensures
        action != TableAction::Mock ==> check_mock(cx, st, action, target, args, span) == (st, Ok::<Option<HExpr>, Stop>(None)),
        action == TableAction::Mock && check_mock(cx, st, action, target, args, span).1 is Ok ==> target.kind == TargetKind::Exact && (op_at(cx, target.slot, span) matches Ok(def) && def.fixed),
        check_mock(cx, st, action, target, args, span).1 matches Ok(Some(handler)) ==> (op_fn_type(cx, target.slot, span) matches Ok(ty) && fits(cx, ty, handler.ty)),
{
    if action == TableAction::Mock {
        if let Ok(handler_ty) = op_fn_type(cx, target.slot, span) {
            if let Chain::Cons(_, rest) = args {
                if let Chain::Cons(head, _) = &**rest {
                    law_check_fits(cx, st, &**head, &handler_ty);
                }
            }
        }
    }
}

/// A class is always frozen where it is declared frozen, or where it is a
/// text, a number, a truth value, bytes or the unit class.
pub proof fn law_class_frozen(cx: &Ctx, class: u32)
    ensures
        class_always_frozen(cx, class) ==> class_at(cx, class).is_frozen || (class_at(cx, class).native_repr matches Some(repr) && (repr is Unit || repr is Int || repr is Float || repr is Bool
            || repr is Text || repr is String || repr is Substring || repr is Char || repr is Bytes)),
        class_at(cx, class).is_frozen ==> class_always_frozen(cx, class),
{
}

/// A scalar is always frozen; a collection, a function or a handle never
/// is; a tuple is where its elements are; an application is where its class
/// and its arguments are.
pub proof fn law_always_frozen(cx: &Ctx, ty: &Ty, allow_var: bool, depth: u32)
    requires
        depth < 128,
    ensures
        *ty is ListOf || *ty is MapOf || *ty is Fn || *ty is Callback || *ty is Handle || *ty is Vm || *ty is FileHandle ==> !always_frozen_at(cx, ty, allow_var, depth),
        *ty matches Ty::Tuple(items) ==> (always_frozen_at(cx, ty, allow_var, depth) <==> forall|i: int|
            0 <= i < items@.len() ==> always_frozen_at(cx, &#[trigger] items@[i], allow_var, (depth + 1) as u32)),
        *ty matches Ty::Inst(class, args) ==> (always_frozen_at(cx, ty, allow_var, depth) <==> class_always_frozen(cx, class) && (forall|i: int|
            0 <= i < args@.len() ==> always_frozen_at(cx, &#[trigger] args@[i], allow_var, (depth + 1) as u32))),
        *ty matches Ty::Class(class) ==> always_frozen_at(cx, ty, allow_var, depth) == class_always_frozen(cx, class),
        *ty is Var ==> always_frozen_at(cx, ty, allow_var, depth) == allow_var,
        *ty is Unit || *ty is Bool || *ty is Int || *ty is Float || *ty is Str || *ty is Bytes ==> always_frozen_at(cx, ty, allow_var, depth),
{
    match ty {
        Ty::Tuple(items) => lemma_all_frozen(cx, items, allow_var, (depth + 1) as u32),
        Ty::Inst(_, args) => lemma_all_frozen(cx, args, allow_var, (depth + 1) as u32),
        _ => {},
    }
}

proof fn lemma_all_frozen(cx: &Ctx, items: &Chain<Ty>, allow_var: bool, depth: u32)
    ensures
        all_always_frozen(cx, items, allow_var, depth) <==> forall|i: int| 0 <= i < items@.len() ==> always_frozen_at(cx, &#[trigger] items@[i], allow_var, depth),
    decreases items,
{
    if let Chain::Cons(head, tail) = items {
        lemma_all_frozen(cx, tail, allow_var, depth);
        assert(items@[0] == **head);
        if forall|i: int| 0 <= i < items@.len() ==> always_frozen_at(cx, &#[trigger] items@[i], allow_var, depth) {
            assert forall|i: int| 0 <= i < tail@.len() implies always_frozen_at(cx, &#[trigger] tail@[i], allow_var, depth) by {
                assert(tail@[i] == items@[i + 1]);
            }
        }
        if all_always_frozen(cx, items, allow_var, depth) {
            assert forall|i: int| 0 <= i < items@.len() implies always_frozen_at(cx, &#[trigger] items@[i], allow_var, depth) by {
                if i > 0 {
                    assert(items@[i] == tail@[i - 1]);
                }
            }
        }
    }
}

/// Whether a type is known to leave its holder.
pub open spec fn leaves_holder(cx: &Ctx, ty: Ty) -> bool {
    is_holder_local(cx, &ty) == Ok::<bool, Stop>(false)
}

proof fn lemma_part_leaves(cx: &Ctx, st: Chain<u32>, ty: &Ty, steps: u32)
    ensures
        holder_local_part(cx, st, ty, steps).1 == Ok::<Option<Ty>, Stop>(None) ==> leaves_holder(cx, *ty),
{
}

proof fn lemma_parts_leave(cx: &Ctx, st: Chain<u32>, items: &Chain<Ty>, steps: u32)
    ensures
        holder_local_in(cx, st, items, steps).1 == Ok::<Option<Ty>, Stop>(None) ==> forall|i: int| 0 <= i < items@.len() ==> leaves_holder(cx, #[trigger] items@[i]),
    decreases items,
{
    if let Chain::Cons(head, tail) = items {
        let next = holder_local_part(cx, st, &**head, steps).0;
        lemma_part_leaves(cx, st, &**head, steps);
        lemma_parts_leave(cx, next, tail, steps);
        if holder_local_in(cx, st, items, steps).1 == Ok::<Option<Ty>, Stop>(None) {
            assert forall|i: int| 0 <= i < items@.len() implies leaves_holder(cx, #[trigger] items@[i]) by {
                if i > 0 {
                    assert(items@[i] == tail@[i - 1]);
                }
            }
        }
    }
}

/// A message can leave its holder, and so can its parts: the item of a
/// list, the key and the value of a map, the elements of a tuple, and the
/// fields of a class.
pub proof fn law_mailbox_part(cx: &Ctx, mailbox: &Ty, span: Span)
    requires
        check_mailbox_type(cx, mailbox, span) is Ok,
    ensures
        leaves_holder(cx, *mailbox),
        *mailbox matches Ty::ListOf(item) ==> leaves_holder(cx, *item),
        *mailbox matches Ty::MapOf(key, value) ==> leaves_holder(cx, *key) && leaves_holder(cx, *value),
        *mailbox matches Ty::Tuple(items) ==> forall|i: int| 0 <= i < items@.len() ==> leaves_holder(cx, #[trigger] items@[i]),
        *mailbox matches Ty::Inst(_, args) ==> forall|i: int| 0 <= i < args@.len() ==> leaves_holder(cx, #[trigger] args@[i]),
        *mailbox matches Ty::Class(class) ==> forall|i: int| 0 <= i < class_at(cx, class).field_tys@.len() ==> leaves_holder(cx, #[trigger] class_at(cx, class).field_tys@[i]),
{
    let steps: u32 = 0xffff_ffffu32;
    let empty = Chain::<u32>::Nil;
    lemma_part_leaves(cx, empty, mailbox, steps);
    match mailbox {
        Ty::ListOf(item) => lemma_part_leaves(cx, empty, &**item, steps),
        Ty::MapOf(key, value) => {
            lemma_part_leaves(cx, empty, &**key, steps);
            let next = holder_local_part(cx, empty, &**key, steps).0;
            lemma_part_leaves(cx, next, &**value, steps);
        },
        Ty::Tuple(items) => lemma_parts_leave(cx, empty, items, steps),
        Ty::Inst(_, args) => lemma_parts_leave(cx, empty, args, steps),
        Ty::Class(class) => lemma_class_leaves(cx, *class, (steps - 1) as u32),
        _ => {},
    }
}

proof fn lemma_class_leaves(cx: &Ctx, class: u32, steps: u32)
    requires
        steps > 0,
    ensures
        holder_local_class(cx, Chain::Nil, class, steps).1 == Ok::<Option<Ty>, Stop>(None) ==> forall|i: int|
            0 <= i < class_at(cx, class).field_tys@.len() ==> leaves_holder(cx, #[trigger] class_at(cx, class).field_tys@[i]),
{
    let visited = append(Chain::<u32>::Nil, class);
    lemma_parts_leave(cx, visited, &class_at(cx, class).field_tys, (steps - 1) as u32);
}

} // verus!
