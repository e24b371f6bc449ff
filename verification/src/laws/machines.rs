//! Machines, processes and policy tables: each member performs the
//! operation of its name.

use vstd::prelude::*;
use crate::ast::{Expr, Span};
use crate::chain::{Chain, chain_of};
use crate::context::Ctx;
use crate::hir::{HExpr, HKind, TableAction, TargetKind};
use crate::laws::operators::{checking, lemma_two};
use crate::model::calls::{check_first, synth_first};
use crate::model::conform::find_method_owner;
use crate::model::control::{check_choose, check_handle_method, check_native_method, check_resource_method, check_spawn, check_table_edit, check_vm_method, check_vm_run, check_wait_method, first_target, perform_alone, perform_with, spawn_mailbox};
use crate::model::lists::{count, two};
use crate::model::lookup::{ancestor_args, core_class, core_id, core_inst};
use crate::model::resolve::named;
use crate::model::system::{charge_op, native_method, perform, reads_element};
use crate::problem::Stop;
use crate::state::Checker;
use crate::text::Text;
use crate::types::Ty;

verus! {

/// Whether an expression performs an operation on a receiver, and gives a
/// value of a type.
pub open spec fn performs(found: HExpr, op: u32, recv: HExpr, ty: Ty) -> bool {
    &&& found.ty == ty
    &&& *found.kind matches HKind::Perform { op: kept, args }
    &&& kept == op
    &&& args@.len() > 0
    &&& args@[0] == recv
}

/// An operation is performed as it is, and only where its row is charged.
pub proof fn law_perform(cx: &Ctx, st: Checker, op: u32, args: Chain<HExpr>, ty: Ty, span: Span)
    ensures
        perform(cx, st, op, args, ty, span).1 matches Ok(found) ==> found.ty == ty && *found.kind == (HKind::Perform { op, args }) && charge_op(
            cx,
            st,
            op,
            span,
        ).1 is Ok,
        charge_op(cx, st, op, span).1 is Err ==> perform(cx, st, op, args, ty, span).1 is Err,
{
}

proof fn lemma_alone(cx: &Ctx, st: Checker, op: u32, recv: HExpr, name: &Text, args: &Chain<Expr>, ty: Ty, span: Span)
    ensures
        perform_alone(cx, st, op, recv, name, args, ty, span).1 matches Ok(found) ==> performs(found, op, recv, ty) && count(args) == 0,
{
    lemma_two(recv, recv);
}

/// What checking the first argument gives.
#[verifier::opaque]
spec fn first_checked(cx: &Ctx, st: Checker, args: Chain<Expr>, param: Ty, span: Span) -> (Checker, Result<HExpr, Stop>) {
    check_first(cx, st, &args, &param, span)
}

proof fn lemma_first_checked(cx: &Ctx, st: Checker, args: Chain<Expr>, param: Ty, span: Span)
    ensures
        first_checked(cx, st, args, param, span).1 matches Ok(value) ==> (args matches Chain::Cons(first, _) && checking(cx, st, &*first, &param).1
            == Ok::<HExpr, Stop>(value)),
{
    reveal(first_checked);
    reveal(checking);
}

/// What performing an operation with one argument gives.
#[verifier::opaque]
spec fn with_one(cx: &Ctx, st: Checker, op: u32, recv: HExpr, name: Text, args: Chain<Expr>, param: Ty, ty: Ty, span: Span) -> (
    Checker,
    Result<HExpr, Stop>,
) {
    perform_with(cx, st, op, recv, &name, &args, &param, ty, span)
}

proof fn lemma_with_first(cx: &Ctx, st: Checker, op: u32, recv: HExpr, name: &Text, args: &Chain<Expr>, param: &Ty, ty: Ty, span: Span)
    ensures
        with_one(cx, st, op, recv, *name, *args, *param, ty, span).1 matches Ok(found) ==> (first_checked(cx, st, *args, *param, span).1 matches Ok(
            value,
        ) && found.ty == ty && *found.kind == (HKind::Perform { op, args: two(recv, value) })),
{
    reveal(first_checked);
    reveal(with_one);
}

/// Whether an expression performs an operation on a receiver and the first
/// argument of a list, checked against a type.
pub open spec fn performs_with(cx: &Ctx, st: Checker, found: HExpr, op: u32, recv: HExpr, args: Chain<Expr>, param: Ty, ty: Ty) -> bool {
    &&& performs(found, op, recv, ty)
    &&& args matches Chain::Cons(first, _)
    &&& *found.kind matches HKind::Perform { args: handed, .. }
    &&& handed@.len() == 2
    &&& checking(cx, st, &*first, &param).1 == Ok::<HExpr, Stop>(handed@[1])
}

proof fn lemma_with_one(cx: &Ctx, st: Checker, op: u32, recv: HExpr, name: &Text, args: &Chain<Expr>, param: &Ty, ty: Ty, span: Span)
    ensures
        with_one(cx, st, op, recv, *name, *args, *param, ty, span).1 matches Ok(found) ==> performs_with(cx, st, found, op, recv, *args, *param, ty),
{
    lemma_first_checked(cx, st, *args, *param, span);
    lemma_with_first(cx, st, op, recv, name, args, param, ty, span);
    if let Ok(value) = first_checked(cx, st, *args, *param, span).1 {
        lemma_two(recv, value);
    }
}

proof fn lemma_with(cx: &Ctx, st: Checker, op: u32, recv: HExpr, name: &Text, args: &Chain<Expr>, param: &Ty, ty: Ty, span: Span)
    ensures
        perform_with(cx, st, op, recv, name, args, param, ty, span).1 matches Ok(found) ==> performs_with(cx, st, found, op, recv, *args, *param, ty),
{
    lemma_with_one(cx, st, op, recv, name, args, param, ty, span);
    reveal(with_one);
}

proof fn lemma_vm_names()
    ensures
        "table"@ != "handles"@,
        "table"@ != "resource"@,
        "table"@ != "dispatch"@,
        "handles"@ != "resource"@,
        "handles"@ != "dispatch"@,
        "resource"@ != "dispatch"@,
        "serve_file"@ != "dispatch"@,
        "answer"@ != "dispatch"@,
        "reject"@ != "dispatch"@,
{
    reveal_strlit("table");
    reveal_strlit("handles");
    reveal_strlit("resource");
    reveal_strlit("serve_file");
    reveal_strlit("answer");
    reveal_strlit("reject");
    reveal_strlit("dispatch");
    assert("table"@.len() == 5 && "handles"@.len() == 7 && "resource"@.len() == 8 && "serve_file"@.len() == 10 && "answer"@.len() == 6 && "reject"@.len() == 6 && "dispatch"@.len() == 8);
    assert("resource"@[0] == 'r' && "dispatch"@[0] == 'd');
}

proof fn lemma_vm_method(cx: &Ctx, st: Checker, recv: HExpr, result: Ty, name: &Text, name_span: Span, args: &Chain<Expr>, span: Span)
    ensures
        ({
            let slots = cx.bundle.slots;
            let found = check_vm_method(cx, st, recv, result, name, name_span, args, span);
            &&& name@ == "table"@ ==> found == perform_alone(cx, st, slots.vm_table, recv, name, args, Ty::PolicyTable, span)
            &&& name@ == "handles"@ ==> found == perform_alone(cx, st, slots.vm_handles, recv, name, args, Ty::ListOf(Box::new(Ty::ResourceHandle)), span)
            &&& name@ == "resource"@ ==> found == perform_with(cx, st, slots.vm_resource, recv, name, args, &Ty::FileHandle, Ty::ResourceHandle, span)
            &&& name@ == "dispatch"@ ==> found == perform_with(cx, st, slots.vm_dispatch, recv, name, args, &Ty::Request, Ty::Unit, span)
        }),
{
    lemma_vm_names();
}

/// Each other method of a loaded machine performs its own operation on it,
/// with an argument of its own type.
pub proof fn law_vm_method(cx: &Ctx, st: Checker, recv: HExpr, result: Ty, name: &Text, name_span: Span, args: &Chain<Expr>, span: Span)
    ensures
        check_vm_method(cx, st, recv, result, name, name_span, args, span).1 matches Ok(found) ==> {
            let slots = cx.bundle.slots;
            &&& name@ == "table"@ ==> performs(found, slots.vm_table, recv, Ty::PolicyTable) && count(args) == 0
            &&& name@ == "handles"@ ==> performs(found, slots.vm_handles, recv, Ty::ListOf(Box::new(Ty::ResourceHandle))) && count(args) == 0
            &&& name@ == "resource"@ ==> performs_with(cx, st, found, slots.vm_resource, recv, *args, Ty::FileHandle, Ty::ResourceHandle)
            &&& name@ == "dispatch"@ ==> performs_with(cx, st, found, slots.vm_dispatch, recv, *args, Ty::Request, Ty::Unit)
        },
{
    let slots = cx.bundle.slots;
    lemma_vm_method(cx, st, recv, result, name, name_span, args, span);
    lemma_alone(cx, st, slots.vm_table, recv, name, args, Ty::PolicyTable, span);
    lemma_alone(cx, st, slots.vm_handles, recv, name, args, Ty::ListOf(Box::new(Ty::ResourceHandle)), span);
    lemma_with(cx, st, slots.vm_resource, recv, name, args, &Ty::FileHandle, Ty::ResourceHandle, span);
    lemma_with(cx, st, slots.vm_dispatch, recv, name, args, &Ty::Request, Ty::Unit, span);
}

/// The methods that run a machine perform the operation of their name.
pub proof fn law_vm_run(cx: &Ctx, st: Checker, recv: HExpr, result: Ty, name: &Text, name_span: Span, args: &Chain<Expr>, span: Span)
    ensures
        check_vm_run(cx, st, recv, result, name, name_span, args, span).1 matches Ok(found) ==> {
            let slots = cx.bundle.slots;
            ||| name@ == "run"@ && performs(found, slots.vm_run, recv, found.ty)
            ||| name@ == "step"@ && performs(found, slots.vm_step, recv, found.ty)
            ||| name@ == "drive"@ && performs(found, slots.vm_drive, recv, found.ty)
            ||| name@ == "drive_wait"@ && performs(found, slots.vm_drive_wait, recv, found.ty)
            ||| name@ == "drive_for"@ && performs(found, slots.vm_drive_for, recv, found.ty)
            ||| name@ == "snapshot"@ && performs(found, slots.vm_snapshot_held, recv, found.ty)
            ||| name@ == "snapshot_wait"@ && performs(found, slots.vm_snapshot_wait_held, recv, found.ty)
        },
{
    if let Ok(found) = check_vm_run(cx, st, recv, result, name, name_span, args, span).1 {
        let slots = cx.bundle.slots;
        lemma_alone(cx, st, slots.vm_run, recv, name, args, found.ty, span);
        lemma_alone(cx, st, slots.vm_step, recv, name, args, found.ty, span);
        lemma_alone(cx, st, slots.vm_drive, recv, name, args, found.ty, span);
        lemma_alone(cx, st, slots.vm_drive_wait, recv, name, args, found.ty, span);
        lemma_alone(cx, st, slots.vm_snapshot_held, recv, name, args, found.ty, span);
        lemma_with(cx, st, slots.vm_drive_for, recv, name, args, &Ty::Int, found.ty, span);
        lemma_with(cx, st, slots.vm_snapshot_wait_held, recv, name, args, &Ty::Int, found.ty, span);
        lemma_run_type(cx, st, recv, result, name, name_span, args, span);
    }
}

proof fn lemma_run_type(cx: &Ctx, st: Checker, recv: HExpr, result: Ty, name: &Text, name_span: Span, args: &Chain<Expr>, span: Span)
    ensures
        check_vm_run(cx, st, recv, result, name, name_span, args, span).1 matches Ok(found) ==> {
            let slots = cx.bundle.slots;
            let ty = found.ty;
            let made = Ok::<HExpr, Stop>(found);
            ||| name@ == "run"@ && perform_alone(cx, st, slots.vm_run, recv, name, args, ty, span).1 == made
            ||| name@ == "step"@ && perform_alone(cx, st, slots.vm_step, recv, name, args, ty, span).1 == made
            ||| name@ == "drive"@ && perform_alone(cx, st, slots.vm_drive, recv, name, args, ty, span).1 == made
            ||| name@ == "drive_wait"@ && perform_alone(cx, st, slots.vm_drive_wait, recv, name, args, ty, span).1 == made
            ||| name@ == "snapshot"@ && perform_alone(cx, st, slots.vm_snapshot_held, recv, name, args, ty, span).1 == made
            ||| name@ == "drive_for"@ && perform_with(cx, st, slots.vm_drive_for, recv, name, args, &Ty::Int, ty, span).1 == made
            ||| name@ == "snapshot_wait"@ && perform_with(cx, st, slots.vm_snapshot_wait_held, recv, name, args, &Ty::Int, ty, span).1 == made
        },
{
}

/// The methods of a resource perform the operation of their name.
pub proof fn law_resource_method(cx: &Ctx, st: Checker, recv: HExpr, name: &Text, name_span: Span, args: &Chain<Expr>, span: Span)
    ensures
        check_resource_method(cx, st, recv, name, name_span, args, span).1 matches Ok(found) ==> {
            let slots = cx.bundle.slots;
            ||| name@ == "is_open"@ && performs(found, slots.vm_resource_is_open, recv, Ty::Bool)
            ||| name@ == "close"@ && performs(found, slots.vm_resource_close, recv, Ty::Bool)
            ||| name@ == "kind"@ && performs(found, slots.vm_resource_kind, recv, Ty::Str)
            ||| name@ == "same_resource"@ && performs(found, slots.vm_resource_same, recv, Ty::Bool)
        },
{
    let slots = cx.bundle.slots;
    lemma_alone(cx, st, slots.vm_resource_is_open, recv, name, args, Ty::Bool, span);
    lemma_alone(cx, st, slots.vm_resource_close, recv, name, args, Ty::Bool, span);
    lemma_alone(cx, st, slots.vm_resource_kind, recv, name, args, Ty::Str, span);
    lemma_with(cx, st, slots.vm_resource_same, recv, name, args, &Ty::ResourceHandle, Ty::Bool, span);
}

/// A wait gives its result, and its other methods perform the operation of
/// their name.
pub proof fn law_wait_method(cx: &Ctx, st: Checker, recv: HExpr, result: Ty, name: &Text, name_span: Span, args: &Chain<Expr>, span: Span)
    requires
        name@ != "choose"@,
    ensures
        check_wait_method(cx, st, recv, result, name, name_span, args, span).1 matches Ok(found) ==> {
            let slots = cx.bundle.slots;
            ||| name@ == "wait"@ && performs(found, slots.wait_wait, recv, result)
            ||| name@ == "cancel"@ && performs(found, slots.wait_cancel, recv, Ty::Bool)
        },
{
    let slots = cx.bundle.slots;
    lemma_alone(cx, st, slots.wait_wait, recv, name, args, result, span);
    lemma_alone(cx, st, slots.wait_cancel, recv, name, args, Ty::Bool, span);
}

/// Choosing takes a second wait, and gives one of the two results.
pub proof fn law_choose(cx: &Ctx, st: Checker, recv: HExpr, left: Ty, name: &Text, args: &Chain<Expr>, span: Span)
    ensures
        check_choose(cx, st, recv, left, name, args, span).1 matches Ok(found) ==> {
            &&& *found.kind matches HKind::Perform { op, args: handed }
            &&& op == cx.bundle.slots.wait_choose
            &&& handed@.len() == 2
            &&& handed@[0] == recv
            &&& handed@[1].ty matches Ty::Wait(right)
            &&& found.ty matches Ty::Wait(choice)
            &&& core_inst(cx, "Choice", two(left, *right), span) == Ok::<Ty, Stop>(*choice)
        },
{
    if let Ok(right) = synth_first(cx, st, args, span).1 {
        lemma_two(recv, right);
    }
}

/// A message is sent to a process of a mailbox alone, and is one that the
/// mailbox takes.
pub proof fn law_send(
    cx: &Ctx,
    st: Checker,
    recv: HExpr,
    mailbox: Ty,
    result: Ty,
    name: &Text,
    name_span: Span,
    args: &Chain<Expr>,
    span: Span,
)
    requires
        name@ == "send"@,
    ensures
        check_handle_method(cx, st, recv, mailbox, result, name, name_span, args, span).1 matches Ok(found) ==> {
            &&& mailbox != Ty::Never
            &&& performs(found, cx.bundle.slots.proc_send, recv, found.ty)
            &&& *args matches Chain::Cons(first, _)
            &&& *found.kind matches HKind::Perform { args: handed, .. }
            &&& checking(cx, st, &*first, &mailbox).1 == Ok::<HExpr, Stop>(handed@[1])
        },
{
    if let Ok(found) = check_handle_method(cx, st, recv, mailbox, result, name, name_span, args, span).1 {
        lemma_with(cx, st, cx.bundle.slots.proc_send, recv, name, args, &mailbox, found.ty, span);
        let ty = core_class(cx, "SendResult", span)->Ok_0;
        law_perform_with_type(cx, st, recv, name, args, &mailbox, ty, span);
    }
}

proof fn law_perform_with_type(cx: &Ctx, st: Checker, recv: HExpr, name: &Text, args: &Chain<Expr>, param: &Ty, ty: Ty, span: Span)
    ensures
        perform_with(cx, st, cx.bundle.slots.proc_send, recv, name, args, param, ty, span).1 matches Ok(found) ==> found.ty == ty,
{
}

/// The other methods of a process handle perform the operation of their
/// name.
pub proof fn law_handle_method(
    cx: &Ctx,
    st: Checker,
    recv: HExpr,
    mailbox: Ty,
    result: Ty,
    name: &Text,
    name_span: Span,
    args: &Chain<Expr>,
    span: Span,
)
    requires
        name@ != "send"@,
    ensures
        check_handle_method(cx, st, recv, mailbox, result, name, name_span, args, span).1 matches Ok(found) ==> {
            let slots = cx.bundle.slots;
            let ty = found.ty;
            let made = Ok::<HExpr, Stop>(found);
            ||| name@ == "close"@ && perform_alone(cx, st, slots.proc_close, recv, name, args, ty, span).1 == made
            ||| name@ == "done"@ && perform_alone(cx, st, slots.proc_done, recv, name, args, ty, span).1 == made
            ||| name@ == "pause"@ && perform_alone(cx, st, slots.proc_pause, recv, name, args, ty, span).1 == made
            ||| name@ == "resume"@ && perform_alone(cx, st, slots.proc_resume, recv, name, args, ty, span).1 == made
            ||| name@ == "snapshot_wait"@ && perform_with(cx, st, slots.proc_snapshot_wait, recv, name, args, &Ty::Int, ty, span).1 == made
        },
{
}

/// An edit of a policy table does what its name says to the target that it
/// names, and a grant needs the row of the target.
pub proof fn law_table_edit(cx: &Ctx, st: Checker, table: HExpr, name: &Text, name_span: Span, args: &Chain<Expr>, span: Span)
    ensures
        check_table_edit(cx, st, table, name, name_span, args, span).1 matches Ok(found) ==> {
            &&& found.ty == Ty::Unit
            &&& *found.kind matches HKind::TableEdit { action, target, entry, table: kept, mock }
            &&& kept == table
            &&& action == TableAction::Pass <==> name@ == "pass"@
            &&& action == TableAction::Block <==> name@ == "block"@
            &&& action == TableAction::Mock <==> name@ == "mock"@
            &&& action == TableAction::Clear <==> name@ == "clear"@
            &&& first_target(cx, args, span) matches Ok(named)
            &&& target == named.kind
            &&& entry == named.slot
            &&& mock is Some ==> action == TableAction::Mock && target == TargetKind::Exact
        },
{
    reveal_strlit("pass");
    reveal_strlit("block");
    reveal_strlit("mock");
    reveal_strlit("clear");
    assert("pass"@ != "block"@ && "pass"@ != "mock"@ && "pass"@ != "clear"@) by {
        assert("pass"@[0] != "block"@[0]);
        assert("pass"@[0] != "mock"@[0]);
        assert("pass"@[0] != "clear"@[0]);
    }
    assert("block"@ != "mock"@ && "block"@ != "clear"@ && "mock"@ != "clear"@) by {
        assert("block"@[0] != "mock"@[0]);
        assert("block"@[0] != "clear"@[0]);
        assert("mock"@[0] != "clear"@[0]);
    }
}

/// A spawned class inherits the process class, runs its `on_spawn` method,
/// and its handle has the mailbox of the class and the result of the body.
pub proof fn law_spawn(cx: &Ctx, st: Checker, class: u32, args: &Chain<Expr>, name_span: Span, span: Span)
    ensures
        check_spawn(cx, st, class, args, name_span, span).1 matches Ok(found) ==> {
            &&& spawn_mailbox(cx, class, name_span) matches Ok(mailbox)
            &&& find_method_owner(cx, class, &chain_of("on_spawn"@)) matches Some(body)
            &&& body.sig.params is Nil
            &&& found.ty == Ty::Handle(Box::new(mailbox), Box::new(body.sig.ret))
            &&& *found.kind matches HKind::Spawn { class: kept, body: func, .. }
            &&& kept == class
            &&& func == body.sig.func
        },
{
}

/// The mailbox of a process class is the first argument of its process
/// ancestor.
pub proof fn law_spawn_mailbox(cx: &Ctx, class: u32, span: Span)
    ensures
        spawn_mailbox(cx, class, span) matches Ok(mailbox) ==> (core_id(cx, "Proc", span) matches Ok(process) && (ancestor_args(
            cx,
            class,
            Chain::Nil,
            process,
        ) matches Some(found) && found@.len() > 0 && found@[0] == mailbox)),
{
}

/// A native method that changes its receiver needs a mutable one, and an
/// element that it gives has the capability of the collection.
pub proof fn law_native_method(cx: &Ctx, st: Checker, recv: HExpr, name: &Text, name_span: Span, args: &Chain<Expr>, span: Span)
    requires
        recv.ty != Ty::FileHandle,
        native_method(cx, &recv.ty, name) matches Ok(Some(_)),
    ensures
        check_native_method(cx, st, recv, name, name_span, args, span).1 matches Ok(found) ==> {
            let native = native_method(cx, &recv.ty, name)->Ok_0->Some_0;
            &&& native.needs_mut ==> recv.mutable
            &&& found.ty == native.ret
            &&& *found.kind matches HKind::Native { op, args: handed }
            &&& op == native.op
            &&& handed@.len() > 0
            &&& handed@[0] == recv
            &&& reads_element(native.op) ==> found.mutable == recv.mutable
        },
{
}

} // verus!
