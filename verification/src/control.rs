//! Operation calls and the native methods of the machine surface.

use vstd::prelude::*;
use crate::abi::ControlSlots;
use crate::answers::is_heap;
use crate::ast::{Expr, Span, TypeExpr};
use crate::calls::{arg_span, check_args_simple, check_first, check_nth, class_signature, placed, synth_first, synth_nth};
use crate::chain::Chain;
use crate::conform::find_method_owner;
use crate::context::{Ctx, MethodFound};
use crate::hir::{HExpr, HKind, TableAction, TargetKind};
use crate::infer::arrange_args;
use crate::lists::{cons, falses, nth, one, skip, three, two};
use crate::lookup::{ancestor_args, class_at, core_class, core_id, core_inst};
use crate::problem::{Problem, Stop};
use crate::resolve::{named, unnamed};
use crate::scope::{charge_row, hexpr, synth_self};
use crate::state::{Checker, Target};
use crate::system::{charge_op, digest_expr, expect_arg_count, expect_no_args, file_names, file_op, freeze_expr, is_control_type, native_method, op_args_type, op_at, op_fn_type, op_params, op_reply, packed, perform, proc_mailbox_type, reads_element, resolve_descriptor, resolve_sys_member, result_of, table_action};
use crate::text::{Text, is_text, text};
use crate::types::{RowElem, Ty, same_ty};
use crate::model::heights::h_exprs;
use crate::model::sound::{expr_ok, grant_covered, names_target, opt_expr_ok, room, spawn_covered, step};
use crate::model::keeps::kept;
use crate::model;

verus! {

broadcast use {crate::model::keeps::group_kept, crate::model::sound::group_sound};

/// The slots of the operations that the language names itself.
pub fn slots(cx: &Ctx) -> (r: ControlSlots)
    ensures
        r == model::control::slots(cx),
{
    cx.bundle.slots
}

/// Perform an operation on a receiver alone.
pub fn perform_alone(
    cx: &Ctx,
    st: Checker,
    op: u32,
    recv: HExpr,
    name: &Text,
    args: &Chain<Expr>,
    ty: Ty,
    span: Span,
) -> (r: (Checker, Result<HExpr, Stop>))
    ensures
        r == model::control::perform_alone(cx, st, op, recv, name, args, ty, span),
        kept(st, r.0),
        step(cx, st, r.0, expr_ok(room(cx, st), recv), (r.1 matches Ok(found) ==> expr_ok(room(cx, r.0), found))),
{
    let _none = match expect_no_args(name, args, span) {
        Ok(found) => found,
        Err(stop) => {
            return (st, Err(stop));
        },
    };
    perform(cx, st, op, one(recv), ty, span)
}

/// Perform an operation on a receiver and one argument of a given type.
pub fn perform_with(
    cx: &Ctx,
    st: Checker,
    op: u32,
    recv: HExpr,
    name: &Text,
    args: &Chain<Expr>,
    param: &Ty,
    ty: Ty,
    span: Span,
) -> (r: (Checker, Result<HExpr, Stop>))
    ensures
        r == model::control::perform_with(cx, st, op, recv, name, args, param, ty, span),
        kept(st, r.0),
        step(cx, st, r.0, expr_ok(room(cx, st), recv), (r.1 matches Ok(found) ==> expr_ok(room(cx, r.0), found))),
    decreases h_exprs(args), 1int, Chain::<u32>::Nil,
{
    let _one = match expect_arg_count(name, args, 1u32, span) {
        Ok(found) => found,
        Err(stop) => {
            return (st, Err(stop));
        },
    };
    let (st, out) = check_first(cx, st, args, param, span);
    let value = match out {
        Ok(found) => found,
        Err(stop) => {
            return (st, Err(stop));
        },
    };
    perform(cx, st, op, two(recv, value), ty, span)
}

/// Check `sys.proc.recv()` and `sys.proc.recv_wait()`: the mailbox type
/// comes from the enclosing proc class.
pub fn check_receive(
    cx: &Ctx,
    st: Checker,
    member: &Text,
    name_span: Span,
    args: &Chain<Expr>,
    span: Span,
) -> (r: (Checker, Result<HExpr, Stop>))
    ensures
        r == model::control::check_receive(cx, st, member, name_span, args, span),
        kept(st, r.0),
        step(cx, st, r.0, true, (r.1 matches Ok(found) ==> expr_ok(room(cx, r.0), found))),
{
    let _none = match expect_no_args(member, args, span) {
        Ok(found) => found,
        Err(stop) => {
            return (st, Err(stop));
        },
    };
    let mailbox = match proc_mailbox_type(cx, &st) {
        Some(found) => found,
        None => {
            return (st, Err(named(Problem::RecvOutsideProc, member, name_span)));
        },
    };
    let (st, out) = synth_self(st, span);
    let receiver = match out {
        Ok(found) => found,
        Err(stop) => {
            return (st, Err(stop));
        },
    };
    let received = match core_inst(cx, "Recv", one(mailbox), span) {
        Ok(found) => found,
        Err(stop) => {
            return (st, Err(stop));
        },
    };
    if is_text(&*member, "recv") {
        perform(cx, st, slots(cx).proc_recv, one(receiver), received, span)
    } else {
        perform(cx, st, slots(cx).proc_recv_wait, one(receiver), Ty::Wait(Box::new(received)), span)
    }
}

/// Check `sys.proc.run(vm)`: it hands one loaded machine to the
/// scheduler.
pub fn check_proc_run(cx: &Ctx, st: Checker, member: &Text, args: &Chain<Expr>, span: Span) -> (r: (Checker, Result<HExpr, Stop>))
    ensures
        r == model::control::check_proc_run(cx, st, member, args, span),
        kept(st, r.0),
        step(cx, st, r.0, true, (r.1 matches Ok(found) ==> expr_ok(room(cx, r.0), found))),
    decreases h_exprs(args), 1int, Chain::<u32>::Nil,
{
    let _one = match expect_arg_count(member, args, 1u32, span) {
        Ok(found) => found,
        Err(stop) => {
            return (st, Err(stop));
        },
    };
    let (st, out) = synth_first(cx, st, args, span);
    let vm = match out {
        Ok(found) => found,
        Err(stop) => {
            return (st, Err(stop));
        },
    };
    match vm.ty.clone() {
        Ty::Vm(result) => perform(cx, st, slots(cx).proc_run, one(vm), Ty::Handle(Box::new(Ty::Never), result), span),
        found => (st, Err(unnamed(Problem::RunNeedsMachine { found: found }, raw_span(args, span)))),
    }
}

/// Where the first argument stands, its label included.
pub fn raw_span(args: &Chain<Expr>, span: Span) -> (r: Span)
    ensures
        r == model::control::raw_span(args, span),
{
    match nth(args, 0u32) {
        Some(arg) => arg.span,
        None => span,
    }
}

/// Check a direct operation call `sys.<group>.<member>(args)`.
pub fn check_sys_call(
    cx: &Ctx,
    st: Checker,
    group: &Text,
    member: &Text,
    name_span: Span,
    type_args: &Chain<TypeExpr>,
    args: &Chain<Expr>,
    span: Span,
) -> (r: (Checker, Result<HExpr, Stop>))
    ensures
        r == model::control::check_sys_call(cx, st, group, member, name_span, type_args, args, span),
        kept(st, r.0),
        step(cx, st, r.0, true, (r.1 matches Ok(found) ==> expr_ok(room(cx, r.0), found))),
    decreases h_exprs(args), 5int, Chain::<u32>::Nil,
{
    if !type_args.is_empty() {
        return (st, Err(unnamed(Problem::OperationTakesNoTypeArguments, name_span)));
    }
    if is_text(&*group, "Vm") && is_text(&*member, "Vm") {
        let _none = match expect_no_args(member, args, span) {
            Ok(found) => found,
            Err(stop) => {
                return (st, Err(stop));
            },
        };
        perform(cx, st, slots(cx).vm_new, Chain::Nil, Ty::EmptyVm, span)
    } else if is_text(&*group, "Vm") && is_text(&*member, "snapshot_self") {
        let _none = match expect_no_args(member, args, span) {
            Ok(found) => found,
            Err(stop) => {
                return (st, Err(stop));
            },
        };
        let ty = match result_of(cx, Ty::SnapshotImage, "SnapshotError", span) {
            Ok(found) => found,
            Err(stop) => {
                return (st, Err(stop));
            },
        };
        perform(cx, st, slots(cx).vm_snapshot_self, Chain::Nil, ty, span)
    } else if is_text(&*group, "Proc") && (is_text(&*member, "recv") || is_text(&*member, "recv_wait")) {
        check_receive(cx, st, member, name_span, args, span)
    } else if is_text(&*group, "Proc") && is_text(&*member, "run") {
        check_proc_run(cx, st, member, args, span)
    } else {
        let op = match resolve_sys_member(cx, group, member, name_span) {
            Ok(found) => found,
            Err(stop) => {
                return (st, Err(stop));
            },
        };
        let params = match op_params(cx, op, span) {
            Ok(found) => found,
            Err(stop) => {
                return (st, Err(stop));
            },
        };
        let (st, out) = check_args_simple(cx, st, args, &params, &falses(&params), &Chain::Nil, member, span);
        let checked = match out {
            Ok(found) => found,
            Err(stop) => {
                return (st, Err(stop));
            },
        };
        let reply = match op_reply(cx, op, span) {
            Ok(found) => found,
            Err(stop) => {
                return (st, Err(stop));
            },
        };
        perform(cx, st, op, checked, reply, span)
    }
}

/// Check `Fault.denied(reason)`, the one fault that a program can build.
pub fn check_fault_denied(
    cx: &Ctx,
    st: Checker,
    name: &Text,
    name_span: Span,
    type_args: &Chain<TypeExpr>,
    args: &Chain<Expr>,
    span: Span,
) -> (r: (Checker, Result<HExpr, Stop>))
    ensures
        r == model::control::check_fault_denied(cx, st, name, name_span, type_args, args, span),
        kept(st, r.0),
        step(cx, st, r.0, true, (r.1 matches Ok(found) ==> expr_ok(room(cx, r.0), found))),
    decreases h_exprs(args), 4int, Chain::<u32>::Nil,
{
    if !is_text(&*name, "denied") {
        return (st, Err(named(Problem::NoFaultConstructor, name, name_span)));
    }
    if !type_args.is_empty() {
        return (st, Err(unnamed(Problem::DeniedTakesNoTypeArguments, name_span)));
    }
    let _one = match expect_arg_count(name, args, 1u32, span) {
        Ok(found) => found,
        Err(stop) => {
            return (st, Err(stop));
        },
    };
    let order = match arrange_args(args, &one(text("reason"))) {
        Ok(found) => found,
        Err(stop) => {
            return (st, Err(stop));
        },
    };
    let (st, out) = check_nth(cx, st, args, placed(&order, 0u32), &Ty::Str, span);
    let reason = match out {
        Ok(found) => found,
        Err(stop) => {
            return (st, Err(stop));
        },
    };
    (st, Ok(hexpr(Ty::Fault, true, HKind::FaultDenied(reason))))
}

/// The body of a proc class: a method `on_spawn` that takes `self` only.
pub fn spawn_body(cx: &Ctx, class: u32, span: Span) -> (r: Result<MethodFound, Stop>)
    ensures
        r == model::control::spawn_body(cx, class, span),
{
    let name = &class_at(cx, class).name;
    match find_method_owner(cx, class, &text("on_spawn")) {
        None => Err(named(Problem::NoOnSpawn, name, span)),
        Some(found) => {
            if !found.sig.params.is_empty() || !found.sig.own_type_params.is_empty() || !found.sig.own_effect_params.is_empty() || !found.owner_args.is_empty() {
                Err(named(Problem::OnSpawnShape, name, span))
            } else {
                Ok(found)
            }
        },
    }
}

/// The mailbox type of a proc class.
pub fn spawn_mailbox(cx: &Ctx, class: u32, span: Span) -> (r: Result<Ty, Stop>)
    ensures
        r == model::control::spawn_mailbox(cx, class, span),
{
    let proc_class = match core_id(cx, "Proc", span) {
        Ok(found) => found,
        Err(stop) => {
            return Err(stop);
        },
    };
    match ancestor_args(cx, class, Chain::Nil, proc_class) {
        Some(Chain::Cons(first, _)) => Ok(*first),
        _ => Err(named(Problem::SpawnNeedsProc, &class_at(cx, class).name, span)),
    }
}

/// Check `Class.spawn(args...)`. The class inherits `Proc[M]` and
/// declares `on_spawn`; the result is `Handle[M, R]`, where `R` is the
/// result of `on_spawn`. The spawner is charged the row of the body.
pub fn check_spawn(
    cx: &Ctx,
    st: Checker,
    class: u32,
    args: &Chain<Expr>,
    name_span: Span,
    span: Span,
) -> (r: (Checker, Result<HExpr, Stop>))
    ensures
        r == model::control::check_spawn(cx, st, class, args, name_span, span),
        kept(st, r.0),
        step(cx, st, r.0, true, (r.1 matches Ok(found) ==> expr_ok(room(cx, r.0), found))),
    decreases h_exprs(args), 4int, Chain::<u32>::Nil,
{
    proof {
        reveal(spawn_covered);
    }
    let mailbox = match spawn_mailbox(cx, class, name_span) {
        Ok(found) => found,
        Err(stop) => {
            return (st, Err(stop));
        },
    };
    let body = match spawn_body(cx, class, name_span) {
        Ok(found) => found,
        Err(stop) => {
            return (st, Err(stop));
        },
    };
    let sig = class_signature(class_at(cx, class));
    let (st, out) = check_args_simple(cx, st, args, &sig.params, &sig.muts, &sig.names, &text("spawn"), span);
    let checked = match out {
        Ok(found) => found,
        Err(stop) => {
            return (st, Err(stop));
        },
    };
    let (st, out) = charge_op(cx, st, slots(cx).proc_spawn, span);
    let _operation = match out {
        Ok(found) => found,
        Err(stop) => {
            return (st, Err(stop));
        },
    };
    let (st, out) = charge_row(cx, st, &body.sig.row, span);
    let _body = match out {
        Ok(found) => found,
        Err(stop) => {
            return (st, Err(stop));
        },
    };
    let ctor_ty = Ty::Fn(sig.params, sig.muts, Box::new(Ty::Class(class)), sig.row);
    let result = body.sig.ret.clone();
    let body_ty = Ty::Fn(one(Ty::Class(body.owner)), one(body.sig.mut_self), Box::new(body.sig.ret), body.sig.row);
    (st, Ok(hexpr(Ty::Handle(Box::new(mailbox), Box::new(result)), true, HKind::Spawn { class: class, body: body.sig.func, ctor_ty: ctor_ty, body_ty: body_ty, args: checked })))
}

/// Check the handler of a mocked operation.
pub fn check_mock(
    cx: &Ctx,
    st: Checker,
    action: TableAction,
    target: Target,
    args: &Chain<Expr>,
    span: Span,
) -> (r: (Checker, Result<Option<HExpr>, Stop>))
    ensures
        r == model::control::check_mock(cx, st, action, target, args, span),
        kept(st, r.0),
        step(cx, st, r.0, true, (r.1 matches Ok(found) ==> opt_expr_ok(room(cx, r.0), found))),
    decreases h_exprs(args), 2int, Chain::<u32>::Nil,
{
    if action != TableAction::Mock {
        return (st, Ok(None));
    }
    let def = match op_at(cx, target.slot, span) {
        Ok(found) => found,
        Err(stop) => {
            return (st, Err(stop));
        },
    };
    if target.kind != TargetKind::Exact || !def.fixed {
        return (st, Err(unnamed(Problem::MockNeedsOperation, raw_span(args, span))));
    }
    let handler_ty = match op_fn_type(cx, target.slot, span) {
        Ok(found) => found,
        Err(stop) => {
            return (st, Err(stop));
        },
    };
    match args {
        Chain::Nil => (st, Ok(None)),
        Chain::Cons(_, rest) => {
            let (st, out) = check_first(cx, st, rest, &handler_ty, span);
            let handler = match out {
                Ok(found) => found,
                Err(stop) => {
                    return (st, Err(stop));
                },
            };
            (st, Ok(Some(handler)))
        },
    }
}

/// Resolve the policy target that an edit names first.
pub fn first_target(cx: &Ctx, args: &Chain<Expr>, span: Span) -> (r: Result<Target, Stop>)
    ensures
        r == model::control::first_target(cx, args, span),
        r matches Ok(target) ==> names_target(cx, target),
{
    match nth(args, 0u32) {
        Some(arg) => resolve_descriptor(cx, arg),
        None => Err(unnamed(Problem::TargetShape, span)),
    }
}

/// Check a policy-table edit. Passing authority is charged to the row of
/// the granter.
pub fn check_table_edit(
    cx: &Ctx,
    st: Checker,
    table: HExpr,
    name: &Text,
    name_span: Span,
    args: &Chain<Expr>,
    span: Span,
) -> (r: (Checker, Result<HExpr, Stop>))
    ensures
        r == model::control::check_table_edit(cx, st, table, name, name_span, args, span),
        kept(st, r.0),
        step(cx, st, r.0, expr_ok(room(cx, st), table), (r.1 matches Ok(found) ==> expr_ok(room(cx, r.0), found))),
    decreases h_exprs(args), 5int, Chain::<u32>::Nil,
{
    proof {
        reveal(grant_covered);
    }
    let action = match table_action(name) {
        Some(found) => found,
        None => {
            return (st, Err(named(Problem::NoTableMethod, name, name_span)));
        },
    };
    let _count = match expect_arg_count(name, args, if action == TableAction::Mock { 2u32 } else { 1u32 }, span) {
        Ok(found) => found,
        Err(stop) => {
            return (st, Err(stop));
        },
    };
    let target = match first_target(cx, args, span) {
        Ok(found) => found,
        Err(stop) => {
            return (st, Err(stop));
        },
    };
    let (st, out) = check_mock(cx, st, action, target, args, span);
    let mock = match out {
        Ok(found) => found,
        Err(stop) => {
            return (st, Err(stop));
        },
    };
    let kind = HKind::TableEdit { action: action, target: target.kind, entry: target.slot, table: table, mock: mock };
    if action == TableAction::Pass {
        proof {
            assert(names_target(cx, (Target { kind: target.kind, slot: target.slot, row: target.row })));
        }
        let (st, out) = charge_row(cx, st, &one(RowElem::Op(target.row)), span);
        let _granted = match out {
            Ok(found) => found,
            Err(stop) => {
                return (st, Err(stop));
            },
        };
        (st, Ok(hexpr(Ty::Unit, true, kind)))
    } else {
        (st, Ok(hexpr(Ty::Unit, true, kind)))
    }
}

/// The problem of a control method that a type lacks.
pub fn no_control_method(ty: &Ty, name: &Text, span: Span) -> (r: Stop)
    ensures
        r == model::control::no_control_method(ty, name, span),
{
    named(Problem::TypeHasNoMethod { ty: (*ty).clone() }, name, span)
}

/// Check `from_fn(program, args)`: the parameters of the program fix the
/// type of its arguments.
pub fn check_from_fn(
    cx: &Ctx,
    st: Checker,
    recv: HExpr,
    name: &Text,
    args: &Chain<Expr>,
    span: Span,
) -> (r: (Checker, Result<HExpr, Stop>))
    ensures
        r == model::control::check_from_fn(cx, st, recv, name, args, span),
        kept(st, r.0),
        step(cx, st, r.0, expr_ok(room(cx, st), recv), (r.1 matches Ok(found) ==> expr_ok(room(cx, r.0), found))),
    decreases h_exprs(args), 5int, Chain::<u32>::Nil,
{
    let _two = match expect_arg_count(name, args, 2u32, span) {
        Ok(found) => found,
        Err(stop) => {
            return (st, Err(stop));
        },
    };
    let order = match arrange_args(args, &two(text("program"), text("args"))) {
        Ok(found) => found,
        Err(stop) => {
            return (st, Err(stop));
        },
    };
    let first = placed(&order, 0u32);
    let (st, out) = synth_nth(cx, st, args, first, span);
    let program = match out {
        Ok(found) => found,
        Err(stop) => {
            return (st, Err(stop));
        },
    };
    match program.ty.clone() {
        Ty::Fn(params, _, ret, _) => {
            let (st, out) = check_nth(cx, st, args, placed(&order, 1u32), &packed(params), span);
            let tuple = match out {
                Ok(found) => found,
                Err(stop) => {
                    return (st, Err(stop));
                },
            };
            perform(cx, st, slots(cx).vm_from_fn, three(recv, program, tuple), Ty::Vm(ret), span)
        },
        found => (st, Err(unnamed(Problem::FromFnNeedsFunction { found: found }, arg_span(args, first, span)))),
    }
}

/// Check `restore(snapshot)`.
pub fn check_restore(
    cx: &Ctx,
    st: Checker,
    recv: HExpr,
    name: &Text,
    args: &Chain<Expr>,
    span: Span,
) -> (r: (Checker, Result<HExpr, Stop>))
    ensures
        r == model::control::check_restore(cx, st, recv, name, args, span),
        kept(st, r.0),
        step(cx, st, r.0, expr_ok(room(cx, st), recv), (r.1 matches Ok(found) ==> expr_ok(room(cx, r.0), found))),
    decreases h_exprs(args), 5int, Chain::<u32>::Nil,
{
    let _one = match expect_arg_count(name, args, 1u32, span) {
        Ok(found) => found,
        Err(stop) => {
            return (st, Err(stop));
        },
    };
    let (st, out) = synth_first(cx, st, args, span);
    let snapshot = match out {
        Ok(found) => found,
        Err(stop) => {
            return (st, Err(stop));
        },
    };
    match snapshot.ty.clone() {
        Ty::Snapshot(result) => {
            let ty = match result_of(cx, Ty::Vm(result), "RestoreError", span) {
                Ok(found) => found,
                Err(stop) => {
                    return (st, Err(stop));
                },
            };
            perform(cx, st, slots(cx).vm_restore, two(recv, snapshot), ty, span)
        },
        found => (st, Err(unnamed(Problem::RestoreNeedsSnapshot { found: found }, raw_span(args, span)))),
    }
}

/// The methods of an empty machine.
pub fn check_empty_vm_method(
    cx: &Ctx,
    st: Checker,
    recv: HExpr,
    name: &Text,
    name_span: Span,
    args: &Chain<Expr>,
    span: Span,
) -> (r: (Checker, Result<HExpr, Stop>))
    ensures
        r == model::control::check_empty_vm_method(cx, st, recv, name, name_span, args, span),
        kept(st, r.0),
        step(cx, st, r.0, expr_ok(room(cx, st), recv), (r.1 matches Ok(found) ==> expr_ok(room(cx, r.0), found))),
    decreases h_exprs(args), 6int, Chain::<u32>::Nil,
{
    if is_text(&*name, "from_fn") {
        check_from_fn(cx, st, recv, name, args, span)
    } else if is_text(&*name, "restore") {
        check_restore(cx, st, recv, name, args, span)
    } else {
        (st, Err(no_control_method(&Ty::EmptyVm, name, name_span)))
    }
}

/// Check `serve_file(call)`: the call is a current `Fs.Open`.
pub fn check_serve_file(
    cx: &Ctx,
    st: Checker,
    recv: HExpr,
    name: &Text,
    args: &Chain<Expr>,
    span: Span,
) -> (r: (Checker, Result<HExpr, Stop>))
    ensures
        r == model::control::check_serve_file(cx, st, recv, name, args, span),
        kept(st, r.0),
        step(cx, st, r.0, expr_ok(room(cx, st), recv), (r.1 matches Ok(found) ==> expr_ok(room(cx, r.0), found))),
    decreases h_exprs(args), 5int, Chain::<u32>::Nil,
{
    let _one = match expect_arg_count(name, args, 1u32, span) {
        Ok(found) => found,
        Err(stop) => {
            return (st, Err(stop));
        },
    };
    let (st, out) = synth_first(cx, st, args, span);
    let call = match out {
        Ok(found) => found,
        Err(stop) => {
            return (st, Err(stop));
        },
    };
    let want_args = match op_args_type(cx, slots(cx).fs_open, span) {
        Ok(found) => found,
        Err(stop) => {
            return (st, Err(stop));
        },
    };
    let want_reply = match op_reply(cx, slots(cx).fs_open, span) {
        Ok(found) => found,
        Err(stop) => {
            return (st, Err(stop));
        },
    };
    if same_ty(&call.ty, &Ty::PendingCall(Box::new(want_args), Box::new(want_reply))) {
        perform(cx, st, slots(cx).vm_serve_file, two(recv, call), Ty::ResourceHandle, span)
    } else {
        (st, Err(unnamed(Problem::ServeFileNeedsOpen, raw_span(args, span))))
    }
}

/// Check `answer(call, value)`: the call token fixes the type of the
/// value.
pub fn check_answer(
    cx: &Ctx,
    st: Checker,
    recv: HExpr,
    name: &Text,
    args: &Chain<Expr>,
    span: Span,
) -> (r: (Checker, Result<HExpr, Stop>))
    ensures
        r == model::control::check_answer(cx, st, recv, name, args, span),
        kept(st, r.0),
        step(cx, st, r.0, expr_ok(room(cx, st), recv), (r.1 matches Ok(found) ==> expr_ok(room(cx, r.0), found))),
    decreases h_exprs(args), 5int, Chain::<u32>::Nil,
{
    let _two = match expect_arg_count(name, args, 2u32, span) {
        Ok(found) => found,
        Err(stop) => {
            return (st, Err(stop));
        },
    };
    let order = match arrange_args(args, &two(text("call"), text("value"))) {
        Ok(found) => found,
        Err(stop) => {
            return (st, Err(stop));
        },
    };
    let first = placed(&order, 0u32);
    let (st, out) = synth_nth(cx, st, args, first, span);
    let call = match out {
        Ok(found) => found,
        Err(stop) => {
            return (st, Err(stop));
        },
    };
    match call.ty.clone() {
        Ty::PendingCall(_, reply) => {
            let (st, out) = check_nth(cx, st, args, placed(&order, 1u32), &reply, span);
            let value = match out {
                Ok(found) => found,
                Err(stop) => {
                    return (st, Err(stop));
                },
            };
            perform(cx, st, slots(cx).vm_answer, three(recv, call, value), Ty::Unit, span)
        },
        found => (st, Err(unnamed(Problem::AnswerNeedsCall { found: found }, arg_span(args, first, span)))),
    }
}

/// Check `reject(request, fault)`.
pub fn check_reject(
    cx: &Ctx,
    st: Checker,
    recv: HExpr,
    name: &Text,
    args: &Chain<Expr>,
    span: Span,
) -> (r: (Checker, Result<HExpr, Stop>))
    ensures
        r == model::control::check_reject(cx, st, recv, name, args, span),
        kept(st, r.0),
        step(cx, st, r.0, expr_ok(room(cx, st), recv), (r.1 matches Ok(found) ==> expr_ok(room(cx, r.0), found))),
    decreases h_exprs(args), 5int, Chain::<u32>::Nil,
{
    let _two = match expect_arg_count(name, args, 2u32, span) {
        Ok(found) => found,
        Err(stop) => {
            return (st, Err(stop));
        },
    };
    let order = match arrange_args(args, &two(text("request"), text("fault"))) {
        Ok(found) => found,
        Err(stop) => {
            return (st, Err(stop));
        },
    };
    let (st, out) = check_nth(cx, st, args, placed(&order, 0u32), &Ty::Request, span);
    let request = match out {
        Ok(found) => found,
        Err(stop) => {
            return (st, Err(stop));
        },
    };
    let (st, out) = check_nth(cx, st, args, placed(&order, 1u32), &Ty::Fault, span);
    let fault = match out {
        Ok(found) => found,
        Err(stop) => {
            return (st, Err(stop));
        },
    };
    perform(cx, st, slots(cx).vm_reject, three(recv, request, fault), Ty::Unit, span)
}

/// The methods of a loaded machine that run it.
pub fn check_vm_run(
    cx: &Ctx,
    st: Checker,
    recv: HExpr,
    result: Ty,
    name: &Text,
    name_span: Span,
    args: &Chain<Expr>,
    span: Span,
) -> (r: (Checker, Result<HExpr, Stop>))
    ensures
        r == model::control::check_vm_run(cx, st, recv, result, name, name_span, args, span),
        kept(st, r.0),
        step(cx, st, r.0, expr_ok(room(cx, st), recv), (r.1 matches Ok(found) ==> expr_ok(room(cx, r.0), found))),
    decreases h_exprs(args), 5int, Chain::<u32>::Nil,
{
    if is_text(&*name, "snapshot_wait") {
        let ty = match result_of(cx, Ty::Snapshot(Box::new(result)), "SnapshotError", span) {
            Ok(found) => found,
            Err(stop) => {
                return (st, Err(stop));
            },
        };
        perform_with(cx, st, slots(cx).vm_snapshot_wait_held, recv, name, args, &Ty::Int, ty, span)
    } else if is_text(&*name, "drive_for") {
        let event = match core_inst(cx, "DriveEvent", one(result), span) {
            Ok(found) => found,
            Err(stop) => {
                return (st, Err(stop));
            },
        };
        let ty = match core_inst(cx, "Option", one(event), span) {
            Ok(found) => found,
            Err(stop) => {
                return (st, Err(stop));
            },
        };
        perform_with(cx, st, slots(cx).vm_drive_for, recv, name, args, &Ty::Int, ty, span)
    } else if is_text(&*name, "run") {
        let ty = match core_inst(cx, "RunResult", one(result), span) {
            Ok(found) => found,
            Err(stop) => {
                return (st, Err(stop));
            },
        };
        perform_alone(cx, st, slots(cx).vm_run, recv, name, args, ty, span)
    } else if is_text(&*name, "step") {
        let ty = match core_inst(cx, "StepEvent", one(result), span) {
            Ok(found) => found,
            Err(stop) => {
                return (st, Err(stop));
            },
        };
        perform_alone(cx, st, slots(cx).vm_step, recv, name, args, ty, span)
    } else if is_text(&*name, "drive") {
        let ty = match core_inst(cx, "DriveEvent", one(result), span) {
            Ok(found) => found,
            Err(stop) => {
                return (st, Err(stop));
            },
        };
        perform_alone(cx, st, slots(cx).vm_drive, recv, name, args, ty, span)
    } else if is_text(&*name, "drive_wait") {
        let event = match core_inst(cx, "DriveEvent", one(result), span) {
            Ok(found) => found,
            Err(stop) => {
                return (st, Err(stop));
            },
        };
        perform_alone(cx, st, slots(cx).vm_drive_wait, recv, name, args, Ty::Wait(Box::new(event)), span)
    } else if is_text(&*name, "snapshot") {
        let ty = match result_of(cx, Ty::Snapshot(Box::new(result)), "SnapshotError", span) {
            Ok(found) => found,
            Err(stop) => {
                return (st, Err(stop));
            },
        };
        perform_alone(cx, st, slots(cx).vm_snapshot_held, recv, name, args, ty, span)
    } else {
        (st, Err(no_control_method(&Ty::Vm(Box::new(result)), name, name_span)))
    }
}

/// The methods of a loaded machine.
pub fn check_vm_method(
    cx: &Ctx,
    st: Checker,
    recv: HExpr,
    result: Ty,
    name: &Text,
    name_span: Span,
    args: &Chain<Expr>,
    span: Span,
) -> (r: (Checker, Result<HExpr, Stop>))
    ensures
        r == model::control::check_vm_method(cx, st, recv, result, name, name_span, args, span),
        kept(st, r.0),
        step(cx, st, r.0, expr_ok(room(cx, st), recv), (r.1 matches Ok(found) ==> expr_ok(room(cx, r.0), found))),
    decreases h_exprs(args), 6int, Chain::<u32>::Nil,
{
    if is_text(&*name, "table") {
        perform_alone(cx, st, slots(cx).vm_table, recv, name, args, Ty::PolicyTable, span)
    } else if is_text(&*name, "handles") {
        perform_alone(cx, st, slots(cx).vm_handles, recv, name, args, Ty::ListOf(Box::new(Ty::ResourceHandle)), span)
    } else if is_text(&*name, "resource") {
        perform_with(cx, st, slots(cx).vm_resource, recv, name, args, &Ty::FileHandle, Ty::ResourceHandle, span)
    } else if is_text(&*name, "serve_file") {
        check_serve_file(cx, st, recv, name, args, span)
    } else if is_text(&*name, "answer") {
        check_answer(cx, st, recv, name, args, span)
    } else if is_text(&*name, "reject") {
        check_reject(cx, st, recv, name, args, span)
    } else if is_text(&*name, "dispatch") {
        perform_with(cx, st, slots(cx).vm_dispatch, recv, name, args, &Ty::Request, Ty::Unit, span)
    } else {
        check_vm_run(cx, st, recv, result, name, name_span, args, span)
    }
}

/// Check `choose(wait)`: the first of two waits.
pub fn check_choose(
    cx: &Ctx,
    st: Checker,
    recv: HExpr,
    left: Ty,
    name: &Text,
    args: &Chain<Expr>,
    span: Span,
) -> (r: (Checker, Result<HExpr, Stop>))
    ensures
        r == model::control::check_choose(cx, st, recv, left, name, args, span),
        kept(st, r.0),
        step(cx, st, r.0, expr_ok(room(cx, st), recv), (r.1 matches Ok(found) ==> expr_ok(room(cx, r.0), found))),
    decreases h_exprs(args), 5int, Chain::<u32>::Nil,
{
    let _one = match expect_arg_count(name, args, 1u32, span) {
        Ok(found) => found,
        Err(stop) => {
            return (st, Err(stop));
        },
    };
    let (st, out) = synth_first(cx, st, args, span);
    let right = match out {
        Ok(found) => found,
        Err(stop) => {
            return (st, Err(stop));
        },
    };
    match right.ty.clone() {
        Ty::Wait(result) => {
            let choice = match core_inst(cx, "Choice", two(left, *result), span) {
                Ok(found) => found,
                Err(stop) => {
                    return (st, Err(stop));
                },
            };
            perform(cx, st, slots(cx).wait_choose, two(recv, right), Ty::Wait(Box::new(choice)), span)
        },
        found => (st, Err(unnamed(Problem::ChooseNeedsWait { found: found }, raw_span(args, span)))),
    }
}

/// The methods of a wait.
pub fn check_wait_method(
    cx: &Ctx,
    st: Checker,
    recv: HExpr,
    result: Ty,
    name: &Text,
    name_span: Span,
    args: &Chain<Expr>,
    span: Span,
) -> (r: (Checker, Result<HExpr, Stop>))
    ensures
        r == model::control::check_wait_method(cx, st, recv, result, name, name_span, args, span),
        kept(st, r.0),
        step(cx, st, r.0, expr_ok(room(cx, st), recv), (r.1 matches Ok(found) ==> expr_ok(room(cx, r.0), found))),
    decreases h_exprs(args), 6int, Chain::<u32>::Nil,
{
    if is_text(&*name, "wait") {
        perform_alone(cx, st, slots(cx).wait_wait, recv, name, args, result, span)
    } else if is_text(&*name, "choose") {
        check_choose(cx, st, recv, result, name, args, span)
    } else if is_text(&*name, "cancel") {
        perform_alone(cx, st, slots(cx).wait_cancel, recv, name, args, Ty::Bool, span)
    } else {
        (st, Err(no_control_method(&Ty::Wait(Box::new(result)), name, name_span)))
    }
}

/// The methods of a proc handle. A proc without a mailbox has no `send`.
pub fn check_handle_method(
    cx: &Ctx,
    st: Checker,
    recv: HExpr,
    mailbox: Ty,
    result: Ty,
    name: &Text,
    name_span: Span,
    args: &Chain<Expr>,
    span: Span,
) -> (r: (Checker, Result<HExpr, Stop>))
    ensures
        r == model::control::check_handle_method(cx, st, recv, mailbox, result, name, name_span, args, span),
        kept(st, r.0),
        step(cx, st, r.0, expr_ok(room(cx, st), recv), (r.1 matches Ok(found) ==> expr_ok(room(cx, r.0), found))),
    decreases h_exprs(args), 6int, Chain::<u32>::Nil,
{
    if is_text(&*name, "send") {
        if same_ty(&mailbox, &Ty::Never) {
            (st, Err(unnamed(Problem::NoMailboxSend, name_span)))
        } else {
            let ty = match core_class(cx, "SendResult", span) {
                Ok(found) => found,
                Err(stop) => {
                    return (st, Err(stop));
                },
            };
            perform_with(cx, st, slots(cx).proc_send, recv, name, args, &mailbox, ty, span)
        }
    } else if is_text(&*name, "close") {
        let ty = match core_class(cx, "SendResult", span) {
            Ok(found) => found,
            Err(stop) => {
                return (st, Err(stop));
            },
        };
        perform_alone(cx, st, slots(cx).proc_close, recv, name, args, ty, span)
    } else if is_text(&*name, "done") {
        let ty = match core_inst(cx, "ProcResult", one(result), span) {
            Ok(found) => found,
            Err(stop) => {
                return (st, Err(stop));
            },
        };
        perform_alone(cx, st, slots(cx).proc_done, recv, name, args, ty, span)
    } else if is_text(&*name, "snapshot_wait") {
        let ty = match result_of(cx, Ty::Snapshot(Box::new(result)), "SnapshotError", span) {
            Ok(found) => found,
            Err(stop) => {
                return (st, Err(stop));
            },
        };
        perform_with(cx, st, slots(cx).proc_snapshot_wait, recv, name, args, &Ty::Int, ty, span)
    } else if is_text(&*name, "pause") {
        let ty = match result_of(cx, Ty::Vm(Box::new(result)), "ProcError", span) {
            Ok(found) => found,
            Err(stop) => {
                return (st, Err(stop));
            },
        };
        perform_alone(cx, st, slots(cx).proc_pause, recv, name, args, ty, span)
    } else if is_text(&*name, "resume") {
        let ty = match result_of(cx, Ty::Unit, "ProcError", span) {
            Ok(found) => found,
            Err(stop) => {
                return (st, Err(stop));
            },
        };
        perform_alone(cx, st, slots(cx).proc_resume, recv, name, args, ty, span)
    } else {
        (st, Err(no_control_method(&Ty::Handle(Box::new(mailbox), Box::new(result)), name, name_span)))
    }
}

/// The methods of a resource control.
pub fn check_resource_method(
    cx: &Ctx,
    st: Checker,
    recv: HExpr,
    name: &Text,
    name_span: Span,
    args: &Chain<Expr>,
    span: Span,
) -> (r: (Checker, Result<HExpr, Stop>))
    ensures
        r == model::control::check_resource_method(cx, st, recv, name, name_span, args, span),
        kept(st, r.0),
        step(cx, st, r.0, expr_ok(room(cx, st), recv), (r.1 matches Ok(found) ==> expr_ok(room(cx, r.0), found))),
    decreases h_exprs(args), 6int, Chain::<u32>::Nil,
{
    if is_text(&*name, "is_open") {
        perform_alone(cx, st, slots(cx).vm_resource_is_open, recv, name, args, Ty::Bool, span)
    } else if is_text(&*name, "close") {
        perform_alone(cx, st, slots(cx).vm_resource_close, recv, name, args, Ty::Bool, span)
    } else if is_text(&*name, "kind") {
        perform_alone(cx, st, slots(cx).vm_resource_kind, recv, name, args, Ty::Str, span)
    } else if is_text(&*name, "same_resource") {
        perform_with(cx, st, slots(cx).vm_resource_same, recv, name, args, &Ty::ResourceHandle, Ty::Bool, span)
    } else {
        (st, Err(no_control_method(&Ty::ResourceHandle, name, name_span)))
    }
}

/// Check a pure inspection without arguments.
pub fn inspect(name: &Text, args: &Chain<Expr>, ty: Ty, kind: HKind, span: Span) -> (r: Result<HExpr, Stop>)
    ensures
        r == model::control::inspect(name, args, ty, kind, span),
{
    let _none = match expect_no_args(name, args, span) {
        Ok(found) => found,
        Err(stop) => {
            return Err(stop);
        },
    };
    Ok(hexpr(ty, true, kind))
}

/// Check the native methods of the machine surface: machines, waits,
/// handles, policy tables, requests, calls, resources and faults.
/// `None` when the receiver type has no such methods.
pub fn check_control_method(
    cx: &Ctx,
    st: Checker,
    recv: HExpr,
    name: &Text,
    name_span: Span,
    type_args: &Chain<TypeExpr>,
    args: &Chain<Expr>,
    span: Span,
) -> (r: (Checker, Result<Option<HExpr>, Stop>))
    ensures
        r == model::control::check_control_method(cx, st, recv, name, name_span, type_args, args, span),
        kept(st, r.0),
        step(cx, st, r.0, expr_ok(room(cx, st), recv), (r.1 matches Ok(found) ==> opt_expr_ok(room(cx, r.0), found))),
    decreases h_exprs(args), 8int, Chain::<u32>::Nil,
{
    if !is_control_type(&recv.ty) {
        return (st, Ok(None));
    }
    if !type_args.is_empty() {
        return (st, Err(unnamed(Problem::ControlTakesNoTypeArguments, name_span)));
    }
    let (st, out) = control_method(cx, st, recv, name, name_span, args, span);
    let out = match out {
        Ok(found) => found,
        Err(stop) => {
            return (st, Err(stop));
        },
    };
    (st, Ok(Some(out)))
}

/// Dispatch a control method by the receiver type.
pub fn control_method(
    cx: &Ctx,
    st: Checker,
    recv: HExpr,
    name: &Text,
    name_span: Span,
    args: &Chain<Expr>,
    span: Span,
) -> (r: (Checker, Result<HExpr, Stop>))
    ensures
        r == model::control::control_method(cx, st, recv, name, name_span, args, span),
        kept(st, r.0),
        step(cx, st, r.0, expr_ok(room(cx, st), recv), (r.1 matches Ok(found) ==> expr_ok(room(cx, r.0), found))),
    decreases h_exprs(args), 7int, Chain::<u32>::Nil,
{
    match recv.ty.clone() {
        Ty::EmptyVm => check_empty_vm_method(cx, st, recv, name, name_span, args, span),
        Ty::Vm(result) => check_vm_method(cx, st, recv, *result, name, name_span, args, span),
        Ty::PolicyTable => check_table_edit(cx, st, recv, name, name_span, args, span),
        Ty::Wait(result) => check_wait_method(cx, st, recv, *result, name, name_span, args, span),
        Ty::Handle(mailbox, result) => check_handle_method(cx, st, recv, *mailbox, *result, name, name_span, args, span),
        Ty::ResourceHandle => check_resource_method(cx, st, recv, name, name_span, args, span),
        Ty::PendingCall(call_args, reply) => {
            if is_text(&*name, "args") {
                let out = match inspect(name, args, *call_args, HKind::CallArgs(recv), span) {
                    Ok(found) => found,
                    Err(stop) => {
                        return (st, Err(stop));
                    },
                };
                (st, Ok(out))
            } else {
                (st, Err(no_control_method(&Ty::PendingCall(call_args, reply), name, name_span)))
            }
        },
        Ty::Request => {
            if is_text(&*name, "op_name") {
                let out = match inspect(name, args, Ty::Str, HKind::RequestOpName(recv), span) {
                    Ok(found) => found,
                    Err(stop) => {
                        return (st, Err(stop));
                    },
                };
                (st, Ok(out))
            } else {
                (st, Err(no_control_method(&Ty::Request, name, name_span)))
            }
        },
        Ty::Fault => {
            if is_text(&*name, "code") {
                let out = match inspect(name, args, Ty::Str, HKind::FaultCodeGet(recv), span) {
                    Ok(found) => found,
                    Err(stop) => {
                        return (st, Err(stop));
                    },
                };
                (st, Ok(out))
            } else {
                (st, Err(no_control_method(&Ty::Fault, name, name_span)))
            }
        },
        other => (st, Err(no_control_method(&other, name, name_span))),
    }
}

/// Check a method of a file handle: the operation behind it takes the
/// handle first.
pub fn check_file_method(
    cx: &Ctx,
    st: Checker,
    recv: HExpr,
    name: &Text,
    name_span: Span,
    args: &Chain<Expr>,
    span: Span,
) -> (r: (Checker, Result<HExpr, Stop>))
    ensures
        r == model::control::check_file_method(cx, st, recv, name, name_span, args, span),
        kept(st, r.0),
        step(cx, st, r.0, expr_ok(room(cx, st), recv), (r.1 matches Ok(found) ==> expr_ok(room(cx, r.0), found))),
    decreases h_exprs(args), 4int, Chain::<u32>::Nil,
{
    let op = match file_op(slots(cx), name) {
        Some(found) => found,
        None => {
            return (st, Err(no_control_method(&Ty::FileHandle, name, name_span)));
        },
    };
    let params = match op_params(cx, op, span) {
        Ok(found) => found,
        Err(stop) => {
            return (st, Err(stop));
        },
    };
    let params = skip(params, 1u32);
    let (st, out) = check_args_simple(cx, st, args, &params, &falses(&params), &file_names(name), name, span);
    let checked = match out {
        Ok(found) => found,
        Err(stop) => {
            return (st, Err(stop));
        },
    };
    let reply = match op_reply(cx, op, span) {
        Ok(found) => found,
        Err(stop) => {
            return (st, Err(stop));
        },
    };
    perform(cx, st, op, cons(recv, checked), reply, span)
}

/// The problem of a native method that a type lacks.
pub fn no_native_method(cx: &Ctx, ty: &Ty, name: &Text, span: Span) -> (r: Result<Stop, Stop>)
    ensures
        r == model::control::no_native_method(cx, ty, name, span),
{
    let heap = match is_heap(cx, ty) {
        Ok(found) => found,
        Err(stop) => {
            return Err(stop);
        },
    };
    if heap {
        Ok(named(Problem::TypeHasNoMethod { ty: (*ty).clone() }, name, span))
    } else {
        Ok(named(Problem::ScalarHasNoMethod { ty: (*ty).clone() }, name, span))
    }
}

/// Check the universal methods of heap values: `freeze` and `digest`.
pub fn check_universal_method(
    cx: &Ctx,
    recv: HExpr,
    name: &Text,
    name_span: Span,
    args: &Chain<Expr>,
) -> (r: Result<HExpr, Stop>)
    ensures
        r == model::control::check_universal_method(cx, recv, name, name_span, args),
{
    let heap = match is_heap(cx, &recv.ty) {
        Ok(found) => found,
        Err(stop) => {
            return Err(stop);
        },
    };
    if heap && args.is_empty() && is_text(&*name, "freeze") {
        Ok(freeze_expr(recv))
    } else if heap && args.is_empty() && is_text(&*name, "digest") {
        Ok(digest_expr(recv))
    } else {
        let problem = match no_native_method(cx, &recv.ty, name, name_span) {
            Ok(found) => found,
            Err(stop) => {
                return Err(stop);
            },
        };
        Err(problem)
    }
}

/// Check a call of one native method: a collection, or a file handle.
pub fn check_native_method(
    cx: &Ctx,
    st: Checker,
    recv: HExpr,
    name: &Text,
    name_span: Span,
    args: &Chain<Expr>,
    span: Span,
) -> (r: (Checker, Result<HExpr, Stop>))
    ensures
        r == model::control::check_native_method(cx, st, recv, name, name_span, args, span),
        kept(st, r.0),
        step(cx, st, r.0, expr_ok(room(cx, st), recv), (r.1 matches Ok(found) ==> expr_ok(room(cx, r.0), found))),
    decreases h_exprs(args), 5int, Chain::<u32>::Nil,
{
    if same_ty(&recv.ty, &Ty::FileHandle) {
        return check_file_method(cx, st, recv, name, name_span, args, span);
    }
    let method = match native_method(cx, &recv.ty, name) {
        Ok(found) => found,
        Err(stop) => {
            return (st, Err(stop));
        },
    };
    match method {
        None => {
            let out = match check_universal_method(cx, recv, name, name_span, args) {
                Ok(found) => found,
                Err(stop) => {
                    return (st, Err(stop));
                },
            };
            (st, Ok(out))
        },
        Some(native) => {
            if native.needs_mut && !recv.mutable {
                (st, Err(named(Problem::ReadOnlyReceiver, name, name_span)))
            } else {
                let (st, out) = check_args_simple(cx, st, args, &native.params, &falses(&native.params), &native.names, name, span);
                let checked = match out {
                    Ok(found) => found,
                    Err(stop) => {
                        return (st, Err(stop));
                    },
                };
                let mutable = if reads_element(native.op) { recv.mutable } else { true };
                (st, Ok(hexpr(native.ret, mutable, HKind::Native { op: native.op, args: cons(recv, checked) })))
            }
        },
    }
}

} // verus!
