//! Operation calls and the native methods of the machine surface.
//!
//! The functions here state what the functions of the same name compute.

use vstd::prelude::*;
use crate::abi::ControlSlots;
use crate::ast::{Expr, Span, TypeExpr};
use crate::chain::{Chain, chain_of};
use crate::context::{Ctx, MethodFound};
use crate::hir::{HExpr, HKind, TableAction, TargetKind};
use crate::model::answers::is_heap;
use crate::model::calls::{arg_span, check_args_simple, check_first, check_nth, class_signature, placed, synth_first, synth_nth};
use crate::model::conform::find_method_owner;
use crate::model::infer::arrange_args;
use crate::model::lists::{cons, falses, nth, one, skip, three, two};
use crate::model::lookup::{ancestor_args, class_at, core_class, core_id, core_inst};
use crate::model::resolve::{named, unnamed};
use crate::model::scope::{charge_row, hexpr, synth_self};
use crate::model::system::{charge_op, digest_expr, expect_arg_count, expect_no_args, file_names, file_op, freeze_expr, is_control_type, native_method, op_args_type, op_at, op_fn_type, op_params, op_reply, packed, perform, proc_mailbox_type, reads_element, resolve_descriptor, resolve_sys_member, result_of, table_action};
use crate::problem::{Problem, Stop};
use crate::state::{Checker, Target};
use crate::text::Text;
use crate::types::{RowElem, Ty};
use crate::model::heights::h_exprs;

verus! {

/// The slots of the operations that the language names itself.
pub open spec fn slots(cx: &Ctx) -> ControlSlots
{
    cx.bundle.slots
}

/// Perform an operation on a receiver alone.
pub open spec fn perform_alone(
    cx: &Ctx,
    st: Checker,
    op: u32,
    recv: HExpr,
    name: &Text,
    args: &Chain<Expr>,
    ty: Ty,
    span: Span,
) -> (Checker, Result<HExpr, Stop>)
{
    match expect_no_args(name, args, span) {
        Err(stop) => (st, Err(stop)),
        Ok(_none) => {
            perform(cx, st, op, one(recv), ty, span)
        },
    }
}

/// Perform an operation on a receiver and one argument of a given type.
pub open spec fn perform_with(
    cx: &Ctx,
    st: Checker,
    op: u32,
    recv: HExpr,
    name: &Text,
    args: &Chain<Expr>,
    param: &Ty,
    ty: Ty,
    span: Span,
) -> (Checker, Result<HExpr, Stop>)
    decreases h_exprs(args), 1int, Chain::<u32>::Nil,
{
    match expect_arg_count(name, args, 1u32, span) {
        Err(stop) => (st, Err(stop)),
        Ok(_one) => {
            match check_first(cx, st, args, param, span) {
                (st, Err(stop)) => (st, Err(stop)),
                (st, Ok(value)) => {
                    perform(cx, st, op, two(recv, value), ty, span)
                },
            }
        },
    }
}

/// Check `sys.proc.recv()` and `sys.proc.recv_wait()`: the mailbox type
/// comes from the enclosing proc class.
pub open spec fn check_receive(
    cx: &Ctx,
    st: Checker,
    member: &Text,
    name_span: Span,
    args: &Chain<Expr>,
    span: Span,
) -> (Checker, Result<HExpr, Stop>)
{
    match expect_no_args(member, args, span) {
        Err(stop) => (st, Err(stop)),
        Ok(_none) => {
            match proc_mailbox_type(cx, &st) {
                None => (st, Err(named(Problem::RecvOutsideProc, member, name_span))),
                Some(mailbox) => {
                    match synth_self(st, span) {
                        (st, Err(stop)) => (st, Err(stop)),
                        (st, Ok(receiver)) => {
                            match core_inst(cx, "Recv", one(mailbox), span) {
                                Err(stop) => (st, Err(stop)),
                                Ok(received) => {
                                    if ((*member)@ == "recv"@) {
                                        perform(cx, st, slots(cx).proc_recv, one(receiver), received, span)
                                    } else {
                                        perform(cx, st, slots(cx).proc_recv_wait, one(receiver), Ty::Wait(Box::new(received)), span)
                                    }
                                },
                            }
                        },
                    }
                },
            }
        },
    }
}

/// Check `sys.proc.run(vm)`: it hands one loaded machine to the
/// scheduler.
pub open spec fn check_proc_run(cx: &Ctx, st: Checker, member: &Text, args: &Chain<Expr>, span: Span) -> (Checker, Result<HExpr, Stop>)
    decreases h_exprs(args), 1int, Chain::<u32>::Nil,
{
    match expect_arg_count(member, args, 1u32, span) {
        Err(stop) => (st, Err(stop)),
        Ok(_one) => {
            match synth_first(cx, st, args, span) {
                (st, Err(stop)) => (st, Err(stop)),
                (st, Ok(vm)) => {
                    match vm.ty {
                        Ty::Vm(result) => perform(cx, st, slots(cx).proc_run, one(vm), Ty::Handle(Box::new(Ty::Never), result), span),
                        found => (st, Err(unnamed(Problem::RunNeedsMachine { found: found }, raw_span(args, span)))),
                    }
                },
            }
        },
    }
}

/// Where the first argument stands, its label included.
pub open spec fn raw_span(args: &Chain<Expr>, span: Span) -> Span
{
    match nth(args, 0u32) {
        Some(arg) => arg.span,
        None => span,
    }
}

/// Check a direct operation call `sys.<group>.<member>(args)`.
pub open spec fn check_sys_call(
    cx: &Ctx,
    st: Checker,
    group: &Text,
    member: &Text,
    name_span: Span,
    type_args: &Chain<TypeExpr>,
    args: &Chain<Expr>,
    span: Span,
) -> (Checker, Result<HExpr, Stop>)
    decreases h_exprs(args), 5int, Chain::<u32>::Nil,
{
    if !type_args.is_empty() {
        (st, Err(unnamed(Problem::OperationTakesNoTypeArguments, name_span)))
    } else if ((*group)@ == "Vm"@) && ((*member)@ == "Vm"@) {
        match expect_no_args(member, args, span) {
            Err(stop) => (st, Err(stop)),
            Ok(_none) => {
                perform(cx, st, slots(cx).vm_new, Chain::Nil, Ty::EmptyVm, span)
            },
        }
    } else if ((*group)@ == "Vm"@) && ((*member)@ == "snapshot_self"@) {
        match expect_no_args(member, args, span) {
            Err(stop) => (st, Err(stop)),
            Ok(_none) => {
                match result_of(cx, Ty::SnapshotImage, "SnapshotError", span) {
                    Err(stop) => (st, Err(stop)),
                    Ok(ty) => {
                        perform(cx, st, slots(cx).vm_snapshot_self, Chain::Nil, ty, span)
                    },
                }
            },
        }
    } else if ((*group)@ == "Proc"@) && (((*member)@ == "recv"@) || ((*member)@ == "recv_wait"@)) {
        check_receive(cx, st, member, name_span, args, span)
    } else if ((*group)@ == "Proc"@) && ((*member)@ == "run"@) {
        check_proc_run(cx, st, member, args, span)
    } else {
        match resolve_sys_member(cx, group, member, name_span) {
            Err(stop) => (st, Err(stop)),
            Ok(op) => {
                match op_params(cx, op, span) {
                    Err(stop) => (st, Err(stop)),
                    Ok(params) => {
                        match check_args_simple(cx, st, args, &params, &falses(&params), &Chain::Nil, member, span) {
                            (st, Err(stop)) => (st, Err(stop)),
                            (st, Ok(checked)) => {
                                match op_reply(cx, op, span) {
                                    Err(stop) => (st, Err(stop)),
                                    Ok(reply) => {
                                        perform(cx, st, op, checked, reply, span)
                                    },
                                }
                            },
                        }
                    },
                }
            },
        }
    }
}

/// Check `Fault.denied(reason)`, the one fault that a program can build.
pub open spec fn check_fault_denied(
    cx: &Ctx,
    st: Checker,
    name: &Text,
    name_span: Span,
    type_args: &Chain<TypeExpr>,
    args: &Chain<Expr>,
    span: Span,
) -> (Checker, Result<HExpr, Stop>)
    decreases h_exprs(args), 4int, Chain::<u32>::Nil,
{
    if !((*name)@ == "denied"@) {
        (st, Err(named(Problem::NoFaultConstructor, name, name_span)))
    } else if !type_args.is_empty() {
        (st, Err(unnamed(Problem::DeniedTakesNoTypeArguments, name_span)))
    } else {
        match expect_arg_count(name, args, 1u32, span) {
            Err(stop) => (st, Err(stop)),
            Ok(_one) => {
                match arrange_args(args, &one(chain_of("reason"@))) {
                    Err(stop) => (st, Err(stop)),
                    Ok(order) => {
                        match check_nth(cx, st, args, placed(&order, 0u32), &Ty::Str, span) {
                            (st, Err(stop)) => (st, Err(stop)),
                            (st, Ok(reason)) => {
                                (st, Ok(hexpr(Ty::Fault, true, HKind::FaultDenied(reason))))
                            },
                        }
                    },
                }
            },
        }
    }
}

/// The body of a proc class: a method `on_spawn` that takes `self` only.
pub open spec fn spawn_body(cx: &Ctx, class: u32, span: Span) -> Result<MethodFound, Stop>
{
    let name = &class_at(cx, class).name;
    match find_method_owner(cx, class, &chain_of("on_spawn"@)) {
        None => Err(named(Problem::NoOnSpawn, name, span)),
        Some(found) => {
            if !found.sig.params.is_empty() || !found.sig.own_type_params.is_empty() || !found.sig.own_effect_params.is_empty() || !found.owner_args.is_empty() {
                Err(named(Problem::OnSpawnShape, name, span))
            } else {
                Ok(found)
            }
        },
    }
}

/// The mailbox type of a proc class.
pub open spec fn spawn_mailbox(cx: &Ctx, class: u32, span: Span) -> Result<Ty, Stop>
{
    match core_id(cx, "Proc", span) {
        Err(stop) => Err(stop),
        Ok(proc_class) => {
            match ancestor_args(cx, class, Chain::Nil, proc_class) {
                Some(Chain::Cons(first, _)) => Ok(*first),
                _ => Err(named(Problem::SpawnNeedsProc, &class_at(cx, class).name, span)),
            }
        },
    }
}

/// Check `Class.spawn(args...)`. The class inherits `Proc[M]` and
/// declares `on_spawn`; the result is `Handle[M, R]`, where `R` is the
/// result of `on_spawn`. The spawner is charged the row of the body.
pub open spec fn check_spawn(
    cx: &Ctx,
    st: Checker,
    class: u32,
    args: &Chain<Expr>,
    name_span: Span,
    span: Span,
) -> (Checker, Result<HExpr, Stop>)
    decreases h_exprs(args), 4int, Chain::<u32>::Nil,
{
    match spawn_mailbox(cx, class, name_span) {
        Err(stop) => (st, Err(stop)),
        Ok(mailbox) => {
            match spawn_body(cx, class, name_span) {
                Err(stop) => (st, Err(stop)),
                Ok(body) => {
                    let sig = class_signature(class_at(cx, class));
                    match check_args_simple(cx, st, args, &sig.params, &sig.muts, &sig.names, &chain_of("spawn"@), span) {
                        (st, Err(stop)) => (st, Err(stop)),
                        (st, Ok(checked)) => {
                            match charge_op(cx, st, slots(cx).proc_spawn, span) {
                                (st, Err(stop)) => (st, Err(stop)),
                                (st, Ok(_operation)) => {
                                    match charge_row(cx, st, &body.sig.row, span) {
                                        (st, Err(stop)) => (st, Err(stop)),
                                        (st, Ok(_body)) => {
                                            let ctor_ty = Ty::Fn(sig.params, sig.muts, Box::new(Ty::Class(class)), sig.row);
                                            let result = body.sig.ret;
                                            let body_ty = Ty::Fn(one(Ty::Class(body.owner)), one(body.sig.mut_self), Box::new(body.sig.ret), body.sig.row);
                                            (st, Ok(hexpr(Ty::Handle(Box::new(mailbox), Box::new(result)), true, HKind::Spawn { class: class, body: body.sig.func, ctor_ty: ctor_ty, body_ty: body_ty, args: checked })))
                                        },
                                    }
                                },
                            }
                        },
                    }
                },
            }
        },
    }
}

/// Check the handler of a mocked operation.
pub open spec fn check_mock(
    cx: &Ctx,
    st: Checker,
    action: TableAction,
    target: Target,
    args: &Chain<Expr>,
    span: Span,
) -> (Checker, Result<Option<HExpr>, Stop>)
    decreases h_exprs(args), 2int, Chain::<u32>::Nil,
{
    if action != TableAction::Mock {
        (st, Ok(None))
    } else {
        match op_at(cx, target.slot, span) {
            Err(stop) => (st, Err(stop)),
            Ok(def) => {
                if target.kind != TargetKind::Exact || !def.fixed {
                    (st, Err(unnamed(Problem::MockNeedsOperation, raw_span(args, span))))
                } else {
                    match op_fn_type(cx, target.slot, span) {
                        Err(stop) => (st, Err(stop)),
                        Ok(handler_ty) => {
                            match args {
                                Chain::Nil => (st, Ok(None)),
                                Chain::Cons(_, rest) => {
                                    match check_first(cx, st, rest, &handler_ty, span) {
                                        (st, Err(stop)) => (st, Err(stop)),
                                        (st, Ok(handler)) => {
                                            (st, Ok(Some(handler)))
                                        },
                                    }
                                },
                            }
                        },
                    }
                }
            },
        }
    }
}

/// Resolve the policy target that an edit names first.
pub open spec fn first_target(cx: &Ctx, args: &Chain<Expr>, span: Span) -> Result<Target, Stop>
{
    match nth(args, 0u32) {
        Some(arg) => resolve_descriptor(cx, arg),
        None => Err(unnamed(Problem::TargetShape, span)),
    }
}

/// Check a policy-table edit. Passing authority is charged to the row of
/// the granter.
pub open spec fn check_table_edit(
    cx: &Ctx,
    st: Checker,
    table: HExpr,
    name: &Text,
    name_span: Span,
    args: &Chain<Expr>,
    span: Span,
) -> (Checker, Result<HExpr, Stop>)
    decreases h_exprs(args), 5int, Chain::<u32>::Nil,
{
    match table_action(name) {
        None => (st, Err(named(Problem::NoTableMethod, name, name_span))),
        Some(action) => {
            match expect_arg_count(name, args, if action == TableAction::Mock { 2u32 } else { 1u32 }, span) {
                Err(stop) => (st, Err(stop)),
                Ok(_count) => {
                    match first_target(cx, args, span) {
                        Err(stop) => (st, Err(stop)),
                        Ok(target) => {
                            match check_mock(cx, st, action, target, args, span) {
                                (st, Err(stop)) => (st, Err(stop)),
                                (st, Ok(mock)) => {
                                    let kind = HKind::TableEdit { action: action, target: target.kind, entry: target.slot, table: table, mock: mock };
                                    if action == TableAction::Pass {
                                        match charge_row(cx, st, &one(RowElem::Op(target.row)), span) {
                                            (st, Err(stop)) => (st, Err(stop)),
                                            (st, Ok(_granted)) => {
                                                (st, Ok(hexpr(Ty::Unit, true, kind)))
                                            },
                                        }
                                    } else {
                                        (st, Ok(hexpr(Ty::Unit, true, kind)))
                                    }
                                },
                            }
                        },
                    }
                },
            }
        },
    }
}

/// The problem of a control method that a type lacks.
pub open spec fn no_control_method(ty: &Ty, name: &Text, span: Span) -> Stop
{
    named(Problem::TypeHasNoMethod { ty: *ty }, name, span)
}

/// Check `from_fn(program, args)`: the parameters of the program fix the
/// type of its arguments.
pub open spec fn check_from_fn(
    cx: &Ctx,
    st: Checker,
    recv: HExpr,
    name: &Text,
    args: &Chain<Expr>,
    span: Span,
) -> (Checker, Result<HExpr, Stop>)
    decreases h_exprs(args), 5int, Chain::<u32>::Nil,
{
    match expect_arg_count(name, args, 2u32, span) {
        Err(stop) => (st, Err(stop)),
        Ok(_two) => {
            match arrange_args(args, &two(chain_of("program"@), chain_of("args"@))) {
                Err(stop) => (st, Err(stop)),
                Ok(order) => {
                    let first = placed(&order, 0u32);
                    match synth_nth(cx, st, args, first, span) {
                        (st, Err(stop)) => (st, Err(stop)),
                        (st, Ok(program)) => {
                            match program.ty {
                                Ty::Fn(params, _, ret, _) => {
                                    match check_nth(cx, st, args, placed(&order, 1u32), &packed(params), span) {
                                        (st, Err(stop)) => (st, Err(stop)),
                                        (st, Ok(tuple)) => {
                                            perform(cx, st, slots(cx).vm_from_fn, three(recv, program, tuple), Ty::Vm(ret), span)
                                        },
                                    }
                                },
                                found => (st, Err(unnamed(Problem::FromFnNeedsFunction { found: found }, arg_span(args, first, span)))),
                            }
                        },
                    }
                },
            }
        },
    }
}

/// Check `restore(snapshot)`.
pub open spec fn check_restore(
    cx: &Ctx,
    st: Checker,
    recv: HExpr,
    name: &Text,
    args: &Chain<Expr>,
    span: Span,
) -> (Checker, Result<HExpr, Stop>)
    decreases h_exprs(args), 5int, Chain::<u32>::Nil,
{
    match expect_arg_count(name, args, 1u32, span) {
        Err(stop) => (st, Err(stop)),
        Ok(_one) => {
            match synth_first(cx, st, args, span) {
                (st, Err(stop)) => (st, Err(stop)),
                (st, Ok(snapshot)) => {
                    match snapshot.ty {
                        Ty::Snapshot(result) => {
                            match result_of(cx, Ty::Vm(result), "RestoreError", span) {
                                Err(stop) => (st, Err(stop)),
                                Ok(ty) => {
                                    perform(cx, st, slots(cx).vm_restore, two(recv, snapshot), ty, span)
                                },
                            }
                        },
                        found => (st, Err(unnamed(Problem::RestoreNeedsSnapshot { found: found }, raw_span(args, span)))),
                    }
                },
            }
        },
    }
}

/// The methods of an empty machine.
pub open spec fn check_empty_vm_method(
    cx: &Ctx,
    st: Checker,
    recv: HExpr,
    name: &Text,
    name_span: Span,
    args: &Chain<Expr>,
    span: Span,
) -> (Checker, Result<HExpr, Stop>)
    decreases h_exprs(args), 6int, Chain::<u32>::Nil,
{
    if ((*name)@ == "from_fn"@) {
        check_from_fn(cx, st, recv, name, args, span)
    } else if ((*name)@ == "restore"@) {
        check_restore(cx, st, recv, name, args, span)
    } else {
        (st, Err(no_control_method(&Ty::EmptyVm, name, name_span)))
    }
}

/// Check `serve_file(call)`: the call is a current `Fs.Open`.
pub open spec fn check_serve_file(
    cx: &Ctx,
    st: Checker,
    recv: HExpr,
    name: &Text,
    args: &Chain<Expr>,
    span: Span,
) -> (Checker, Result<HExpr, Stop>)
    decreases h_exprs(args), 5int, Chain::<u32>::Nil,
{
    match expect_arg_count(name, args, 1u32, span) {
        Err(stop) => (st, Err(stop)),
        Ok(_one) => {
            match synth_first(cx, st, args, span) {
                (st, Err(stop)) => (st, Err(stop)),
                (st, Ok(call)) => {
                    match op_args_type(cx, slots(cx).fs_open, span) {
                        Err(stop) => (st, Err(stop)),
                        Ok(want_args) => {
                            match op_reply(cx, slots(cx).fs_open, span) {
                                Err(stop) => (st, Err(stop)),
                                Ok(want_reply) => {
                                    if (call.ty == Ty::PendingCall(Box::new(want_args), Box::new(want_reply))) {
                                        perform(cx, st, slots(cx).vm_serve_file, two(recv, call), Ty::ResourceHandle, span)
                                    } else {
                                        (st, Err(unnamed(Problem::ServeFileNeedsOpen, raw_span(args, span))))
                                    }
                                },
                            }
                        },
                    }
                },
            }
        },
    }
}

/// Check `answer(call, value)`: the call token fixes the type of the
/// value.
pub open spec fn check_answer(
    cx: &Ctx,
    st: Checker,
    recv: HExpr,
    name: &Text,
    args: &Chain<Expr>,
    span: Span,
) -> (Checker, Result<HExpr, Stop>)
    decreases h_exprs(args), 5int, Chain::<u32>::Nil,
{
    match expect_arg_count(name, args, 2u32, span) {
        Err(stop) => (st, Err(stop)),
        Ok(_two) => {
            match arrange_args(args, &two(chain_of("call"@), chain_of("value"@))) {
                Err(stop) => (st, Err(stop)),
                Ok(order) => {
                    let first = placed(&order, 0u32);
                    match synth_nth(cx, st, args, first, span) {
                        (st, Err(stop)) => (st, Err(stop)),
                        (st, Ok(call)) => {
                            match call.ty {
                                Ty::PendingCall(_, reply) => {
                                    match check_nth(cx, st, args, placed(&order, 1u32), &reply, span) {
                                        (st, Err(stop)) => (st, Err(stop)),
                                        (st, Ok(value)) => {
                                            perform(cx, st, slots(cx).vm_answer, three(recv, call, value), Ty::Unit, span)
                                        },
                                    }
                                },
                                found => (st, Err(unnamed(Problem::AnswerNeedsCall { found: found }, arg_span(args, first, span)))),
                            }
                        },
                    }
                },
            }
        },
    }
}

/// Check `reject(request, fault)`.
pub open spec fn check_reject(
    cx: &Ctx,
    st: Checker,
    recv: HExpr,
    name: &Text,
    args: &Chain<Expr>,
    span: Span,
) -> (Checker, Result<HExpr, Stop>)
    decreases h_exprs(args), 5int, Chain::<u32>::Nil,
{
    match expect_arg_count(name, args, 2u32, span) {
        Err(stop) => (st, Err(stop)),
        Ok(_two) => {
            match arrange_args(args, &two(chain_of("request"@), chain_of("fault"@))) {
                Err(stop) => (st, Err(stop)),
                Ok(order) => {
                    match check_nth(cx, st, args, placed(&order, 0u32), &Ty::Request, span) {
                        (st, Err(stop)) => (st, Err(stop)),
                        (st, Ok(request)) => {
                            match check_nth(cx, st, args, placed(&order, 1u32), &Ty::Fault, span) {
                                (st, Err(stop)) => (st, Err(stop)),
                                (st, Ok(fault)) => {
                                    perform(cx, st, slots(cx).vm_reject, three(recv, request, fault), Ty::Unit, span)
                                },
                            }
                        },
                    }
                },
            }
        },
    }
}

/// The methods of a loaded machine that run it.
pub open spec fn check_vm_run(
    cx: &Ctx,
    st: Checker,
    recv: HExpr,
    result: Ty,
    name: &Text,
    name_span: Span,
    args: &Chain<Expr>,
    span: Span,
) -> (Checker, Result<HExpr, Stop>)
    decreases h_exprs(args), 5int, Chain::<u32>::Nil,
{
    if ((*name)@ == "snapshot_wait"@) {
        match result_of(cx, Ty::Snapshot(Box::new(result)), "SnapshotError", span) {
            Err(stop) => (st, Err(stop)),
            Ok(ty) => {
                perform_with(cx, st, slots(cx).vm_snapshot_wait_held, recv, name, args, &Ty::Int, ty, span)
            },
        }
    } else if ((*name)@ == "drive_for"@) {
        match core_inst(cx, "DriveEvent", one(result), span) {
            Err(stop) => (st, Err(stop)),
            Ok(event) => {
                match core_inst(cx, "Option", one(event), span) {
                    Err(stop) => (st, Err(stop)),
                    Ok(ty) => {
                        perform_with(cx, st, slots(cx).vm_drive_for, recv, name, args, &Ty::Int, ty, span)
                    },
                }
            },
        }
    } else if ((*name)@ == "run"@) {
        match core_inst(cx, "RunResult", one(result), span) {
            Err(stop) => (st, Err(stop)),
            Ok(ty) => {
                perform_alone(cx, st, slots(cx).vm_run, recv, name, args, ty, span)
            },
        }
    } else if ((*name)@ == "step"@) {
        match core_inst(cx, "StepEvent", one(result), span) {
            Err(stop) => (st, Err(stop)),
            Ok(ty) => {
                perform_alone(cx, st, slots(cx).vm_step, recv, name, args, ty, span)
            },
        }
    } else if ((*name)@ == "drive"@) {
        match core_inst(cx, "DriveEvent", one(result), span) {
            Err(stop) => (st, Err(stop)),
            Ok(ty) => {
                perform_alone(cx, st, slots(cx).vm_drive, recv, name, args, ty, span)
            },
        }
    } else if ((*name)@ == "drive_wait"@) {
        match core_inst(cx, "DriveEvent", one(result), span) {
            Err(stop) => (st, Err(stop)),
            Ok(event) => {
                perform_alone(cx, st, slots(cx).vm_drive_wait, recv, name, args, Ty::Wait(Box::new(event)), span)
            },
        }
    } else if ((*name)@ == "snapshot"@) {
        match result_of(cx, Ty::Snapshot(Box::new(result)), "SnapshotError", span) {
            Err(stop) => (st, Err(stop)),
            Ok(ty) => {
                perform_alone(cx, st, slots(cx).vm_snapshot_held, recv, name, args, ty, span)
            },
        }
    } else {
        (st, Err(no_control_method(&Ty::Vm(Box::new(result)), name, name_span)))
    }
}

/// The methods of a loaded machine.
pub open spec fn check_vm_method(
    cx: &Ctx,
    st: Checker,
    recv: HExpr,
    result: Ty,
    name: &Text,
    name_span: Span,
    args: &Chain<Expr>,
    span: Span,
) -> (Checker, Result<HExpr, Stop>)
    decreases h_exprs(args), 6int, Chain::<u32>::Nil,
{
    if ((*name)@ == "table"@) {
        perform_alone(cx, st, slots(cx).vm_table, recv, name, args, Ty::PolicyTable, span)
    } else if ((*name)@ == "handles"@) {
        perform_alone(cx, st, slots(cx).vm_handles, recv, name, args, Ty::ListOf(Box::new(Ty::ResourceHandle)), span)
    } else if ((*name)@ == "resource"@) {
        perform_with(cx, st, slots(cx).vm_resource, recv, name, args, &Ty::FileHandle, Ty::ResourceHandle, span)
    } else if ((*name)@ == "serve_file"@) {
        check_serve_file(cx, st, recv, name, args, span)
    } else if ((*name)@ == "answer"@) {
        check_answer(cx, st, recv, name, args, span)
    } else if ((*name)@ == "reject"@) {
        check_reject(cx, st, recv, name, args, span)
    } else if ((*name)@ == "dispatch"@) {
        perform_with(cx, st, slots(cx).vm_dispatch, recv, name, args, &Ty::Request, Ty::Unit, span)
    } else {
        check_vm_run(cx, st, recv, result, name, name_span, args, span)
    }
}

/// Check `choose(wait)`: the first of two waits.
pub open spec fn check_choose(
    cx: &Ctx,
    st: Checker,
    recv: HExpr,
    left: Ty,
    name: &Text,
    args: &Chain<Expr>,
    span: Span,
) -> (Checker, Result<HExpr, Stop>)
    decreases h_exprs(args), 5int, Chain::<u32>::Nil,
{
    match expect_arg_count(name, args, 1u32, span) {
        Err(stop) => (st, Err(stop)),
        Ok(_one) => {
            match synth_first(cx, st, args, span) {
                (st, Err(stop)) => (st, Err(stop)),
                (st, Ok(right)) => {
                    match right.ty {
                        Ty::Wait(result) => {
                            match core_inst(cx, "Choice", two(left, *result), span) {
                                Err(stop) => (st, Err(stop)),
                                Ok(choice) => {
                                    perform(cx, st, slots(cx).wait_choose, two(recv, right), Ty::Wait(Box::new(choice)), span)
                                },
                            }
                        },
                        found => (st, Err(unnamed(Problem::ChooseNeedsWait { found: found }, raw_span(args, span)))),
                    }
                },
            }
        },
    }
}

/// The methods of a wait.
pub open spec fn check_wait_method(
    cx: &Ctx,
    st: Checker,
    recv: HExpr,
    result: Ty,
    name: &Text,
    name_span: Span,
    args: &Chain<Expr>,
    span: Span,
) -> (Checker, Result<HExpr, Stop>)
    decreases h_exprs(args), 6int, Chain::<u32>::Nil,
{
    if ((*name)@ == "wait"@) {
        perform_alone(cx, st, slots(cx).wait_wait, recv, name, args, result, span)
    } else if ((*name)@ == "choose"@) {
        check_choose(cx, st, recv, result, name, args, span)
    } else if ((*name)@ == "cancel"@) {
        perform_alone(cx, st, slots(cx).wait_cancel, recv, name, args, Ty::Bool, span)
    } else {
        (st, Err(no_control_method(&Ty::Wait(Box::new(result)), name, name_span)))
    }
}

/// The methods of a proc handle. A proc without a mailbox has no `send`.
pub open spec fn check_handle_method(
    cx: &Ctx,
    st: Checker,
    recv: HExpr,
    mailbox: Ty,
    result: Ty,
    name: &Text,
    name_span: Span,
    args: &Chain<Expr>,
    span: Span,
) -> (Checker, Result<HExpr, Stop>)
    decreases h_exprs(args), 6int, Chain::<u32>::Nil,
{
    if ((*name)@ == "send"@) {
        if (mailbox == Ty::Never) {
            (st, Err(unnamed(Problem::NoMailboxSend, name_span)))
        } else {
            match core_class(cx, "SendResult", span) {
                Err(stop) => (st, Err(stop)),
                Ok(ty) => {
                    perform_with(cx, st, slots(cx).proc_send, recv, name, args, &mailbox, ty, span)
                },
            }
        }
    } else if ((*name)@ == "close"@) {
        match core_class(cx, "SendResult", span) {
            Err(stop) => (st, Err(stop)),
            Ok(ty) => {
                perform_alone(cx, st, slots(cx).proc_close, recv, name, args, ty, span)
            },
        }
    } else if ((*name)@ == "done"@) {
        match core_inst(cx, "ProcResult", one(result), span) {
            Err(stop) => (st, Err(stop)),
            Ok(ty) => {
                perform_alone(cx, st, slots(cx).proc_done, recv, name, args, ty, span)
            },
        }
    } else if ((*name)@ == "snapshot_wait"@) {
        match result_of(cx, Ty::Snapshot(Box::new(result)), "SnapshotError", span) {
            Err(stop) => (st, Err(stop)),
            Ok(ty) => {
                perform_with(cx, st, slots(cx).proc_snapshot_wait, recv, name, args, &Ty::Int, ty, span)
            },
        }
    } else if ((*name)@ == "pause"@) {
        match result_of(cx, Ty::Vm(Box::new(result)), "ProcError", span) {
            Err(stop) => (st, Err(stop)),
            Ok(ty) => {
                perform_alone(cx, st, slots(cx).proc_pause, recv, name, args, ty, span)
            },
        }
    } else if ((*name)@ == "resume"@) {
        match result_of(cx, Ty::Unit, "ProcError", span) {
            Err(stop) => (st, Err(stop)),
            Ok(ty) => {
                perform_alone(cx, st, slots(cx).proc_resume, recv, name, args, ty, span)
            },
        }
    } else {
        (st, Err(no_control_method(&Ty::Handle(Box::new(mailbox), Box::new(result)), name, name_span)))
    }
}

/// The methods of a resource control.
pub open spec fn check_resource_method(
    cx: &Ctx,
    st: Checker,
    recv: HExpr,
    name: &Text,
    name_span: Span,
    args: &Chain<Expr>,
    span: Span,
) -> (Checker, Result<HExpr, Stop>)
    decreases h_exprs(args), 6int, Chain::<u32>::Nil,
{
    if ((*name)@ == "is_open"@) {
        perform_alone(cx, st, slots(cx).vm_resource_is_open, recv, name, args, Ty::Bool, span)
    } else if ((*name)@ == "close"@) {
        perform_alone(cx, st, slots(cx).vm_resource_close, recv, name, args, Ty::Bool, span)
    } else if ((*name)@ == "kind"@) {
        perform_alone(cx, st, slots(cx).vm_resource_kind, recv, name, args, Ty::Str, span)
    } else if ((*name)@ == "same_resource"@) {
        perform_with(cx, st, slots(cx).vm_resource_same, recv, name, args, &Ty::ResourceHandle, Ty::Bool, span)
    } else {
        (st, Err(no_control_method(&Ty::ResourceHandle, name, name_span)))
    }
}

/// Check a pure inspection without arguments.
pub open spec fn inspect(name: &Text, args: &Chain<Expr>, ty: Ty, kind: HKind, span: Span) -> Result<HExpr, Stop>
{
    match expect_no_args(name, args, span) {
        Err(stop) => Err(stop),
        Ok(_none) => {
            Ok(hexpr(ty, true, kind))
        },
    }
}

/// Check the native methods of the machine surface: machines, waits,
/// handles, policy tables, requests, calls, resources and faults.
/// `None` when the receiver type has no such methods.
pub open spec fn check_control_method(
    cx: &Ctx,
    st: Checker,
    recv: HExpr,
    name: &Text,
    name_span: Span,
    type_args: &Chain<TypeExpr>,
    args: &Chain<Expr>,
    span: Span,
) -> (Checker, Result<Option<HExpr>, Stop>)
    decreases h_exprs(args), 8int, Chain::<u32>::Nil,
{
    if !is_control_type(&recv.ty) {
        (st, Ok(None))
    } else if !type_args.is_empty() {
        (st, Err(unnamed(Problem::ControlTakesNoTypeArguments, name_span)))
    } else {
        match control_method(cx, st, recv, name, name_span, args, span) {
            (st, Err(stop)) => (st, Err(stop)),
            (st, Ok(out)) => {
                (st, Ok(Some(out)))
            },
        }
    }
}

/// Dispatch a control method by the receiver type.
pub open spec fn control_method(
    cx: &Ctx,
    st: Checker,
    recv: HExpr,
    name: &Text,
    name_span: Span,
    args: &Chain<Expr>,
    span: Span,
) -> (Checker, Result<HExpr, Stop>)
    decreases h_exprs(args), 7int, Chain::<u32>::Nil,
{
    match recv.ty {
        Ty::EmptyVm => check_empty_vm_method(cx, st, recv, name, name_span, args, span),
        Ty::Vm(result) => check_vm_method(cx, st, recv, *result, name, name_span, args, span),
        Ty::PolicyTable => check_table_edit(cx, st, recv, name, name_span, args, span),
        Ty::Wait(result) => check_wait_method(cx, st, recv, *result, name, name_span, args, span),
        Ty::Handle(mailbox, result) => check_handle_method(cx, st, recv, *mailbox, *result, name, name_span, args, span),
        Ty::ResourceHandle => check_resource_method(cx, st, recv, name, name_span, args, span),
        Ty::PendingCall(call_args, reply) => {
            if ((*name)@ == "args"@) {
                match inspect(name, args, *call_args, HKind::CallArgs(recv), span) {
                    Err(stop) => (st, Err(stop)),
                    Ok(out) => {
                        (st, Ok(out))
                    },
                }
            } else {
                (st, Err(no_control_method(&Ty::PendingCall(call_args, reply), name, name_span)))
            }
        },
        Ty::Request => {
            if ((*name)@ == "op_name"@) {
                match inspect(name, args, Ty::Str, HKind::RequestOpName(recv), span) {
                    Err(stop) => (st, Err(stop)),
                    Ok(out) => {
                        (st, Ok(out))
                    },
                }
            } else {
                (st, Err(no_control_method(&Ty::Request, name, name_span)))
            }
        },
        Ty::Fault => {
            if ((*name)@ == "code"@) {
                match inspect(name, args, Ty::Str, HKind::FaultCodeGet(recv), span) {
                    Err(stop) => (st, Err(stop)),
                    Ok(out) => {
                        (st, Ok(out))
                    },
                }
            } else {
                (st, Err(no_control_method(&Ty::Fault, name, name_span)))
            }
        },
        other => (st, Err(no_control_method(&other, name, name_span))),
    }
}

/// Check a method of a file handle: the operation behind it takes the
/// handle first.
pub open spec fn check_file_method(
    cx: &Ctx,
    st: Checker,
    recv: HExpr,
    name: &Text,
    name_span: Span,
    args: &Chain<Expr>,
    span: Span,
) -> (Checker, Result<HExpr, Stop>)
    decreases h_exprs(args), 4int, Chain::<u32>::Nil,
{
    match file_op(slots(cx), name) {
        None => (st, Err(no_control_method(&Ty::FileHandle, name, name_span))),
        Some(op) => {
            match op_params(cx, op, span) {
                Err(stop) => (st, Err(stop)),
                Ok(params) => {
                    let params = skip(params, 1u32);
                    match check_args_simple(cx, st, args, &params, &falses(&params), &file_names(name), name, span) {
                        (st, Err(stop)) => (st, Err(stop)),
                        (st, Ok(checked)) => {
                            match op_reply(cx, op, span) {
                                Err(stop) => (st, Err(stop)),
                                Ok(reply) => {
                                    perform(cx, st, op, cons(recv, checked), reply, span)
                                },
                            }
                        },
                    }
                },
            }
        },
    }
}

/// The problem of a native method that a type lacks.
pub open spec fn no_native_method(cx: &Ctx, ty: &Ty, name: &Text, span: Span) -> Result<Stop, Stop>
{
    match is_heap(cx, ty) {
        Err(stop) => Err(stop),
        Ok(heap) => {
            if heap {
                Ok(named(Problem::TypeHasNoMethod { ty: *ty }, name, span))
            } else {
                Ok(named(Problem::ScalarHasNoMethod { ty: *ty }, name, span))
            }
        },
    }
}

/// Check the universal methods of heap values: `freeze` and `digest`.
pub open spec fn check_universal_method(
    cx: &Ctx,
    recv: HExpr,
    name: &Text,
    name_span: Span,
    args: &Chain<Expr>,
) -> Result<HExpr, Stop>
{
    match is_heap(cx, &recv.ty) {
        Err(stop) => Err(stop),
        Ok(heap) => {
            if heap && args.is_empty() && ((*name)@ == "freeze"@) {
                Ok(freeze_expr(recv))
            } else if heap && args.is_empty() && ((*name)@ == "digest"@) {
                Ok(digest_expr(recv))
            } else {
                match no_native_method(cx, &recv.ty, name, name_span) {
                    Err(stop) => Err(stop),
                    Ok(problem) => {
                        Err(problem)
                    },
                }
            }
        },
    }
}

/// Check a call of one native method: a collection, or a file handle.
pub open spec fn check_native_method(
    cx: &Ctx,
    st: Checker,
    recv: HExpr,
    name: &Text,
    name_span: Span,
    args: &Chain<Expr>,
    span: Span,
) -> (Checker, Result<HExpr, Stop>)
    decreases h_exprs(args), 5int, Chain::<u32>::Nil,
{
    if (recv.ty == Ty::FileHandle) {
        check_file_method(cx, st, recv, name, name_span, args, span)
    } else {
        match native_method(cx, &recv.ty, name) {
            Err(stop) => (st, Err(stop)),
            Ok(method) => {
                match method {
                    None => {
                        match check_universal_method(cx, recv, name, name_span, args) {
                            Err(stop) => (st, Err(stop)),
                            Ok(out) => {
                                (st, Ok(out))
                            },
                        }
                    },
                    Some(native) => {
                        if native.needs_mut && !recv.mutable {
                            (st, Err(named(Problem::ReadOnlyReceiver, name, name_span)))
                        } else {
                            match check_args_simple(cx, st, args, &native.params, &falses(&native.params), &native.names, name, span) {
                                (st, Err(stop)) => (st, Err(stop)),
                                (st, Ok(checked)) => {
                                    let mutable = if reads_element(native.op) { recv.mutable } else { true };
                                    (st, Ok(hexpr(native.ret, mutable, HKind::Native { op: native.op, args: cons(recv, checked) })))
                                },
                            }
                        }
                    },
                }
            },
        }
    }
}

} // verus!
