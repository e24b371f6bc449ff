//! The operations of the manifest as the language names them.

use vstd::prelude::*;
use crate::abi::{AbiType, ControlSlots, GroupDef, IntrinsicDef, OpDef, PrimKind};
use crate::ast::{BinOp, Expr, ExprKind, Span};
use crate::chain::Chain;
use crate::classes::is_core_class;
use crate::conform::{find_method_owner, option_of};
use crate::context::{Ctx, NativeRepr, TyEnv};
use crate::hir::{HExpr, HKind, NativeOp, TableAction, TargetKind};
use crate::infer::{map_key_parameter, map_key_use};
use crate::lists::{cons, count, falses, find_id, find_literal, nth, one, two};
use crate::lookup::{ancestor_args, class_at, class_of, core_class, core_id, core_inst, ctor_families, family_of, find_arm, own_method, type_for_nominal};
use crate::names::{camel_member, dotted, snake_member, starts_upper};
use crate::problem::{Diag, Problem, Stop};
use crate::resolve::{named, unnamed};
use crate::scope::{charge_row, hexpr};
use crate::state::{Checker, NativeMethod, OperatorHook, Target};
use crate::subst::variables;
use crate::text::{Text, is_text, same_text, text};
use crate::types::{RowElem, Ty};
use crate::uses::fixed_member;
use crate::model::sound::{Room, callee_covered, core_method, covered, expr_ok, exprs_ok, is_arm, names_target, operator_name, primitive_name, room, step};
use crate::model::keeps::kept;
use crate::model;

verus! {

broadcast use {crate::model::keeps::group_kept, crate::model::sound::group_sound};

/// The type of each manifest type.
pub fn abi_types(cx: &Ctx, items: &Chain<AbiType>, vars: &Chain<Ty>, span: Span) -> (r: Result<Chain<Ty>, Stop>)
    ensures
        r == model::system::abi_types(cx, items, vars, span),
    decreases items,
{
    match items {
        Chain::Nil => Ok(Chain::Nil),
        Chain::Cons(head, tail) => {
            let first = match abi_type(cx, head, vars, span) {
                Ok(found) => found,
                Err(stop) => {
                    return Err(stop);
                },
            };
            let rest = match abi_types(cx, tail, vars, span) {
                Ok(found) => found,
                Err(stop) => {
                    return Err(stop);
                },
            };
            Ok(cons(first, rest))
        },
    }
}

/// The core class of a name that the manifest uses.
pub fn manifest_class(cx: &Ctx, name: &Text, span: Span) -> (r: Result<u32, Stop>)
    ensures
        r == model::system::manifest_class(cx, name, span),
{
    match find_id(&cx.core_types, name) {
        Some(class) => Ok(class),
        None => Err(named(Problem::CoreMissing, name, span)),
    }
}

/// The type of one manifest type. `vars` are the type variables of an
/// intrinsic.
pub fn abi_type(cx: &Ctx, ty: &AbiType, vars: &Chain<Ty>, span: Span) -> (r: Result<Ty, Stop>)
    ensures
        r == model::system::abi_type(cx, ty, vars, span),
    decreases ty,
{
    match ty {
        AbiType::Primitive(kind) => Ok(primitive_type(*kind)),
        AbiType::Core(name) => {
            let class = match manifest_class(cx, name, span) {
                Ok(found) => found,
                Err(stop) => {
                    return Err(stop);
                },
            };
            Ok(Ty::Class(class))
        },
        AbiType::Native(name) => {
            let class = match manifest_class(cx, name, span) {
                Ok(found) => found,
                Err(stop) => {
                    return Err(stop);
                },
            };
            Ok(type_for_nominal(cx, class, Chain::Nil))
        },
        AbiType::ListOf(item) => {
            let element = match abi_type(cx, item, vars, span) {
                Ok(found) => found,
                Err(stop) => {
                    return Err(stop);
                },
            };
            Ok(Ty::ListOf(Box::new(element)))
        },
        AbiType::MapOf(key, value) => {
            let key_ty = match abi_type(cx, key, vars, span) {
                Ok(found) => found,
                Err(stop) => {
                    return Err(stop);
                },
            };
            let value_ty = match abi_type(cx, value, vars, span) {
                Ok(found) => found,
                Err(stop) => {
                    return Err(stop);
                },
            };
            Ok(Ty::MapOf(Box::new(key_ty), Box::new(value_ty)))
        },
        AbiType::Tuple(items) => {
            let elements = match abi_types(cx, items, vars, span) {
                Ok(found) => found,
                Err(stop) => {
                    return Err(stop);
                },
            };
            Ok(Ty::Tuple(elements))
        },
        AbiType::Apply(name, args) => {
            let class = match manifest_class(cx, name, span) {
                Ok(found) => found,
                Err(stop) => {
                    return Err(stop);
                },
            };
            let arguments = match abi_types(cx, args, vars, span) {
                Ok(found) => found,
                Err(stop) => {
                    return Err(stop);
                },
            };
            Ok(Ty::Inst(class, arguments))
        },
        AbiType::Var(index) => {
            match nth(vars, *index) {
                Some(found) => Ok((*found).clone()),
                None => Ok(Ty::Var(*index)),
            }
        },
        AbiType::Resource => Ok(Ty::FileHandle),
    }
}

/// The type of one primitive of the manifest.
pub fn primitive_type(kind: PrimKind) -> (r: Ty)
    ensures
        r == model::system::primitive_type(kind),
{
    match kind {
        PrimKind::Unit => Ty::Unit,
        PrimKind::Bool => Ty::Bool,
        PrimKind::Int => Ty::Int,
        PrimKind::Float => Ty::Float,
        PrimKind::Str => Ty::Str,
        PrimKind::Bytes => Ty::Bytes,
        PrimKind::FileHandle => Ty::FileHandle,
        PrimKind::SnapshotImage => Ty::SnapshotImage,
        PrimKind::Never => Ty::Never,
    }
}

/// The operation at one manifest slot.
pub fn op_at<'a>(cx: &'a Ctx, op: u32, span: Span) -> (r: Result<&'a OpDef, Stop>)
    ensures
        r == model::system::op_at(cx, op, span),
{
    match nth(&cx.bundle.ops, op) {
        Some(def) => Ok(def),
        None => Err(unnamed(Problem::NotInManifest, span)),
    }
}

/// The parameter types of one operation.
pub fn op_params(cx: &Ctx, op: u32, span: Span) -> (r: Result<Chain<Ty>, Stop>)
    ensures
        r == model::system::op_params(cx, op, span),
{
    let def = match op_at(cx, op, span) {
        Ok(found) => found,
        Err(stop) => {
            return Err(stop);
        },
    };
    abi_types(cx, &def.params, &Chain::Nil, span)
}

/// The reply type of one operation.
pub fn op_reply(cx: &Ctx, op: u32, span: Span) -> (r: Result<Ty, Stop>)
    ensures
        r == model::system::op_reply(cx, op, span),
{
    let def = match op_at(cx, op, span) {
        Ok(found) => found,
        Err(stop) => {
            return Err(stop);
        },
    };
    abi_type(cx, &def.reply, &Chain::Nil, span)
}

/// The callable function type of one operation.
pub fn op_fn_type(cx: &Ctx, op: u32, span: Span) -> (r: Result<Ty, Stop>)
    ensures
        r == model::system::op_fn_type(cx, op, span),
{
    let params = match op_params(cx, op, span) {
        Ok(found) => found,
        Err(stop) => {
            return Err(stop);
        },
    };
    let reply = match op_reply(cx, op, span) {
        Ok(found) => found,
        Err(stop) => {
            return Err(stop);
        },
    };
    let muts = falses(&params);
    Ok(Ty::Fn(params, muts, Box::new(reply), Chain::Nil))
}

/// The type of a value that stands for several arguments: the unit type
/// for none, a tuple otherwise.
pub fn packed(items: Chain<Ty>) -> (r: Ty)
    ensures
        r == model::system::packed(items),
{
    if items.is_empty() {
        Ty::Unit
    } else {
        Ty::Tuple(items)
    }
}

/// The argument-view type of one operation.
pub fn op_args_type(cx: &Ctx, op: u32, span: Span) -> (r: Result<Ty, Stop>)
    ensures
        r == model::system::op_args_type(cx, op, span),
{
    let params = match op_params(cx, op, span) {
        Ok(found) => found,
        Err(stop) => {
            return Err(stop);
        },
    };
    Ok(packed(params))
}

/// Charge one exact operation to the enclosing row.
pub fn charge_op(cx: &Ctx, st: Checker, op: u32, span: Span) -> (r: (Checker, Result<(), Stop>))
    ensures
        r == model::system::charge_op(cx, st, op, span),
        kept(st, r.0),
        step(cx, st, r.0, true, true),
        r.1 is Ok ==> covered(room(cx, r.0), op),
{
    proof {
        reveal(room);
    }
    let def = match op_at(cx, op, span) {
        Ok(found) => found,
        Err(stop) => {
            return (st, Err(stop));
        },
    };
    charge_row(cx, st, &one(RowElem::Op(def.row)), span)
}

/// Charge one operation and perform it.
pub fn perform(
    cx: &Ctx,
    st: Checker,
    op: u32,
    args: Chain<HExpr>,
    ty: Ty,
    span: Span,
) -> (r: (Checker, Result<HExpr, Stop>))
    ensures
        r == model::system::perform(cx, st, op, args, ty, span),
        kept(st, r.0),
        step(cx, st, r.0, exprs_ok(room(cx, st), args), (r.1 matches Ok(found) ==> expr_ok(room(cx, r.0), found))),
{
    let (st, out) = charge_op(cx, st, op, span);
    let _charged = match out {
        Ok(found) => found,
        Err(stop) => {
            return (st, Err(stop));
        },
    };
    (st, Ok(hexpr(ty, true, HKind::Perform { op: op, args: args })))
}

/// The mailbox message type of the enclosing proc class, when the method
/// belongs to a subclass of the core class `Proc`.
pub fn proc_mailbox_type(cx: &Ctx, st: &Checker) -> (r: Option<Ty>)
    ensures
        r == model::system::proc_mailbox_type(cx, st),
{
    let class = match st.self_class {
        Some(found) => found,
        None => {
            return None;
        },
    };
    let proc_class = match find_literal(&cx.core_types, "Proc") {
        Some(found) => found,
        None => {
            return None;
        },
    };
    let args = match ancestor_args(cx, class, variables(&class_at(cx, class).type_params, 0u32), proc_class) {
        Some(found) => found,
        None => {
            return None;
        },
    };
    match args {
        Chain::Nil => None,
        Chain::Cons(first, _) => Some(*first),
    }
}

/// Resolve one surface member name inside a group to its operation slot.
/// The surface form is snake case.
pub fn resolve_sys_member(cx: &Ctx, group: &Text, member: &Text, span: Span) -> (r: Result<u32, Stop>)
    ensures
        r == model::system::resolve_sys_member(cx, group, member, span),
{
    if starts_upper(member) {
        if fixed_member(&cx.bundle, group, member).is_some() {
            Err(Stop::Fail(Diag { problem: Problem::UseSnakeCase, subject: snake_member(member), span: span }))
        } else {
            Err(named(Problem::NoOperation, member, span))
        }
    } else {
        match fixed_member(&cx.bundle, group, &camel_member(member)) {
            Some(op) => Ok(op),
            None => Err(named(Problem::NoOperation, member, span)),
        }
    }
}

/// Check a first-class operation value `sys.<group>.<member>`.
pub fn check_sys_value(cx: &Ctx, group: &Text, member: &Text, span: Span) -> (r: Result<HExpr, Stop>)
    ensures
        r == model::system::check_sys_value(cx, group, member, span),
        r is Ok ==> forall|room: Room| #[trigger] expr_ok(room, r->Ok_0),
{
    if is_text(&*group, "Vm") && is_text(&*member, "Vm") {
        return Err(unnamed(Problem::VmNotValue, span));
    }
    let op = match resolve_sys_member(cx, group, member, span) {
        Ok(found) => found,
        Err(stop) => {
            return Err(stop);
        },
    };
    let fn_ty = match op_fn_type(cx, op, span) {
        Ok(found) => found,
        Err(stop) => {
            return Err(stop);
        },
    };
    Ok(hexpr(Ty::Op(op, Box::new(fn_ty)), true, HKind::OpConst(op)))
}

/// The policy target of a group name.
pub fn group_target(groups: &Chain<GroupDef>, name: &Text, at: u32) -> (r: Option<Target>)
    ensures
        r == model::system::group_target(groups, name, at),
    decreases groups,
{
    match groups {
        Chain::Nil => None,
        Chain::Cons(head, tail) => {
            if same_text(&head.name, &*name) {
                Some(Target { kind: TargetKind::Group, slot: at, row: head.row })
            } else {
                group_target(tail, name, at.wrapping_add(1))
            }
        },
    }
}

/// The policy target of an operation name.
pub fn exact_target(ops: &Chain<OpDef>, group: &Text, member: &Text, at: u32) -> (r: Option<Target>)
    ensures
        r == model::system::exact_target(ops, group, member, at),
    decreases ops,
{
    match ops {
        Chain::Nil => None,
        Chain::Cons(head, tail) => {
            if same_text(&head.group, &*group) && same_text(&head.member, &*member) {
                Some(Target { kind: TargetKind::Exact, slot: at, row: head.row })
            } else {
                exact_target(tail, group, member, at.wrapping_add(1))
            }
        },
    }
}

/// Resolve a policy target: a group name such as `Io`, or an exact name
/// such as `Clock.Now`.
pub fn resolve_descriptor(cx: &Ctx, expr: &Expr) -> (r: Result<Target, Stop>)
    ensures
        r == model::system::resolve_descriptor(cx, expr),
        r matches Ok(target) ==> names_target(cx, target),
{
    match &*expr.kind {
        ExprKind::Name(name) => {
            match group_target(&cx.bundle.groups, name, 0u32) {
                Some(target) => Ok(target),
                None => Err(named(Problem::NotAGroup, name, expr.span)),
            }
        },
        ExprKind::Field { recv, name, name_span: _ } => {
            match &*recv.kind {
                ExprKind::Name(group) => {
                    match exact_target(&cx.bundle.ops, group, name, 0u32) {
                        Some(target) => Ok(target),
                        None => Err(Stop::Fail(Diag { problem: Problem::NotAnOperation, subject: dotted(group, name), span: expr.span })),
                    }
                },
                _ => Err(unnamed(Problem::TargetShape, expr.span)),
            }
        },
        _ => Err(unnamed(Problem::TargetShape, expr.span)),
    }
}

/// The `Result` type of a value and a core error class.
pub fn result_of(cx: &Ctx, value: Ty, error: &str, span: Span) -> (r: Result<Ty, Stop>)
    ensures
        r == model::system::result_of(cx, value, error, span),
{
    let error_ty = match core_class(cx, error, span) {
        Ok(found) => found,
        Err(stop) => {
            return Err(stop);
        },
    };
    core_inst(cx, "Result", two(value, error_ty), span)
}

/// Reject arguments on a native method that takes none.
pub fn expect_no_args(name: &Text, args: &Chain<Expr>, span: Span) -> (r: Result<(), Stop>)
    ensures
        r == model::system::expect_no_args(name, args, span),
{
    expect_arg_count(name, args, 0u32, span)
}

/// Require a number of arguments.
pub fn expect_arg_count(name: &Text, args: &Chain<Expr>, expected: u32, span: Span) -> (r: Result<(), Stop>)
    ensures
        r == model::system::expect_arg_count(name, args, expected, span),
{
    if count(args) == expected {
        Ok(())
    } else {
        Err(named(Problem::WrongArgumentCount { expected: expected, found: count(args) }, name, span))
    }
}

/// The slot of an intrinsic name.
pub fn find_intrinsic(items: &Chain<IntrinsicDef>, name: &Text, at: u32) -> (r: Option<u32>)
    ensures
        r == model::system::find_intrinsic(items, name, at),
    decreases items,
{
    match items {
        Chain::Nil => None,
        Chain::Cons(head, tail) => {
            if same_text(&head.name, &*name) {
                Some(at)
            } else {
                find_intrinsic(tail, name, at.wrapping_add(1))
            }
        },
    }
}

/// The method of a primitive class that one operator calls.
pub fn primitive_operator(
    cx: &Ctx,
    class_name: &str,
    name: &str,
    args: Chain<HExpr>,
    span: Span,
) -> (r: Result<HExpr, Stop>)
    ensures
        r == model::system::primitive_operator(cx, class_name, name, args, span),
        forall|st: Checker| #![trigger room(cx, st)] primitive_name(class_name) && operator_name(name) && exprs_ok(room(cx, st), args) ==> (r matches Ok(found) ==> expr_ok(room(cx, st), found)),
{
    proof {
        reveal(callee_covered);
    }
    let class = match core_id(cx, class_name, span) {
        Ok(found) => found,
        Err(stop) => {
            return Err(stop);
        },
    };
    match own_method(&class_at(cx, class).methods, &text(name)) {
        Some(method) => {
            proof {
                assert(core_method(cx, class_name, name) == Some(method.func));
            }
            Ok(hexpr(method.ret.clone(), true, HKind::Call { func: method.func, targs: Chain::Nil, rowargs: Chain::Nil, args: args }))
        },
        None => Err(Stop::Fail(Diag { problem: Problem::CoreMissing, subject: text(name), span: span })),
    }
}

/// The operator hook that the class of a type declares or inherits.
pub fn find_operator_hook(cx: &Ctx, ty: &Ty, hook: &str) -> (r: Option<OperatorHook>)
    ensures
        r == model::system::find_operator_hook(cx, ty, hook),
{
    let nominal = match class_of(cx, ty) {
        Some(found) => found,
        None => {
            return None;
        },
    };
    let found = match find_method_owner(cx, nominal.class, &text(hook)) {
        Some(found) => found,
        None => {
            return None;
        },
    };
    Some(OperatorHook { class: nominal.class, args: nominal.args, found: found })
}

/// The hook name of a binary operator.
pub fn hook_name(op: BinOp) -> (r: &'static str)
    ensures
        r == model::system::hook_name(op),
{
    match op {
        BinOp::Add => "__add__",
        BinOp::Sub => "__sub__",
        BinOp::Mul => "__mul__",
        BinOp::Div => "__div__",
        BinOp::Rem => "__rem__",
        BinOp::Eq => "__eq__",
        BinOp::Ne => "__ne__",
        BinOp::Lt => "__lt__",
        BinOp::Le => "__le__",
        BinOp::Gt => "__gt__",
        BinOp::Ge => "__ge__",
        BinOp::BitAnd => "__and__",
        BinOp::BitOr => "__or__",
        BinOp::BitXor => "__xor__",
        BinOp::Shl => "__shl__",
        BinOp::Shr => "__shr__",
        BinOp::Ushr => "__ushr__",
    }
}

/// How an operator is written.
pub fn operator_text(op: BinOp) -> (r: Text)
    ensures
        r == model::system::operator_text(op),
{
    match op {
        BinOp::Add => text("+"),
        BinOp::Sub => text("-"),
        BinOp::Mul => text("*"),
        BinOp::Div => text("/"),
        BinOp::Rem => text("%"),
        BinOp::Eq => text("=="),
        BinOp::Ne => text("!="),
        BinOp::Lt => text("<"),
        BinOp::Le => text("<="),
        BinOp::Gt => text(">"),
        BinOp::Ge => text(">="),
        BinOp::BitAnd => text("&"),
        BinOp::BitOr => text("|"),
        BinOp::BitXor => text("^"),
        BinOp::Shl => text("<<"),
        BinOp::Shr => text(">>"),
        BinOp::Ushr => text(">>>"),
    }
}

/// The frozen copy of a value.
pub fn freeze_expr(recv: HExpr) -> (r: HExpr)
    ensures
        r == model::system::freeze_expr(recv),
{
    let ty = recv.ty.clone();
    let mutable = recv.mutable;
    hexpr(ty, mutable, HKind::Native { op: NativeOp::Freeze, args: one(recv) })
}

/// The canonical digest of one frozen graph.
pub fn digest_expr(recv: HExpr) -> (r: HExpr)
    ensures
        r == model::system::digest_expr(recv),
{
    hexpr(Ty::Digest, true, HKind::Native { op: NativeOp::Digest, args: one(recv) })
}

/// The native methods of lists and maps.
pub fn native_method(cx: &Ctx, ty: &Ty, name: &Text) -> (r: Result<Option<NativeMethod>, Stop>)
    ensures
        r == model::system::native_method(cx, ty, name),
{
    match ty {
        Ty::ListOf(item) => Ok(list_method(cx, item, name)),
        Ty::MapOf(key, value) => {
            match map_key_use(name) {
                None => {
                    if is_text(&*name, "len") {
                        Ok(Some(NativeMethod { op: NativeOp::MapLen, params: Chain::Nil, names: Chain::Nil, ret: Ty::Int, needs_mut: false }))
                    } else {
                        Ok(None)
                    }
                },
                Some(usage) => {
                    let key_param = match map_key_parameter(cx, key, usage) {
                        Ok(found) => found,
                        Err(stop) => {
                            return Err(stop);
                        },
                    };
                    Ok(map_method(cx, key_param.ty, value, name))
                },
            }
        },
        _ => Ok(None),
    }
}

/// The native methods of lists.
pub fn list_method(cx: &Ctx, item: &Ty, name: &Text) -> (r: Option<NativeMethod>)
    ensures
        r == model::system::list_method(cx, item, name),
{
    if is_text(&*name, "len") {
        return Some(NativeMethod { op: NativeOp::ListLen, params: Chain::Nil, names: Chain::Nil, ret: Ty::Int, needs_mut: false });
    }
    if is_text(&*name, "at") {
        return Some(NativeMethod { op: NativeOp::ListAt, params: one(Ty::Int), names: one(text("index")), ret: (*item).clone(), needs_mut: false });
    }
    if is_text(&*name, "push") {
        return Some(NativeMethod { op: NativeOp::ListPush, params: one((*item).clone()), names: one(text("value")), ret: Ty::Unit, needs_mut: true });
    }
    if is_text(&*name, "get") {
        Some(NativeMethod { op: NativeOp::ListGet, params: one(Ty::Int), names: one(text("index")), ret: option_of(cx, (*item).clone()), needs_mut: false })
    } else {
        None
    }
}

/// The native methods of maps.
pub fn map_method(cx: &Ctx, key: Ty, value: &Ty, name: &Text) -> (r: Option<NativeMethod>)
    ensures
        r == model::system::map_method(cx, key, value, name),
{
    if is_text(&*name, "has") {
        return Some(NativeMethod { op: NativeOp::MapHas, params: one(key), names: one(text("key")), ret: Ty::Bool, needs_mut: false });
    }
    if is_text(&*name, "at") {
        return Some(NativeMethod { op: NativeOp::MapAt, params: one(key), names: one(text("key")), ret: (*value).clone(), needs_mut: false });
    }
    if is_text(&*name, "put") {
        return Some(NativeMethod { op: NativeOp::MapPut, params: two(key, (*value).clone()), names: two(text("key"), text("value")), ret: Ty::Unit, needs_mut: true });
    }
    if is_text(&*name, "get") {
        Some(NativeMethod { op: NativeOp::MapGet, params: one(key), names: one(text("key")), ret: option_of(cx, (*value).clone()), needs_mut: false })
    } else {
        None
    }
}

/// Whether an element read keeps the capability of its receiver.
pub fn reads_element(op: NativeOp) -> (r: bool)
    ensures
        r == model::system::reads_element(op),
{
    match op {
        NativeOp::ListAt => true,
        NativeOp::MapAt => true,
        NativeOp::ListGet => true,
        NativeOp::MapGet => true,
        _ => false,
    }
}

/// The operation behind one file method.
pub fn file_op(slots: ControlSlots, name: &Text) -> (r: Option<u32>)
    ensures
        r == model::system::file_op(slots, name),
{
    if is_text(&*name, "read") {
        return Some(slots.fs_read);
    }
    if is_text(&*name, "write") {
        return Some(slots.fs_write);
    }
    if is_text(&*name, "seek") {
        return Some(slots.fs_seek);
    }
    if is_text(&*name, "flush") {
        return Some(slots.fs_flush);
    }
    if is_text(&*name, "close") {
        Some(slots.fs_close)
    } else {
        None
    }
}

/// The parameter names of one file method, the receiver left out.
pub fn file_names(name: &Text) -> (r: Chain<Text>)
    ensures
        r == model::system::file_names(name),
{
    if is_text(&*name, "read") {
        return one(text("max_bytes"));
    }
    if is_text(&*name, "write") {
        return one(text("bytes"));
    }
    if is_text(&*name, "seek") {
        one(text("from"))
    } else {
        Chain::Nil
    }
}

/// Whether a type has native control methods.
pub fn is_control_type(ty: &Ty) -> (r: bool)
    ensures
        r == model::system::is_control_type(ty),
{
    match ty {
        Ty::EmptyVm => true,
        Ty::Vm(_) => true,
        Ty::Wait(_) => true,
        Ty::PolicyTable => true,
        Ty::Request => true,
        Ty::PendingCall(_, _) => true,
        Ty::Handle(_, _) => true,
        Ty::ResourceHandle => true,
        Ty::Fault => true,
        _ => false,
    }
}

/// The edit of one policy-table method.
pub fn table_action(name: &Text) -> (r: Option<TableAction>)
    ensures
        r == model::system::table_action(name),
{
    if is_text(&*name, "pass") {
        return Some(TableAction::Pass);
    }
    if is_text(&*name, "block") {
        return Some(TableAction::Block);
    }
    if is_text(&*name, "mock") {
        return Some(TableAction::Mock);
    }
    if is_text(&*name, "clear") {
        Some(TableAction::Clear)
    } else {
        None
    }
}

/// Whether a class is an opaque syntax class of the core image.
pub fn is_opaque_syntax(cx: &Ctx, class: u32) -> (r: bool)
    ensures
        r == model::system::is_opaque_syntax(cx, class),
{
    is_core_class(cx, class, "SyntaxTree") || is_core_class(cx, class, "SyntaxElement") || is_core_class(cx, class, "SyntaxNode")
    || is_core_class(cx, class, "SyntaxToken") || is_core_class(cx, class, "SyntaxTrivia")
}

/// Whether values of a native class come from the machine only.
pub fn is_machine_made(repr: Option<NativeRepr>) -> (r: bool)
    ensures
        r == model::system::is_machine_made(repr),
{
    match repr {
        Some(NativeRepr::Text) => true,
        Some(NativeRepr::Substring) => true,
        Some(NativeRepr::Char) => true,
        Some(NativeRepr::TcpResource) => true,
        Some(NativeRepr::TcpStream) => true,
        Some(NativeRepr::TcpListener) => true,
        Some(NativeRepr::TlsStream) => true,
        Some(NativeRepr::Artifact) => true,
        Some(NativeRepr::VerifiedModule) => true,
        Some(NativeRepr::SlotSpec) => true,
        Some(NativeRepr::CodeInstance) => true,
        Some(NativeRepr::Slot) => true,
        Some(NativeRepr::FunctionDef) => true,
        Some(NativeRepr::ClassDef) => true,
        Some(NativeRepr::DynValue) => true,
        _ => false,
    }
}

/// Why a class cannot be constructed by name.
pub fn construct_problem(cx: &Ctx, env: &TyEnv, class: u32) -> (r: Option<Problem>)
    ensures
        r == model::system::construct_problem(cx, env, class),
{
    let info = class_at(cx, class);
    if !env.core_scope && is_text(&info.name, "SocketAddress") && is_core_class(cx, class, "SocketAddress") {
        return Some(Problem::UseTcpAddress);
    }
    if !env.core_scope && is_opaque_syntax(cx, class) {
        return Some(Problem::NotConstructible);
    }
    if is_machine_made(info.native_repr) {
        Some(Problem::NotConstructible)
    } else {
        None
    }
}

/// Resolve a constructor name to an arm class. `None` when no enum in
/// scope declares the name.
pub fn resolve_ctor(cx: &Ctx, env: &TyEnv, name: &Text, expected: Option<&Ty>, span: Span) -> (r: Result<Option<u32>, Stop>)
    ensures
        r == model::system::resolve_ctor(cx, env, name, expected, span),
        r matches Ok(Some(arm)) ==> is_arm(cx, arm),
{
    match expected_arm(cx, expected, name) {
        Some(arm) => Ok(Some(arm)),
        None => {
            match ctor_families(cx, env, name) {
                Chain::Nil => Ok(None),
                Chain::Cons(family, rest) => {
                    if rest.is_empty() {
                        Ok(find_arm(cx, *family, name))
                    } else {
                        Err(named(Problem::AmbiguousConstructor { family: *family }, name, span))
                    }
                },
            }
        },
    }
}

/// The arm of one name in the enum that an expected type names.
pub fn expected_arm(cx: &Ctx, expected: Option<&Ty>, name: &Text) -> (r: Option<u32>)
    ensures
        r == model::system::expected_arm(cx, expected, name),
{
    let ty = match expected {
        Some(found) => found,
        None => {
            return None;
        },
    };
    let nominal = match class_of(cx, ty) {
        Some(found) => found,
        None => {
            return None;
        },
    };
    let family = match family_of(cx, nominal.class) {
        Some(found) => found,
        None => {
            return None;
        },
    };
    find_arm(cx, family, name)
}

/// The arm of one name in an enum that a qualifier names.
pub fn qualified_arm(cx: &Ctx, family: u32, name: &Text, span: Span) -> (r: Result<u32, Stop>)
    ensures
        r == model::system::qualified_arm(cx, family, name, span),
        r matches Ok(arm) ==> is_arm(cx, arm),
{
    match find_arm(cx, family, name) {
        Some(arm) => Ok(arm),
        None => Err(named(Problem::NoArm { family: family }, name, span)),
    }
}

} // verus!
