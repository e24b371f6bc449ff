//! The operations of the manifest as the language names them.
//!
//! The functions here state what the functions of the same name compute.

use vstd::prelude::*;
use crate::abi::{AbiType, ControlSlots, GroupDef, IntrinsicDef, OpDef, PrimKind};
use crate::ast::{BinOp, Expr, ExprKind, Span};
use crate::chain::{Chain, chain_of};
use crate::context::{Ctx, NativeRepr, TyEnv};
use crate::hir::{HExpr, HKind, NativeOp, TableAction, TargetKind};
use crate::model::classes::is_core_class;
use crate::model::conform::{find_method_owner, option_of};
use crate::model::infer::{map_key_parameter, map_key_use};
use crate::model::lists::{cons, count, falses, find_id, find_literal, nth, one, two};
use crate::model::lookup::{ancestor_args, class_at, class_of, core_class, core_id, core_inst, ctor_families, family_of, find_arm, own_method, type_for_nominal};
use crate::model::names::{camel_member, dotted, snake_member, starts_upper};
use crate::model::resolve::{named, unnamed};
use crate::model::scope::{charge_row, hexpr};
use crate::model::subst::variables;
use crate::model::uses::fixed_member;
use crate::problem::{Diag, Problem, Stop};
use crate::state::{Checker, NativeMethod, OperatorHook, Target};
use crate::text::Text;
use crate::types::{RowElem, Ty};

verus! {

/// The type of each manifest type.
pub open spec fn abi_types(cx: &Ctx, items: &Chain<AbiType>, vars: &Chain<Ty>, span: Span) -> Result<Chain<Ty>, Stop>
    decreases items,
{
    match items {
        Chain::Nil => Ok(Chain::Nil),
        Chain::Cons(head, tail) => {
            match abi_type(cx, head, vars, span) {
                Err(stop) => Err(stop),
                Ok(first) => {
                    match abi_types(cx, tail, vars, span) {
                        Err(stop) => Err(stop),
                        Ok(rest) => {
                            Ok(cons(first, rest))
                        },
                    }
                },
            }
        },
    }
}

/// The core class of a name that the manifest uses.
pub open spec fn manifest_class(cx: &Ctx, name: &Text, span: Span) -> Result<u32, Stop>
{
    match find_id(&cx.core_types, name) {
        Some(class) => Ok(class),
        None => Err(named(Problem::CoreMissing, name, span)),
    }
}

/// The type of one manifest type. `vars` are the type variables of an
/// intrinsic.
pub open spec fn abi_type(cx: &Ctx, ty: &AbiType, vars: &Chain<Ty>, span: Span) -> Result<Ty, Stop>
    decreases ty,
{
    match ty {
        AbiType::Primitive(kind) => Ok(primitive_type(*kind)),
        AbiType::Core(name) => {
            match manifest_class(cx, name, span) {
                Err(stop) => Err(stop),
                Ok(class) => {
                    Ok(Ty::Class(class))
                },
            }
        },
        AbiType::Native(name) => {
            match manifest_class(cx, name, span) {
                Err(stop) => Err(stop),
                Ok(class) => {
                    Ok(type_for_nominal(cx, class, Chain::Nil))
                },
            }
        },
        AbiType::ListOf(item) => {
            match abi_type(cx, item, vars, span) {
                Err(stop) => Err(stop),
                Ok(element) => {
                    Ok(Ty::ListOf(Box::new(element)))
                },
            }
        },
        AbiType::MapOf(key, value) => {
            match abi_type(cx, key, vars, span) {
                Err(stop) => Err(stop),
                Ok(key_ty) => {
                    match abi_type(cx, value, vars, span) {
                        Err(stop) => Err(stop),
                        Ok(value_ty) => {
                            Ok(Ty::MapOf(Box::new(key_ty), Box::new(value_ty)))
                        },
                    }
                },
            }
        },
        AbiType::Tuple(items) => {
            match abi_types(cx, items, vars, span) {
                Err(stop) => Err(stop),
                Ok(elements) => {
                    Ok(Ty::Tuple(elements))
                },
            }
        },
        AbiType::Apply(name, args) => {
            match manifest_class(cx, name, span) {
                Err(stop) => Err(stop),
                Ok(class) => {
                    match abi_types(cx, args, vars, span) {
                        Err(stop) => Err(stop),
                        Ok(arguments) => {
                            Ok(Ty::Inst(class, arguments))
                        },
                    }
                },
            }
        },
        AbiType::Var(index) => {
            match nth(vars, *index) {
                Some(found) => Ok(*found),
                None => Ok(Ty::Var(*index)),
            }
        },
        AbiType::Resource => Ok(Ty::FileHandle),
    }
}

/// The type of one primitive of the manifest.
pub open spec fn primitive_type(kind: PrimKind) -> Ty
{
    match kind {
        PrimKind::Unit => Ty::Unit,
        PrimKind::Bool => Ty::Bool,
        PrimKind::Int => Ty::Int,
        PrimKind::Float => Ty::Float,
        PrimKind::Str => Ty::Str,
        PrimKind::Bytes => Ty::Bytes,
        PrimKind::FileHandle => Ty::FileHandle,
        PrimKind::SnapshotImage => Ty::SnapshotImage,
        PrimKind::Never => Ty::Never,
    }
}

/// The operation at one manifest slot.
pub open spec fn op_at<'a>(cx: &'a Ctx, op: u32, span: Span) -> Result<&'a OpDef, Stop>
{
    match nth(&cx.bundle.ops, op) {
        Some(def) => Ok(def),
        None => Err(unnamed(Problem::NotInManifest, span)),
    }
}

/// The parameter types of one operation.
pub open spec fn op_params(cx: &Ctx, op: u32, span: Span) -> Result<Chain<Ty>, Stop>
{
    match op_at(cx, op, span) {
        Err(stop) => Err(stop),
        Ok(def) => {
            abi_types(cx, &def.params, &Chain::Nil, span)
        },
    }
}

/// The reply type of one operation.
pub open spec fn op_reply(cx: &Ctx, op: u32, span: Span) -> Result<Ty, Stop>
{
    match op_at(cx, op, span) {
        Err(stop) => Err(stop),
        Ok(def) => {
            abi_type(cx, &def.reply, &Chain::Nil, span)
        },
    }
}

/// The callable function type of one operation.
pub open spec fn op_fn_type(cx: &Ctx, op: u32, span: Span) -> Result<Ty, Stop>
{
    match op_params(cx, op, span) {
        Err(stop) => Err(stop),
        Ok(params) => {
            match op_reply(cx, op, span) {
                Err(stop) => Err(stop),
                Ok(reply) => {
                    let muts = falses(&params);
                    Ok(Ty::Fn(params, muts, Box::new(reply), Chain::Nil))
                },
            }
        },
    }
}

/// The type of a value that stands for several arguments: the unit type
/// for none, a tuple otherwise.
pub open spec fn packed(items: Chain<Ty>) -> Ty
{
    if items.is_empty() {
        Ty::Unit
    } else {
        Ty::Tuple(items)
    }
}

/// The argument-view type of one operation.
pub open spec fn op_args_type(cx: &Ctx, op: u32, span: Span) -> Result<Ty, Stop>
{
    match op_params(cx, op, span) {
        Err(stop) => Err(stop),
        Ok(params) => {
            Ok(packed(params))
        },
    }
}

/// Charge one exact operation to the enclosing row.
pub open spec fn charge_op(cx: &Ctx, st: Checker, op: u32, span: Span) -> (Checker, Result<(), Stop>)
{
    match op_at(cx, op, span) {
        Err(stop) => (st, Err(stop)),
        Ok(def) => {
            charge_row(cx, st, &one(RowElem::Op(def.row)), span)
        },
    }
}

/// Charge one operation and perform it.
pub open spec fn perform(
    cx: &Ctx,
    st: Checker,
    op: u32,
    args: Chain<HExpr>,
    ty: Ty,
    span: Span,
) -> (Checker, Result<HExpr, Stop>)
{
    match charge_op(cx, st, op, span) {
        (st, Err(stop)) => (st, Err(stop)),
        (st, Ok(_charged)) => {
            (st, Ok(hexpr(ty, true, HKind::Perform { op: op, args: args })))
        },
    }
}

/// The mailbox message type of the enclosing proc class, when the method
/// belongs to a subclass of the core class `Proc`.
pub open spec fn proc_mailbox_type(cx: &Ctx, st: &Checker) -> Option<Ty>
{
    match st.self_class {
        None => None,
        Some(class) => {
            match find_literal(&cx.core_types, "Proc") {
                None => None,
                Some(proc_class) => {
                    match ancestor_args(cx, class, variables(&class_at(cx, class).type_params, 0u32), proc_class) {
                        None => None,
                        Some(args) => {
                            match args {
                                Chain::Nil => None,
                                Chain::Cons(first, _) => Some(*first),
                            }
                        },
                    }
                },
            }
        },
    }
}

/// Resolve one surface member name inside a group to its operation slot.
/// The surface form is snake case.
pub open spec fn resolve_sys_member(cx: &Ctx, group: &Text, member: &Text, span: Span) -> Result<u32, Stop>
{
    if starts_upper(member) {
        if fixed_member(&cx.bundle, group, member).is_some() {
            Err(Stop::Fail(Diag { problem: Problem::UseSnakeCase, subject: snake_member(member), span: span }))
        } else {
            Err(named(Problem::NoOperation, member, span))
        }
    } else {
        match fixed_member(&cx.bundle, group, &camel_member(member)) {
            Some(op) => Ok(op),
            None => Err(named(Problem::NoOperation, member, span)),
        }
    }
}

/// Check a first-class operation value `sys.<group>.<member>`.
pub open spec fn check_sys_value(cx: &Ctx, group: &Text, member: &Text, span: Span) -> Result<HExpr, Stop>
{
    if ((*group)@ == "Vm"@) && ((*member)@ == "Vm"@) {
        Err(unnamed(Problem::VmNotValue, span))
    } else {
        match resolve_sys_member(cx, group, member, span) {
            Err(stop) => Err(stop),
            Ok(op) => {
                match op_fn_type(cx, op, span) {
                    Err(stop) => Err(stop),
                    Ok(fn_ty) => {
                        Ok(hexpr(Ty::Op(op, Box::new(fn_ty)), true, HKind::OpConst(op)))
                    },
                }
            },
        }
    }
}

/// The policy target of a group name.
pub open spec fn group_target(groups: &Chain<GroupDef>, name: &Text, at: u32) -> Option<Target>
    decreases groups,
{
    match groups {
        Chain::Nil => None,
        Chain::Cons(head, tail) => {
            if (head.name == *name) {
                Some(Target { kind: TargetKind::Group, slot: at, row: head.row })
            } else {
                group_target(tail, name, at.wrapping_add(1))
            }
        },
    }
}

/// The policy target of an operation name.
pub open spec fn exact_target(ops: &Chain<OpDef>, group: &Text, member: &Text, at: u32) -> Option<Target>
    decreases ops,
{
    match ops {
        Chain::Nil => None,
        Chain::Cons(head, tail) => {
            if (head.group == *group) && (head.member == *member) {
                Some(Target { kind: TargetKind::Exact, slot: at, row: head.row })
            } else {
                exact_target(tail, group, member, at.wrapping_add(1))
            }
        },
    }
}

/// Resolve a policy target: a group name such as `Io`, or an exact name
/// such as `Clock.Now`.
pub open spec fn resolve_descriptor(cx: &Ctx, expr: &Expr) -> Result<Target, Stop>
{
    match &*expr.kind {
        ExprKind::Name(name) => {
            match group_target(&cx.bundle.groups, name, 0u32) {
                Some(target) => Ok(target),
                None => Err(named(Problem::NotAGroup, name, expr.span)),
            }
        },
        ExprKind::Field { recv, name, name_span: _ } => {
            match &*recv.kind {
                ExprKind::Name(group) => {
                    match exact_target(&cx.bundle.ops, group, name, 0u32) {
                        Some(target) => Ok(target),
                        None => Err(Stop::Fail(Diag { problem: Problem::NotAnOperation, subject: dotted(group, name), span: expr.span })),
                    }
                },
                _ => Err(unnamed(Problem::TargetShape, expr.span)),
            }
        },
        _ => Err(unnamed(Problem::TargetShape, expr.span)),
    }
}

/// The `Result` type of a value and a core error class.
pub open spec fn result_of(cx: &Ctx, value: Ty, error: &str, span: Span) -> Result<Ty, Stop>
{
    match core_class(cx, error, span) {
        Err(stop) => Err(stop),
        Ok(error_ty) => {
            core_inst(cx, "Result", two(value, error_ty), span)
        },
    }
}

/// Reject arguments on a native method that takes none.
pub open spec fn expect_no_args(name: &Text, args: &Chain<Expr>, span: Span) -> Result<(), Stop>
{
    expect_arg_count(name, args, 0u32, span)
}

/// Require a number of arguments.
pub open spec fn expect_arg_count(name: &Text, args: &Chain<Expr>, expected: u32, span: Span) -> Result<(), Stop>
{
    if count(args) == expected {
        Ok(())
    } else {
        Err(named(Problem::WrongArgumentCount { expected: expected, found: count(args) }, name, span))
    }
}

/// The slot of an intrinsic name.
pub open spec fn find_intrinsic(items: &Chain<IntrinsicDef>, name: &Text, at: u32) -> Option<u32>
    decreases items,
{
    match items {
        Chain::Nil => None,
        Chain::Cons(head, tail) => {
            if (head.name == *name) {
                Some(at)
            } else {
                find_intrinsic(tail, name, at.wrapping_add(1))
            }
        },
    }
}

/// The method of a primitive class that one operator calls.
pub open spec fn primitive_operator(
    cx: &Ctx,
    class_name: &str,
    name: &str,
    args: Chain<HExpr>,
    span: Span,
) -> Result<HExpr, Stop>
{
    match core_id(cx, class_name, span) {
        Err(stop) => Err(stop),
        Ok(class) => {
            match own_method(&class_at(cx, class).methods, &chain_of(name@)) {
                Some(method) => {
                    Ok(hexpr(method.ret, true, HKind::Call { func: method.func, targs: Chain::Nil, rowargs: Chain::Nil, args: args }))
                },
                None => Err(Stop::Fail(Diag { problem: Problem::CoreMissing, subject: chain_of(name@), span: span })),
            }
        },
    }
}

/// The operator hook that the class of a type declares or inherits.
pub open spec fn find_operator_hook(cx: &Ctx, ty: &Ty, hook: &str) -> Option<OperatorHook>
{
    match class_of(cx, ty) {
        None => None,
        Some(nominal) => {
            match find_method_owner(cx, nominal.class, &chain_of(hook@)) {
                None => None,
                Some(found) => {
                    Some(OperatorHook { class: nominal.class, args: nominal.args, found: found })
                },
            }
        },
    }
}

/// The hook name of a binary operator.
pub open spec fn hook_name(op: BinOp) -> &'static str
{
    match op {
        BinOp::Add => "__add__",
        BinOp::Sub => "__sub__",
        BinOp::Mul => "__mul__",
        BinOp::Div => "__div__",
        BinOp::Rem => "__rem__",
        BinOp::Eq => "__eq__",
        BinOp::Ne => "__ne__",
        BinOp::Lt => "__lt__",
        BinOp::Le => "__le__",
        BinOp::Gt => "__gt__",
        BinOp::Ge => "__ge__",
        BinOp::BitAnd => "__and__",
        BinOp::BitOr => "__or__",
        BinOp::BitXor => "__xor__",
        BinOp::Shl => "__shl__",
        BinOp::Shr => "__shr__",
        BinOp::Ushr => "__ushr__",
    }
}

/// How an operator is written.
pub open spec fn operator_text(op: BinOp) -> Text
{
    match op {
        BinOp::Add => chain_of("+"@),
        BinOp::Sub => chain_of("-"@),
        BinOp::Mul => chain_of("*"@),
        BinOp::Div => chain_of("/"@),
        BinOp::Rem => chain_of("%"@),
        BinOp::Eq => chain_of("=="@),
        BinOp::Ne => chain_of("!="@),
        BinOp::Lt => chain_of("<"@),
        BinOp::Le => chain_of("<="@),
        BinOp::Gt => chain_of(">"@),
        BinOp::Ge => chain_of(">="@),
        BinOp::BitAnd => chain_of("&"@),
        BinOp::BitOr => chain_of("|"@),
        BinOp::BitXor => chain_of("^"@),
        BinOp::Shl => chain_of("<<"@),
        BinOp::Shr => chain_of(">>"@),
        BinOp::Ushr => chain_of(">>>"@),
    }
}

/// The frozen copy of a value.
pub open spec fn freeze_expr(recv: HExpr) -> HExpr
{
    let ty = recv.ty;
    let mutable = recv.mutable;
    hexpr(ty, mutable, HKind::Native { op: NativeOp::Freeze, args: one(recv) })
}

/// The canonical digest of one frozen graph.
pub open spec fn digest_expr(recv: HExpr) -> HExpr
{
    hexpr(Ty::Digest, true, HKind::Native { op: NativeOp::Digest, args: one(recv) })
}

/// The native methods of lists and maps.
pub open spec fn native_method(cx: &Ctx, ty: &Ty, name: &Text) -> Result<Option<NativeMethod>, Stop>
{
    match ty {
        Ty::ListOf(item) => Ok(list_method(cx, item, name)),
        Ty::MapOf(key, value) => {
            match map_key_use(name) {
                None => {
                    if ((*name)@ == "len"@) {
                        Ok(Some(NativeMethod { op: NativeOp::MapLen, params: Chain::Nil, names: Chain::Nil, ret: Ty::Int, needs_mut: false }))
                    } else {
                        Ok(None)
                    }
                },
                Some(usage) => {
                    match map_key_parameter(cx, key, usage) {
                        Err(stop) => Err(stop),
                        Ok(key_param) => {
                            Ok(map_method(cx, key_param.ty, value, name))
                        },
                    }
                },
            }
        },
        _ => Ok(None),
    }
}

/// The native methods of lists.
pub open spec fn list_method(cx: &Ctx, item: &Ty, name: &Text) -> Option<NativeMethod>
{
    if ((*name)@ == "len"@) {
        Some(NativeMethod { op: NativeOp::ListLen, params: Chain::Nil, names: Chain::Nil, ret: Ty::Int, needs_mut: false })
    } else if ((*name)@ == "at"@) {
        Some(NativeMethod { op: NativeOp::ListAt, params: one(Ty::Int), names: one(chain_of("index"@)), ret: *item, needs_mut: false })
    } else if ((*name)@ == "push"@) {
        Some(NativeMethod { op: NativeOp::ListPush, params: one(*item), names: one(chain_of("value"@)), ret: Ty::Unit, needs_mut: true })
    } else if ((*name)@ == "get"@) {
        Some(NativeMethod { op: NativeOp::ListGet, params: one(Ty::Int), names: one(chain_of("index"@)), ret: option_of(cx, *item), needs_mut: false })
    } else {
        None
    }
}

/// The native methods of maps.
pub open spec fn map_method(cx: &Ctx, key: Ty, value: &Ty, name: &Text) -> Option<NativeMethod>
{
    if ((*name)@ == "has"@) {
        Some(NativeMethod { op: NativeOp::MapHas, params: one(key), names: one(chain_of("key"@)), ret: Ty::Bool, needs_mut: false })
    } else if ((*name)@ == "at"@) {
        Some(NativeMethod { op: NativeOp::MapAt, params: one(key), names: one(chain_of("key"@)), ret: *value, needs_mut: false })
    } else if ((*name)@ == "put"@) {
        Some(NativeMethod { op: NativeOp::MapPut, params: two(key, *value), names: two(chain_of("key"@), chain_of("value"@)), ret: Ty::Unit, needs_mut: true })
    } else if ((*name)@ == "get"@) {
        Some(NativeMethod { op: NativeOp::MapGet, params: one(key), names: one(chain_of("key"@)), ret: option_of(cx, *value), needs_mut: false })
    } else {
        None
    }
}

/// Whether an element read keeps the capability of its receiver.
pub open spec fn reads_element(op: NativeOp) -> bool
{
    match op {
        NativeOp::ListAt => true,
        NativeOp::MapAt => true,
        NativeOp::ListGet => true,
        NativeOp::MapGet => true,
        _ => false,
    }
}

/// The operation behind one file method.
pub open spec fn file_op(slots: ControlSlots, name: &Text) -> Option<u32>
{
    if ((*name)@ == "read"@) {
        Some(slots.fs_read)
    } else if ((*name)@ == "write"@) {
        Some(slots.fs_write)
    } else if ((*name)@ == "seek"@) {
        Some(slots.fs_seek)
    } else if ((*name)@ == "flush"@) {
        Some(slots.fs_flush)
    } else if ((*name)@ == "close"@) {
        Some(slots.fs_close)
    } else {
        None
    }
}

/// The parameter names of one file method, the receiver left out.
pub open spec fn file_names(name: &Text) -> Chain<Text>
{
    if ((*name)@ == "read"@) {
        one(chain_of("max_bytes"@))
    } else if ((*name)@ == "write"@) {
        one(chain_of("bytes"@))
    } else if ((*name)@ == "seek"@) {
        one(chain_of("from"@))
    } else {
        Chain::Nil
    }
}

/// Whether a type has native control methods.
pub open spec fn is_control_type(ty: &Ty) -> bool
{
    match ty {
        Ty::EmptyVm => true,
        Ty::Vm(_) => true,
        Ty::Wait(_) => true,
        Ty::PolicyTable => true,
        Ty::Request => true,
        Ty::PendingCall(_, _) => true,
        Ty::Handle(_, _) => true,
        Ty::ResourceHandle => true,
        Ty::Fault => true,
        _ => false,
    }
}

/// The edit of one policy-table method.
pub open spec fn table_action(name: &Text) -> Option<TableAction>
{
    if ((*name)@ == "pass"@) {
        Some(TableAction::Pass)
    } else if ((*name)@ == "block"@) {
        Some(TableAction::Block)
    } else if ((*name)@ == "mock"@) {
        Some(TableAction::Mock)
    } else if ((*name)@ == "clear"@) {
        Some(TableAction::Clear)
    } else {
        None
    }
}

/// Whether a class is an opaque syntax class of the core image.
pub open spec fn is_opaque_syntax(cx: &Ctx, class: u32) -> bool
{
    is_core_class(cx, class, "SyntaxTree") || is_core_class(cx, class, "SyntaxElement") || is_core_class(cx, class, "SyntaxNode")
    || is_core_class(cx, class, "SyntaxToken") || is_core_class(cx, class, "SyntaxTrivia")
}

/// Whether values of a native class come from the machine only.
pub open spec fn is_machine_made(repr: Option<NativeRepr>) -> bool
{
    match repr {
        Some(NativeRepr::Text) => true,
        Some(NativeRepr::Substring) => true,
        Some(NativeRepr::Char) => true,
        Some(NativeRepr::TcpResource) => true,
        Some(NativeRepr::TcpStream) => true,
        Some(NativeRepr::TcpListener) => true,
        Some(NativeRepr::TlsStream) => true,
        Some(NativeRepr::Artifact) => true,
        Some(NativeRepr::VerifiedModule) => true,
        Some(NativeRepr::SlotSpec) => true,
        Some(NativeRepr::CodeInstance) => true,
        Some(NativeRepr::Slot) => true,
        Some(NativeRepr::FunctionDef) => true,
        Some(NativeRepr::ClassDef) => true,
        Some(NativeRepr::DynValue) => true,
        _ => false,
    }
}

/// Why a class cannot be constructed by name.
pub open spec fn construct_problem(cx: &Ctx, env: &TyEnv, class: u32) -> Option<Problem>
{
    let info = class_at(cx, class);
    if !env.core_scope && (info.name@ == "SocketAddress"@) && is_core_class(cx, class, "SocketAddress") {
        Some(Problem::UseTcpAddress)
    } else if !env.core_scope && is_opaque_syntax(cx, class) {
        Some(Problem::NotConstructible)
    } else if is_machine_made(info.native_repr) {
        Some(Problem::NotConstructible)
    } else {
        None
    }
}

/// Resolve a constructor name to an arm class. `None` when no enum in
/// scope declares the name.
pub open spec fn resolve_ctor(cx: &Ctx, env: &TyEnv, name: &Text, expected: Option<&Ty>, span: Span) -> Result<Option<u32>, Stop>
{
    match expected_arm(cx, expected, name) {
        Some(arm) => Ok(Some(arm)),
        None => {
            match ctor_families(cx, env, name) {
                Chain::Nil => Ok(None),
                Chain::Cons(family, rest) => {
                    if rest.is_empty() {
                        Ok(find_arm(cx, *family, name))
                    } else {
                        Err(named(Problem::AmbiguousConstructor { family: *family }, name, span))
                    }
                },
            }
        },
    }
}

/// The arm of one name in the enum that an expected type names.
pub open spec fn expected_arm(cx: &Ctx, expected: Option<&Ty>, name: &Text) -> Option<u32>
{
    match expected {
        None => None,
        Some(ty) => {
            match class_of(cx, ty) {
                None => None,
                Some(nominal) => {
                    match family_of(cx, nominal.class) {
                        None => None,
                        Some(family) => {
                            find_arm(cx, family, name)
                        },
                    }
                },
            }
        },
    }
}

/// The arm of one name in an enum that a qualifier names.
pub open spec fn qualified_arm(cx: &Ctx, family: u32, name: &Text, span: Span) -> Result<u32, Stop>
{
    match find_arm(cx, family, name) {
        Some(arm) => Ok(arm),
        None => Err(named(Problem::NoArm { family: family }, name, span)),
    }
}

} // verus!
