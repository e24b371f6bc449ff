//! What a module demands of a compiled core: the definitions that it can
//! name, and the methods that it can call.

use vstd::prelude::*;
use crate::abi::{AbiType, Bundle};
use crate::ast::{ArmDef, ArmField, AssociatedType, CaseArm, ClassDef, ConformanceRef, EnumDef, Expr, ExprKind, FieldDef, FuncDef, GenericParam, IfArm, InterfaceDef, InterfaceMethod, InterfaceRef, InterpPart, MapEntry, MethodDef, Module, Param, Pattern, PatternKind, PremiseDef, SelectArm, Stmt, StmtKind, TypeExpr, TypeExprKind, UseDecl};
use crate::chain::{Chain, chain_of, copy_chain};
use crate::lists::holds_name;
use crate::names::{camel_member, starts_upper, tuple_name};
use crate::model;
use crate::model::lists::{count, nth};
use crate::model::resolve::group_row;
use crate::program::CheckOptions;
use crate::system::hook_name;
use crate::text::{Text, is_text, same_text, text};
use crate::uses::{fixed_member, sys_group_name};

verus! {

/// The text of a string.
pub open spec fn lit(source: &str) -> Text {
    chain_of(source@)
}

/// A set of demanded definitions and methods.
#[verifier::ext_equal]
pub struct Wanted {
    pub names: Set<Text>,
    pub methods: Set<Text>,
}

impl Wanted {
    pub open spec fn nothing() -> Wanted {
        Wanted { names: Set::empty(), methods: Set::empty() }
    }

    /// Both demands together.
    pub open spec fn plus(self, more: Wanted) -> Wanted {
        Wanted { names: self.names.union(more.names), methods: self.methods.union(more.methods) }
    }

    /// Whether another demand covers this one.
    pub open spec fn within(self, other: Wanted) -> bool {
        self.names.subset_of(other.names) && self.methods.subset_of(other.methods)
    }
}

/// The demand of one definition.
pub open spec fn wanted_name(name: Text) -> Wanted {
    Wanted { names: Set::empty().insert(name), methods: Set::empty() }
}

/// The demand of one method.
pub open spec fn wanted_method(name: Text) -> Wanted {
    Wanted { names: Set::empty(), methods: Set::empty().insert(name) }
}

/// The demand of the definitions that strings name.
pub open spec fn wanted_names(names: Seq<&str>) -> Wanted
    decreases names.len(),
{
    if names.len() == 0 {
        Wanted::nothing()
    } else {
        wanted_names(names.drop_last()).plus(wanted_name(lit(names.last())))
    }
}

/// The texts of a list.
pub open spec fn texts_in(items: Chain<Text>) -> Set<Text>
    decreases items,
{
    match items {
        Chain::Nil => Set::empty(),
        Chain::Cons(head, tail) => texts_in(*tail).insert(*head),
    }
}

/// Whether no text occurs twice in a list.
pub open spec fn no_repeats(items: Chain<Text>) -> bool
    decreases items,
{
    match items {
        Chain::Nil => true,
        Chain::Cons(head, tail) => !texts_in(*tail).contains(*head) && no_repeats(*tail),
    }
}

/// Searching a list finds exactly its texts.
proof fn lemma_holds(items: Chain<Text>, name: Text)
    ensures
        model::lists::holds_name(&items, &name) == texts_in(items).contains(name),
    decreases items,
{
    match items {
        Chain::Nil => {},
        Chain::Cons(_, tail) => lemma_holds(*tail, name),
    }
}

/// One name with the `sys` group that it stands for.
pub struct Alias {
    pub name: Text,
    pub group: Text,
}

/// What a list of names stands for: the latest entry of a name counts.
pub open spec fn aliases(items: Chain<Alias>) -> Map<Text, Text>
    decreases items,
{
    match items {
        Chain::Nil => Map::empty(),
        Chain::Cons(head, tail) => aliases(*tail).insert(head.name, head.group),
    }
}

/// What the `sys` names of a module stand for.
pub struct Scope {
    pub bundle: Bundle,
    pub groups: Map<Text, Text>,
    pub members: Map<Text, Text>,
}

/// What one written tuple type or value wants.
pub open spec fn want_tuple(arity: u32) -> Wanted {
    match model::names::tuple_name(arity) {
        Some(name) => wanted_name(name),
        None => Wanted::nothing(),
    }
}

/// What the virtual machine surface wants.
pub open spec fn want_vm_surface() -> Wanted {
    wanted_names(seq![
        "Artifact", "VerifiedModule", "FunctionCode", "ClassCode", "SlotSpec",
        "Instance", "Slot", "FunctionDef", "ClassDef", "FunctionBinding",
        "ClassBinding", "DynValue", "CodeError", "DefinitionSource",
        "DefinitionSpec", "LinkEnv", "SlotChange", "SnapshotError",
        "RestoreError", "BranchError", "StepEvent", "DriveEvent", "Choice",
        "SendResult", "ProcError", "CodeLocation", "Result", "Option", "Recv",
        "TcpResource", "TlsStream", "SocketAddress",
    ])
}

/// What the process surface wants.
pub open spec fn want_proc_surface() -> Wanted {
    wanted_names(seq![
        "Recv", "SendResult", "ProcError", "SnapshotError", "Result", "Option",
        "DriveEvent",
    ])
}

/// The types that the result of a native method can name.
pub open spec fn want_native_method_surface(method: Seq<char>) -> Wanted {
    if method == "from_hex"@ {
        wanted_names(seq!["Bytes", "_bytes_from_hex"])
    } else if method == "value"@ {
        wanted_names(seq!["Result", "_result_fault_value"])
    } else if method == "source"@ {
        wanted_names(seq!["CodeError", "Result", "DefinitionSource", "Option"])
    } else if method == "definition"@ {
        wanted_names(seq!["CodeError", "Result", "DefinitionSpec"])
    } else if method == "verify"@ {
        wanted_names(seq!["CodeError", "Result", "VerifiedModule"])
    } else if method == "entry_code"@ || method == "function_code"@ {
        wanted_names(seq!["CodeError", "Result", "FunctionCode"])
    } else if method == "class_code"@ {
        wanted_names(seq!["CodeError", "Result", "ClassCode"])
    } else if method == "dynamic_entry"@ {
        wanted_names(seq!["CodeError", "Result", "DynValue", "FunctionDef"])
    } else if method == "entry"@ || method == "function"@ || method == "entry_binding"@ || method == "function_binding"@ {
        wanted_names(seq!["CodeError", "Result", "FunctionDef", "FunctionBinding"])
    } else if method == "class_def"@ || method == "class_binding"@ {
        wanted_names(seq!["CodeError", "Result", "ClassDef", "ClassBinding"])
    } else if method == "slot_for"@ || method == "slot_spec"@ || method == "slot"@ || method == "spec"@ || method == "instance"@ || method == "target"@ {
        wanted_names(seq![
            "CodeError", "Result", "Slot", "SlotSpec", "Instance", "FunctionDef",
            "ClassDef",
        ])
    } else if method == "to_bytes"@ || method == "snapshot"@ {
        wanted_names(seq!["SnapshotError", "Result"])
    } else if method == "activate"@ {
        wanted_names(seq!["CodeError", "Result", "FunctionDef", "FunctionBinding"])
    } else if method == "install"@ {
        wanted_names(seq![
            "CodeError", "Result", "VerifiedModule", "Instance", "FunctionCode",
            "FunctionDef", "ClassCode", "ClassDef", "LinkEnv",
        ])
    } else if method == "replace"@ || method == "replace_function"@ || method == "replace_class"@ || method == "replace_value"@ || method == "replace_process"@ || method == "change"@ || method == "change_function"@ || method == "change_class"@ || method == "change_value"@ || method == "change_process"@ || method == "replace_all"@ {
        wanted_names(seq![
            "CodeError", "Result", "Slot", "SlotChange", "FunctionDef",
            "FunctionBinding", "ClassDef", "ClassBinding",
        ])
    } else if method == "snapshot_wait"@ {
        wanted_names(seq!["SnapshotError", "ProcError", "Result"])
    } else if method == "drive_for"@ {
        wanted_names(seq!["DriveEvent", "Option"])
    } else if method == "run"@ || method == "done"@ {
        wanted_names(seq!["Result"])
    } else if method == "step"@ {
        wanted_names(seq!["StepEvent"])
    } else if method == "drive"@ || method == "drive_wait"@ {
        wanted_names(seq!["DriveEvent"])
    } else if method == "branch"@ || method == "branch_answer"@ {
        wanted_names(seq!["BranchError", "Result"])
    } else if method == "restore"@ {
        wanted_names(seq!["RestoreError", "Result"])
    } else if method == "resource"@ {
        wanted_names(seq!["TcpResource", "TlsStream"])
    } else if method == "serve_tcp_stream"@ {
        wanted_names(seq!["SocketAddress"])
    } else if method == "choose"@ {
        wanted_names(seq!["Choice"])
    } else if method == "send"@ || method == "close"@ {
        wanted_names(seq!["SendResult"])
    } else if method == "pause"@ || method == "resume"@ {
        wanted_names(seq!["ProcError", "Result"])
    } else if method == "site"@ {
        wanted_names(seq!["CodeLocation", "Option"])
    } else if method == "trace"@ {
        wanted_names(seq!["CodeLocation"])
    } else {
        Wanted::nothing()
    }
}

/// What a `sys` member wants beside the types of its operation.
pub open spec fn want_member_surface(group: Seq<char>, member: Seq<char>) -> Wanted {
    if group == "Vm"@ && member == "Vm"@ {
        want_vm_surface()
    } else if group == "Vm"@ && member == "artifact"@ {
        wanted_name(lit("Artifact"))
    } else if group == "Vm"@ && (member == "snapshot_self"@ || member == "load_snapshot"@) {
        wanted_name(lit("Result")).plus(wanted_name(lit("SnapshotError")))
    } else if group == "Vm"@ && member == "restore_vm"@ {
        wanted_name(lit("Result")).plus(wanted_name(lit("RestoreError")))
    } else if group == "Proc"@ && (member == "recv"@ || member == "recv_wait"@) {
        wanted_name(lit("Proc")).plus(wanted_name(lit("Recv")))
    } else if group == "Proc"@ && member == "run"@ {
        want_proc_surface()
    } else {
        Wanted::nothing()
    }
}

/// The member name of an operation.
pub open spec fn fixed_name(member: &Text) -> Text {
    if model::names::starts_upper(member) {
        *member
    } else {
        model::names::camel_member(member)
    }
}

/// What the types of an operation want.
pub open spec fn want_operation(bundle: Bundle, group: &Text, member: &Text) -> Wanted {
    match model::uses::fixed_member(&bundle, group, &fixed_name(member)) {
        Some(at) => match nth(&bundle.ops, at) {
            Some(op) => want_abi_types(&op.params).plus(want_abi_type(&op.reply)),
            None => Wanted::nothing(),
        },
        None => Wanted::nothing(),
    }
}

/// What one `sys` member wants.
pub open spec fn want_sys_member(s: Scope, group: &Text, member: &Text) -> Wanted {
    want_member_surface(group@, member@).plus(want_operation(s.bundle, group, member))
}

/// The `sys` group that an expression names.
pub open spec fn sys_group_of(s: Scope, e: &Expr) -> Option<Text> {
    match &*e.kind {
        ExprKind::Field { recv, name, name_span: _ } => match &*recv.kind {
            ExprKind::Name(root) => if root@ == "sys"@ {
                if s.groups.contains_key(*name) {
                    Some(s.groups[*name])
                } else {
                    Some(model::names::camel_member(name))
                }
            } else {
                None
            },
            _ => None,
        },
        ExprKind::Name(name) => if s.groups.contains_key(*name) {
            Some(s.groups[*name])
        } else {
            None
        },
        _ => None,
    }
}

/// What a field of a `sys` group wants.
pub open spec fn want_group_member(s: Scope, recv: &Expr, name: &Text) -> Wanted {
    match sys_group_of(s, recv) {
        Some(group) => want_sys_member(s, &group, name),
        None => Wanted::nothing(),
    }
}

pub open spec fn want_type(ty: &TypeExpr) -> Wanted
    decreases ty,
{
    match &ty.kind {
        TypeExprKind::Name(name) => wanted_name(*name),
        TypeExprKind::Unit => Wanted::nothing(),
        TypeExprKind::Apply(name, args) => wanted_name(*name)
            .plus(want_types(args)),
        TypeExprKind::ListShort(element) => wanted_name(lit("List"))
            .plus(want_type(element)),
        TypeExprKind::MapShort(key, value) => wanted_name(lit("Map"))
            .plus(want_type(key))
            .plus(want_type(value)),
        TypeExprKind::Tuple(elements) => want_tuple(count(elements))
            .plus(want_types(elements)),
        TypeExprKind::Fn(params, _, ret, _) => want_types(params)
            .plus(want_type(ret)),
    }
}

pub open spec fn want_types(items: &Chain<TypeExpr>) -> Wanted
    decreases items,
{
    match items {
        Chain::Nil => Wanted::nothing(),
        Chain::Cons(head, tail) => want_type(head)
            .plus(want_types(tail)),
    }
}

pub open spec fn want_optional_type(ty: &Option<TypeExpr>) -> Wanted
{
    match ty {
        Some(found) => want_type(found),
        None => Wanted::nothing(),
    }
}

pub open spec fn want_interface(item: &InterfaceRef) -> Wanted
{
    wanted_name(item.name)
    .plus(want_types(&item.type_args))
}

pub open spec fn want_bounds(items: &Chain<InterfaceRef>) -> Wanted
    decreases items,
{
    match items {
        Chain::Nil => Wanted::nothing(),
        Chain::Cons(head, tail) => want_interface(head)
            .plus(want_bounds(tail)),
    }
}

pub open spec fn want_generic(item: &GenericParam) -> Wanted
{
    want_bounds(&item.bounds)
}

pub open spec fn want_generics(items: &Chain<GenericParam>) -> Wanted
    decreases items,
{
    match items {
        Chain::Nil => Wanted::nothing(),
        Chain::Cons(head, tail) => want_generic(head)
            .plus(want_generics(tail)),
    }
}

pub open spec fn want_conformance(item: &ConformanceRef) -> Wanted
{
    want_interface(&item.application)
    .plus(want_generics(&item.premises))
}

pub open spec fn want_conformances(items: &Chain<ConformanceRef>) -> Wanted
    decreases items,
{
    match items {
        Chain::Nil => Wanted::nothing(),
        Chain::Cons(head, tail) => want_conformance(head)
            .plus(want_conformances(tail)),
    }
}

pub open spec fn want_associated(item: &AssociatedType) -> Wanted
{
    want_bounds(&item.bounds)
    .plus(want_optional_type(&item.value))
}

pub open spec fn want_associated_types(items: &Chain<AssociatedType>) -> Wanted
    decreases items,
{
    match items {
        Chain::Nil => Wanted::nothing(),
        Chain::Cons(head, tail) => want_associated(head)
            .plus(want_associated_types(tail)),
    }
}

pub open spec fn want_param(item: &Param) -> Wanted
{
    want_type(&item.ty)
}

pub open spec fn want_params(items: &Chain<Param>) -> Wanted
    decreases items,
{
    match items {
        Chain::Nil => Wanted::nothing(),
        Chain::Cons(head, tail) => want_param(head)
            .plus(want_params(tail)),
    }
}

pub open spec fn want_premise(item: &PremiseDef) -> Wanted
{
    want_type(&item.subject)
    .plus(want_bounds(&item.bounds))
}

pub open spec fn want_premises(items: &Chain<PremiseDef>) -> Wanted
    decreases items,
{
    match items {
        Chain::Nil => Wanted::nothing(),
        Chain::Cons(head, tail) => want_premise(head)
            .plus(want_premises(tail)),
    }
}

pub open spec fn want_abi_type(ty: &AbiType) -> Wanted
    decreases ty,
{
    match ty {
        AbiType::Core(name) => wanted_name(*name),
        AbiType::Native(name) => wanted_name(*name),
        AbiType::ListOf(element) => wanted_name(lit("List"))
            .plus(want_abi_type(element)),
        AbiType::MapOf(key, value) => wanted_name(lit("Map"))
            .plus(want_abi_type(key))
            .plus(want_abi_type(value)),
        AbiType::Tuple(elements) => want_tuple(count(elements))
            .plus(want_abi_types(elements)),
        AbiType::Apply(name, args) => wanted_name(*name)
            .plus(want_abi_types(args)),
        AbiType::Primitive(_) => Wanted::nothing(),
        AbiType::Var(_) => Wanted::nothing(),
        AbiType::Resource => Wanted::nothing(),
    }
}

pub open spec fn want_abi_types(items: &Chain<AbiType>) -> Wanted
    decreases items,
{
    match items {
        Chain::Nil => Wanted::nothing(),
        Chain::Cons(head, tail) => want_abi_type(head)
            .plus(want_abi_types(tail)),
    }
}

pub open spec fn want_member_name(s: Scope, name: &Text) -> Wanted
{
    match s.members.contains_key(*name) {
        true => want_sys_member(s, &s.members[*name], name),
        false => Wanted::nothing(),
    }
}

pub open spec fn want_expr(s: Scope, e: &Expr) -> Wanted
    decreases e,
{
    match &*e.kind {
        ExprKind::Str(_) => wanted_name(lit("String")),
        ExprKind::Name(name) => wanted_name(*name)
            .plus(want_member_name(s, name)),
        ExprKind::Interp(parts) => wanted_name(lit("Display"))
            .plus(wanted_name(lit("StringBuilder")))
            .plus(wanted_name(lit("Text")))
            .plus(wanted_name(lit("Char")))
            .plus(wanted_name(lit("Int")))
            .plus(wanted_name(lit("Float")))
            .plus(wanted_name(lit("Bool")))
            .plus(wanted_name(lit("String")))
            .plus(wanted_name(lit("Substring")))
            .plus(wanted_name(lit("Bytes")))
            .plus(want_parts(s, parts)),
        ExprKind::Not(value) => wanted_name(lit("Bool"))
            .plus(wanted_method(lit("__not__")))
            .plus(want_expr(s, value)),
        ExprKind::Neg(value) => wanted_method(lit("__neg__"))
            .plus(want_expr(s, value)),
        ExprKind::Invert(value) => wanted_method(lit("__invert__"))
            .plus(want_expr(s, value)),
        ExprKind::Binary { op, left, right } => wanted_method(chain_of(crate::model::system::hook_name(*op)@))
            .plus(want_expr(s, left))
            .plus(want_expr(s, right)),
        ExprKind::And(left, right) => want_expr(s, left)
            .plus(want_expr(s, right)),
        ExprKind::Or(left, right) => want_expr(s, left)
            .plus(want_expr(s, right)),
        ExprKind::Is { value, ty } => want_expr(s, value)
            .plus(want_type(ty)),
        ExprKind::Cast { value, ty } => want_expr(s, value)
            .plus(want_type(ty)),
        ExprKind::Call { name, name_span: _, type_args, args } => wanted_name(*name)
            .plus(if name@ == "codeof"@ {
                wanted_name(lit("FunctionCode"))
                .plus(wanted_name(lit("ClassCode")))
            } else {
                Wanted::nothing()
            })
            .plus(want_member_name(s, name))
            .plus(want_types(type_args))
            .plus(want_exprs(s, args)),
        ExprKind::CallExpr { callee, args } => want_expr(s, callee)
            .plus(want_exprs(s, args)),
        ExprKind::Field { recv, name, name_span: _ } => want_group_member(s, recv, name)
            .plus(want_expr(s, recv)),
        ExprKind::MethodCall { recv, name, name_span: _, type_args, args } => want_native_method_surface(name@)
            .plus(if name@ == "spawn"@ {
                wanted_name(lit("Proc"))
            } else {
                Wanted::nothing()
            })
            .plus(match sys_group_of(s, recv) {
                Some(group) => want_sys_member(s, &group, name),
                None => wanted_method(*name),
            })
            .plus(want_types(type_args))
            .plus(want_expr(s, recv))
            .plus(want_exprs(s, args)),
        ExprKind::SuperCall { name, name_span: _, args } => wanted_method(*name)
            .plus(want_exprs(s, args)),
        ExprKind::Index { recv, index } => want_expr(s, recv)
            .plus(want_expr(s, index)),
        ExprKind::Propagate(value) => wanted_name(lit("Result"))
            .plus(want_expr(s, value)),
        ExprKind::TupleLit(elements) => want_tuple(count(elements))
            .plus(want_exprs(s, elements)),
        ExprKind::ListLit(elements) => wanted_name(lit("List"))
            .plus(want_exprs(s, elements)),
        ExprKind::MapLit(entries) => wanted_name(lit("Map"))
            .plus(want_entries(s, entries)),
        ExprKind::Closure { params, ret, row: _, body } => want_params(params)
            .plus(want_optional_type(ret))
            .plus(want_stmts(s, body)),
        ExprKind::If { branches, else_body } => want_branches(s, branches)
            .plus(match else_body {
                Some(body) => want_stmts(s, body),
                None => Wanted::nothing(),
            }),
        ExprKind::Case { scrut, arms } => want_expr(s, scrut)
            .plus(want_arms(s, arms)),
        ExprKind::Select(arms) => wanted_name(lit("Choice"))
            .plus(want_waits(s, arms)),
        ExprKind::Loop(body) => want_stmts(s, body),
        ExprKind::Labeled { label: _, value } => want_expr(s, value),
        _ => Wanted::nothing(),
    }
}

pub open spec fn want_exprs(s: Scope, items: &Chain<Expr>) -> Wanted
    decreases items,
{
    match items {
        Chain::Nil => Wanted::nothing(),
        Chain::Cons(head, tail) => want_expr(s, head)
            .plus(want_exprs(s, tail)),
    }
}

pub open spec fn want_parts(s: Scope, items: &Chain<InterpPart>) -> Wanted
    decreases items,
{
    match items {
        Chain::Nil => Wanted::nothing(),
        Chain::Cons(head, tail) => match &**head {
                InterpPart::Lit(_) => Wanted::nothing(),
                InterpPart::Value(value) => want_expr(s, value),
            }
            .plus(want_parts(s, tail)),
    }
}

pub open spec fn want_entries(s: Scope, items: &Chain<MapEntry>) -> Wanted
    decreases items,
{
    match items {
        Chain::Nil => Wanted::nothing(),
        Chain::Cons(head, tail) => want_expr(s, &head.key)
            .plus(want_expr(s, &head.value))
            .plus(want_entries(s, tail)),
    }
}

pub open spec fn want_branches(s: Scope, items: &Chain<IfArm>) -> Wanted
    decreases items,
{
    match items {
        Chain::Nil => Wanted::nothing(),
        Chain::Cons(head, tail) => want_expr(s, &head.cond)
            .plus(want_stmts(s, &head.body))
            .plus(want_branches(s, tail)),
    }
}

pub open spec fn want_arms(s: Scope, items: &Chain<CaseArm>) -> Wanted
    decreases items,
{
    match items {
        Chain::Nil => Wanted::nothing(),
        Chain::Cons(head, tail) => want_pattern(s, &head.pattern)
            .plus(want_stmts(s, &head.body))
            .plus(want_arms(s, tail)),
    }
}

pub open spec fn want_waits(s: Scope, items: &Chain<SelectArm>) -> Wanted
    decreases items,
{
    match items {
        Chain::Nil => Wanted::nothing(),
        Chain::Cons(head, tail) => want_expr(s, &head.wait)
            .plus(want_stmts(s, &head.body))
            .plus(want_waits(s, tail)),
    }
}

pub open spec fn want_optional(s: Scope, e: &Option<Expr>) -> Wanted
    decreases e,
{
    match e {
        Some(found) => want_expr(s, found),
        None => Wanted::nothing(),
    }
}

pub open spec fn want_stmt(s: Scope, stmt: &Stmt) -> Wanted
    decreases stmt,
{
    match &stmt.kind {
        StmtKind::Assign { name: _, name_span: _, ty, value } => want_optional_type(ty)
            .plus(want_expr(s, value)),
        StmtKind::AssignField { recv, field: _, field_span: _, value } => want_expr(s, recv)
            .plus(want_expr(s, value)),
        StmtKind::While { cond, body } => want_expr(s, cond)
            .plus(want_stmts(s, body)),
        StmtKind::For { bindings: _, value, body } => wanted_name(lit("Iterable"))
            .plus(wanted_name(lit("Iterator")))
            .plus(wanted_name(lit("Option")))
            .plus(wanted_name(lit("Char")))
            .plus(want_expr(s, value))
            .plus(want_stmts(s, body)),
        StmtKind::Return(value) => want_optional(s, value),
        StmtKind::Break(value) => want_optional(s, value),
        StmtKind::Continue => Wanted::nothing(),
        StmtKind::Expr(value) => want_expr(s, value),
    }
}

pub open spec fn want_stmts(s: Scope, items: &Chain<Stmt>) -> Wanted
    decreases items,
{
    match items {
        Chain::Nil => Wanted::nothing(),
        Chain::Cons(head, tail) => want_stmt(s, head)
            .plus(want_stmts(s, tail)),
    }
}

pub open spec fn want_pattern(s: Scope, pattern: &Pattern) -> Wanted
    decreases pattern,
{
    match &pattern.kind {
        PatternKind::Name(name) => wanted_name(*name),
        PatternKind::Ctor { qualifier, name, args, has_parens: _ } => match qualifier {
                Some(group) => wanted_name(*group)
                .plus(if group_row(&s.bundle.groups, group).is_some() {
                    want_sys_member(s, group, name)
                } else {
                    Wanted::nothing()
                }),
                None => Wanted::nothing(),
            }
            .plus(wanted_name(*name))
            .plus(if name@ == "Call"@ {
                wanted_name(lit("Option"))
            } else {
                Wanted::nothing()
            })
            .plus(want_patterns(s, args)),
        PatternKind::Tuple(elements) => want_tuple(count(elements))
            .plus(want_patterns(s, elements)),
        PatternKind::Reflect { kind: _, generics, signature, binding } => wanted_name(lit("OpenCode"))
            .plus(wanted_name(lit("DeclarationCode")))
            .plus(wanted_name(lit("FunctionCode")))
            .plus(want_generics(generics))
            .plus(want_optional_type(signature))
            .plus(want_pattern(s, binding)),
        _ => Wanted::nothing(),
    }
}

pub open spec fn want_patterns(s: Scope, items: &Chain<Pattern>) -> Wanted
    decreases items,
{
    match items {
        Chain::Nil => Wanted::nothing(),
        Chain::Cons(head, tail) => want_pattern(s, head)
            .plus(want_patterns(s, tail)),
    }
}

pub open spec fn want_method(s: Scope, method: &MethodDef) -> Wanted
{
    want_generics(&method.generics)
    .plus(want_params(&method.params))
    .plus(want_optional_type(&method.ret))
    .plus(want_generics(&method.premises))
    .plus(want_stmts(s, &method.body))
}

pub open spec fn want_methods(s: Scope, items: &Chain<MethodDef>) -> Wanted
    decreases items,
{
    match items {
        Chain::Nil => Wanted::nothing(),
        Chain::Cons(head, tail) => want_method(s, head)
            .plus(want_methods(s, tail)),
    }
}

pub open spec fn want_requirement(s: Scope, method: &InterfaceMethod) -> Wanted
{
    want_generics(&method.generics)
    .plus(want_params(&method.params))
    .plus(want_optional_type(&method.ret))
    .plus(want_premises(&method.premises))
    .plus(match &method.body {
        Some(body) => want_stmts(s, body),
        None => Wanted::nothing(),
    })
}

pub open spec fn want_requirements(s: Scope, items: &Chain<InterfaceMethod>) -> Wanted
    decreases items,
{
    match items {
        Chain::Nil => Wanted::nothing(),
        Chain::Cons(head, tail) => want_requirement(s, head)
            .plus(want_requirements(s, tail)),
    }
}

pub open spec fn want_interfaces(s: Scope, items: &Chain<InterfaceDef>) -> Wanted
    decreases items,
{
    match items {
        Chain::Nil => Wanted::nothing(),
        Chain::Cons(head, tail) => want_generics(&head.generics)
            .plus(want_bounds(&head.parents))
            .plus(want_associated_types(&head.associated))
            .plus(want_requirements(s, &head.methods))
            .plus(want_interfaces(s, tail)),
    }
}

pub open spec fn want_fields_of(s: Scope, items: &Chain<FieldDef>) -> Wanted
    decreases items,
{
    match items {
        Chain::Nil => Wanted::nothing(),
        Chain::Cons(head, tail) => want_type(&head.ty)
            .plus(want_optional(s, &head.default))
            .plus(want_fields_of(s, tail)),
    }
}

pub open spec fn want_class(s: Scope, class: &ClassDef) -> Wanted
{
    want_generics(&class.generics)
    .plus(match &class.parent {
        Some(parent) => wanted_name(parent.name)
        .plus(want_types(&parent.args)),
        None => Wanted::nothing(),
    })
    .plus(want_conformances(&class.interfaces))
    .plus(want_associated_types(&class.associated))
    .plus(want_fields_of(s, &class.fields))
    .plus(want_methods(s, &class.methods))
}

pub open spec fn want_classes(s: Scope, items: &Chain<ClassDef>) -> Wanted
    decreases items,
{
    match items {
        Chain::Nil => Wanted::nothing(),
        Chain::Cons(head, tail) => want_class(s, head)
            .plus(want_classes(s, tail)),
    }
}

pub open spec fn want_arm_fields(items: &Chain<ArmField>) -> Wanted
    decreases items,
{
    match items {
        Chain::Nil => Wanted::nothing(),
        Chain::Cons(head, tail) => want_type(&head.ty)
            .plus(want_arm_fields(tail)),
    }
}

pub open spec fn want_arm_defs(items: &Chain<ArmDef>) -> Wanted
    decreases items,
{
    match items {
        Chain::Nil => Wanted::nothing(),
        Chain::Cons(head, tail) => want_arm_fields(&head.fields)
            .plus(want_arm_defs(tail)),
    }
}

pub open spec fn want_enum(s: Scope, item: &EnumDef) -> Wanted
{
    want_generics(&item.generics)
    .plus(want_conformances(&item.interfaces))
    .plus(want_associated_types(&item.associated))
    .plus(want_arm_defs(&item.arms))
    .plus(want_methods(s, &item.methods))
}

pub open spec fn want_enums(s: Scope, items: &Chain<EnumDef>) -> Wanted
    decreases items,
{
    match items {
        Chain::Nil => Wanted::nothing(),
        Chain::Cons(head, tail) => want_enum(s, head)
            .plus(want_enums(s, tail)),
    }
}

pub open spec fn want_function(s: Scope, func: &FuncDef) -> Wanted
{
    want_generics(&func.generics)
    .plus(want_params(&func.params))
    .plus(want_optional_type(&func.ret))
    .plus(want_stmts(s, &func.body))
}

pub open spec fn want_functions(s: Scope, items: &Chain<FuncDef>) -> Wanted
    decreases items,
{
    match items {
        Chain::Nil => Wanted::nothing(),
        Chain::Cons(head, tail) => want_function(s, head)
            .plus(want_functions(s, tail)),
    }
}

pub open spec fn want_roots(items: &Chain<Text>) -> Wanted
    decreases items,
{
    match items {
        Chain::Nil => Wanted::nothing(),
        Chain::Cons(head, tail) => wanted_name(**head)
            .plus(want_roots(tail)),
    }
}

/// The `sys` names that the `use` lines of a module bind, on top of
/// earlier ones.
pub open spec fn scope_after(s: Scope, uses: &Chain<UseDecl>) -> Scope
    decreases uses,
{
    match uses {
        Chain::Nil => s,
        Chain::Cons(head, tail) => scope_after(scope_with(s, &head.path), tail),
    }
}

/// The scope with the name that one `use` path binds.
pub open spec fn scope_with(s: Scope, path: &Chain<Text>) -> Scope {
    match sys_path_group(s.bundle, path) {
        None => s,
        Some(group) => match nth(path, 2) {
            Some(member) => Scope { members: s.members.insert(*member, group), ..s },
            None => Scope { groups: s.groups.insert(*nth(path, 1).unwrap(), group), ..s },
        },
    }
}

/// The group of a `use` path below `sys`.
pub open spec fn sys_path_group(bundle: Bundle, path: &Chain<Text>) -> Option<Text> {
    match (nth(path, 0), nth(path, 1)) {
        (Some(root), Some(surface)) => if root@ == "sys"@ {
            model::uses::sys_group_name(&bundle.groups, surface)
        } else {
            None
        },
        _ => None,
    }
}

/// What the `use` lines of a module want.
pub open spec fn want_uses(s: Scope, uses: &Chain<UseDecl>) -> Wanted
    decreases uses,
{
    match uses {
        Chain::Nil => Wanted::nothing(),
        Chain::Cons(head, tail) => want_use(s, &head.path).plus(want_uses(scope_with(s, &head.path), tail)),
    }
}

/// What one `use` path wants.
pub open spec fn want_use(s: Scope, path: &Chain<Text>) -> Wanted {
    match sys_path_group(s.bundle, path) {
        None => Wanted::nothing(),
        Some(group) => match nth(path, 2) {
            Some(member) => want_sys_member(s, &group, member),
            None => Wanted::nothing(),
        },
    }
}

/// What the declarations of a module want.
pub open spec fn want_declarations(s: Scope, module: &Module) -> Wanted {
    want_interfaces(s, &module.interfaces)
        .plus(want_classes(s, &module.classes))
        .plus(want_enums(s, &module.enums))
        .plus(want_functions(s, &module.funcs))
        .plus(want_stmts(s, &module.entry))
}

/// What a module wants of the core.
pub open spec fn want_module(module: &Module, bundle: Bundle) -> Wanted {
    let s = Scope { bundle: bundle, groups: Map::empty(), members: Map::empty() };
    wanted_name(lit("PartialEq"))
        .plus(wanted_name(lit("Hashable")))
        .plus(want_uses(s, &module.uses))
        .plus(want_declarations(scope_after(s, &module.uses), module))
}

/// The core definitions and methods that a module can reach.
pub struct CoreDemand {
    pub names: Chain<Text>,
    pub methods: Chain<Text>,
    pub sys_groups: Chain<Alias>,
    pub sys_members: Chain<Alias>,
}

fn find_alias(items: &Chain<Alias>, name: &Text) -> (r: Option<Text>)
    ensures
        r == (if aliases(*items).contains_key(*name) {
            Some(aliases(*items)[*name])
        } else {
            None
        }),
    decreases items,
{
    match items {
        Chain::Nil => None,
        Chain::Cons(head, tail) => {
            if same_text(&head.name, name) {
                Some(copy_chain(&head.group))
            } else {
                find_alias(tail, name)
            }
        },
    }
}

impl CoreDemand {
    /// What has been demanded so far.
    pub open spec fn wanted(self) -> Wanted {
        Wanted { names: texts_in(self.names), methods: texts_in(self.methods) }
    }

    /// What the `sys` names stand for.
    pub open spec fn scope(self, bundle: Bundle) -> Scope {
        Scope { bundle: bundle, groups: aliases(self.sys_groups), members: aliases(self.sys_members) }
    }

    /// Whether nothing is listed twice.
    pub open spec fn well_formed(self) -> bool {
        no_repeats(self.names) && no_repeats(self.methods)
    }

    /// Whether a demand has grown by another one, and by nothing else.
    pub open spec fn grew(self, before: CoreDemand, more: Wanted) -> bool {
        &&& self.wanted() =~= before.wanted().plus(more)
        &&& self.sys_groups == before.sys_groups
        &&& self.sys_members == before.sys_members
        &&& before.well_formed() ==> self.well_formed()
    }

    /// The demand of a module.
    pub fn for_module(module: &Module, bundle: &Bundle) -> (r: CoreDemand)
        ensures
            r.well_formed(),
            r.wanted() =~= want_module(module, *bundle),
            r.scope(*bundle) =~= scope_after(
                Scope { bundle: *bundle, groups: Map::empty(), members: Map::empty() },
                &module.uses,
            ),
    {
        let mut demand = CoreDemand { names: Chain::Nil, methods: Chain::Nil, sys_groups: Chain::Nil, sys_members: Chain::Nil };
        assert(demand.wanted() =~= Wanted::nothing());
        demand.name(&text("PartialEq"));
        assert(demand.wanted() =~= wanted_name(lit("PartialEq")));
        demand.name(&text("Hashable"));
        demand.add_uses(bundle, &module.uses);
        demand.add_interfaces(bundle, &module.interfaces);
        demand.add_classes(bundle, &module.classes);
        demand.add_enums(bundle, &module.enums);
        demand.add_functions(bundle, &module.funcs);
        demand.add_stmts(bundle, &module.entry);
        demand
    }

    /// The demand of a check: that of its module, and the definitions
    /// that its options ask for. It says which parts of a compiled core
    /// the tables of a check hold.
    pub fn for_check(module: &Module, options: &CheckOptions) -> (r: CoreDemand)
        ensures
            r.well_formed(),
            r.wanted() =~= want_module(module, options.image.bundle).plus(want_roots(&options.core_roots)),
            r.scope(options.image.bundle) =~= scope_after(
                Scope { bundle: options.image.bundle, groups: Map::empty(), members: Map::empty() },
                &module.uses,
            ),
    {
        let mut demand = CoreDemand::for_module(module, &options.image.bundle);
        demand.add_roots(&options.core_roots);
        demand
    }

    /// Demand one definition.
    pub fn name(&mut self, name: &Text)
        ensures
            final(self).grew(*old(self), wanted_name(*name)),
    {
        proof {
            lemma_holds(self.names, *name);
        }
        if holds_name(&self.names, name) {
            assert(self.wanted() =~= self.wanted().plus(wanted_name(*name)));
        } else {
            let ghost before = *self;
            let mut rest = Chain::Nil;
            std::mem::swap(&mut rest, &mut self.names);
            self.names = Chain::Cons(Box::new(copy_chain(name)), Box::new(rest));
            assert(self.wanted() =~= before.wanted().plus(wanted_name(*name)));
        }
    }

    /// Demand one method.
    pub fn method(&mut self, name: &Text)
        ensures
            final(self).grew(*old(self), wanted_method(*name)),
    {
        proof {
            lemma_holds(self.methods, *name);
        }
        if holds_name(&self.methods, name) {
            assert(self.wanted() =~= self.wanted().plus(wanted_method(*name)));
        } else {
            let ghost before = *self;
            let mut rest = Chain::Nil;
            std::mem::swap(&mut rest, &mut self.methods);
            self.methods = Chain::Cons(Box::new(copy_chain(name)), Box::new(rest));
            assert(self.wanted() =~= before.wanted().plus(wanted_method(*name)));
        }
    }

    /// Demand the definitions that strings name.
    pub fn add_names(&mut self, names: &[&str])
        ensures
            final(self).grew(*old(self), wanted_names(names@)),
    {
        let mut at: usize = 0;
        while at < names.len()
            invariant
                at <= names.len(),
                self.grew(*old(self), wanted_names(names@.take(at as int))),
            decreases names.len() - at,
        {
            self.name(&text(names[at]));
            at = at + 1;
            assert(names@.take(at as int).drop_last() =~= names@.take(at - 1));
            assert(names@.take(at as int).last() == names@[at - 1]);
        }
        assert(names@.take(at as int) =~= names@);
    }

    /// Demand the core class of a tuple.
    pub fn add_tuple(&mut self, arity: usize)
        ensures
            final(self).grew(*old(self), if arity <= 16 {
                want_tuple(arity as u32)
            } else {
                Wanted::nothing()
            }),
    {
        if arity <= 16 {
            match tuple_name(arity as u32) {
                Some(name) => self.name(&name),
                None => {},
            }
        }
    }

    /// Demand what the virtual machine surface names.
    pub fn add_vm_surface(&mut self)
        ensures
            final(self).grew(*old(self), want_vm_surface()),
    {
        let names = [
            "Artifact", "VerifiedModule", "FunctionCode", "ClassCode", "SlotSpec",
            "Instance", "Slot", "FunctionDef", "ClassDef", "FunctionBinding",
            "ClassBinding", "DynValue", "CodeError", "DefinitionSource",
            "DefinitionSpec", "LinkEnv", "SlotChange", "SnapshotError",
            "RestoreError", "BranchError", "StepEvent", "DriveEvent", "Choice",
            "SendResult", "ProcError", "CodeLocation", "Result", "Option", "Recv",
            "TcpResource", "TlsStream", "SocketAddress",
        ];
        assert(names@ =~= seq![
            "Artifact", "VerifiedModule", "FunctionCode", "ClassCode", "SlotSpec",
            "Instance", "Slot", "FunctionDef", "ClassDef", "FunctionBinding",
            "ClassBinding", "DynValue", "CodeError", "DefinitionSource",
            "DefinitionSpec", "LinkEnv", "SlotChange", "SnapshotError",
            "RestoreError", "BranchError", "StepEvent", "DriveEvent", "Choice",
            "SendResult", "ProcError", "CodeLocation", "Result", "Option", "Recv",
            "TcpResource", "TlsStream", "SocketAddress",
        ]);
        self.add_names(&names);
    }

    /// Demand what the process surface names.
    pub fn add_proc_surface(&mut self)
        ensures
            final(self).grew(*old(self), want_proc_surface()),
    {
        let names = [
            "Recv", "SendResult", "ProcError", "SnapshotError", "Result", "Option",
            "DriveEvent",
        ];
        assert(names@ =~= seq![
            "Recv", "SendResult", "ProcError", "SnapshotError", "Result", "Option",
            "DriveEvent",
        ]);
        self.add_names(&names);
    }

    /// Demand the types that the result of a native method can name.
    pub fn add_native_method_surface(&mut self, method: &Text)
        ensures
            final(self).grew(*old(self), want_native_method_surface(method@)),
    {
        if is_text(method, "from_hex") {
            let names = ["Bytes", "_bytes_from_hex"];
            assert(names@ =~= seq!["Bytes", "_bytes_from_hex"]);
            self.add_names(&names);
        } else if is_text(method, "value") {
            let names = ["Result", "_result_fault_value"];
            assert(names@ =~= seq!["Result", "_result_fault_value"]);
            self.add_names(&names);
        } else if is_text(method, "source") {
            let names = ["CodeError", "Result", "DefinitionSource", "Option"];
            assert(names@ =~= seq!["CodeError", "Result", "DefinitionSource", "Option"]);
            self.add_names(&names);
        } else if is_text(method, "definition") {
            let names = ["CodeError", "Result", "DefinitionSpec"];
            assert(names@ =~= seq!["CodeError", "Result", "DefinitionSpec"]);
            self.add_names(&names);
        } else if is_text(method, "verify") {
            let names = ["CodeError", "Result", "VerifiedModule"];
            assert(names@ =~= seq!["CodeError", "Result", "VerifiedModule"]);
            self.add_names(&names);
        } else if is_text(method, "entry_code") || is_text(method, "function_code") {
            let names = ["CodeError", "Result", "FunctionCode"];
            assert(names@ =~= seq!["CodeError", "Result", "FunctionCode"]);
            self.add_names(&names);
        } else if is_text(method, "class_code") {
            let names = ["CodeError", "Result", "ClassCode"];
            assert(names@ =~= seq!["CodeError", "Result", "ClassCode"]);
            self.add_names(&names);
        } else if is_text(method, "dynamic_entry") {
            let names = ["CodeError", "Result", "DynValue", "FunctionDef"];
            assert(names@ =~= seq!["CodeError", "Result", "DynValue", "FunctionDef"]);
            self.add_names(&names);
        } else if is_text(method, "entry") || is_text(method, "function") || is_text(method, "entry_binding") || is_text(method, "function_binding") {
            let names = ["CodeError", "Result", "FunctionDef", "FunctionBinding"];
            assert(names@ =~= seq!["CodeError", "Result", "FunctionDef", "FunctionBinding"]);
            self.add_names(&names);
        } else if is_text(method, "class_def") || is_text(method, "class_binding") {
            let names = ["CodeError", "Result", "ClassDef", "ClassBinding"];
            assert(names@ =~= seq!["CodeError", "Result", "ClassDef", "ClassBinding"]);
            self.add_names(&names);
        } else if is_text(method, "slot_for") || is_text(method, "slot_spec") || is_text(method, "slot") || is_text(method, "spec") || is_text(method, "instance") || is_text(method, "target") {
            let names = [
                "CodeError", "Result", "Slot", "SlotSpec", "Instance", "FunctionDef",
                "ClassDef",
            ];
            assert(names@ =~= seq![
                "CodeError", "Result", "Slot", "SlotSpec", "Instance", "FunctionDef",
                "ClassDef",
            ]);
            self.add_names(&names);
        } else if is_text(method, "to_bytes") || is_text(method, "snapshot") {
            let names = ["SnapshotError", "Result"];
            assert(names@ =~= seq!["SnapshotError", "Result"]);
            self.add_names(&names);
        } else if is_text(method, "activate") {
            let names = ["CodeError", "Result", "FunctionDef", "FunctionBinding"];
            assert(names@ =~= seq!["CodeError", "Result", "FunctionDef", "FunctionBinding"]);
            self.add_names(&names);
        } else if is_text(method, "install") {
            let names = [
                "CodeError", "Result", "VerifiedModule", "Instance", "FunctionCode",
                "FunctionDef", "ClassCode", "ClassDef", "LinkEnv",
            ];
            assert(names@ =~= seq![
                "CodeError", "Result", "VerifiedModule", "Instance", "FunctionCode",
                "FunctionDef", "ClassCode", "ClassDef", "LinkEnv",
            ]);
            self.add_names(&names);
        } else if is_text(method, "replace") || is_text(method, "replace_function") || is_text(method, "replace_class") || is_text(method, "replace_value") || is_text(method, "replace_process") || is_text(method, "change") || is_text(method, "change_function") || is_text(method, "change_class") || is_text(method, "change_value") || is_text(method, "change_process") || is_text(method, "replace_all") {
            let names = [
                "CodeError", "Result", "Slot", "SlotChange", "FunctionDef",
                "FunctionBinding", "ClassDef", "ClassBinding",
            ];
            assert(names@ =~= seq![
                "CodeError", "Result", "Slot", "SlotChange", "FunctionDef",
                "FunctionBinding", "ClassDef", "ClassBinding",
            ]);
            self.add_names(&names);
        } else if is_text(method, "snapshot_wait") {
            let names = ["SnapshotError", "ProcError", "Result"];
            assert(names@ =~= seq!["SnapshotError", "ProcError", "Result"]);
            self.add_names(&names);
        } else if is_text(method, "drive_for") {
            let names = ["DriveEvent", "Option"];
            assert(names@ =~= seq!["DriveEvent", "Option"]);
            self.add_names(&names);
        } else if is_text(method, "run") || is_text(method, "done") {
            let names = ["Result"];
            assert(names@ =~= seq!["Result"]);
            self.add_names(&names);
        } else if is_text(method, "step") {
            let names = ["StepEvent"];
            assert(names@ =~= seq!["StepEvent"]);
            self.add_names(&names);
        } else if is_text(method, "drive") || is_text(method, "drive_wait") {
            let names = ["DriveEvent"];
            assert(names@ =~= seq!["DriveEvent"]);
            self.add_names(&names);
        } else if is_text(method, "branch") || is_text(method, "branch_answer") {
            let names = ["BranchError", "Result"];
            assert(names@ =~= seq!["BranchError", "Result"]);
            self.add_names(&names);
        } else if is_text(method, "restore") {
            let names = ["RestoreError", "Result"];
            assert(names@ =~= seq!["RestoreError", "Result"]);
            self.add_names(&names);
        } else if is_text(method, "resource") {
            let names = ["TcpResource", "TlsStream"];
            assert(names@ =~= seq!["TcpResource", "TlsStream"]);
            self.add_names(&names);
        } else if is_text(method, "serve_tcp_stream") {
            let names = ["SocketAddress"];
            assert(names@ =~= seq!["SocketAddress"]);
            self.add_names(&names);
        } else if is_text(method, "choose") {
            let names = ["Choice"];
            assert(names@ =~= seq!["Choice"]);
            self.add_names(&names);
        } else if is_text(method, "send") || is_text(method, "close") {
            let names = ["SendResult"];
            assert(names@ =~= seq!["SendResult"]);
            self.add_names(&names);
        } else if is_text(method, "pause") || is_text(method, "resume") {
            let names = ["ProcError", "Result"];
            assert(names@ =~= seq!["ProcError", "Result"]);
            self.add_names(&names);
        } else if is_text(method, "site") {
            let names = ["CodeLocation", "Option"];
            assert(names@ =~= seq!["CodeLocation", "Option"]);
            self.add_names(&names);
        } else if is_text(method, "trace") {
            let names = ["CodeLocation"];
            assert(names@ =~= seq!["CodeLocation"]);
            self.add_names(&names);
        }
    }

    fn add_member_surface(&mut self, group: &Text, member: &Text)
        ensures
            final(self).grew(*old(self), want_member_surface(group@, member@)),
    {
        if is_text(group, "Vm") && is_text(member, "Vm") {
            self.add_vm_surface();
        } else if is_text(group, "Vm") && is_text(member, "artifact") {
            self.name(&text("Artifact"));
        } else if is_text(group, "Vm") && (is_text(member, "snapshot_self") || is_text(member, "load_snapshot")) {
            self.name(&text("Result"));
            self.name(&text("SnapshotError"));
        } else if is_text(group, "Vm") && is_text(member, "restore_vm") {
            self.name(&text("Result"));
            self.name(&text("RestoreError"));
        } else if is_text(group, "Proc") && (is_text(member, "recv") || is_text(member, "recv_wait")) {
            self.name(&text("Proc"));
            self.name(&text("Recv"));
        } else if is_text(group, "Proc") && is_text(member, "run") {
            self.add_proc_surface();
        }
    }

    fn add_operation(&mut self, bundle: &Bundle, group: &Text, member: &Text)
        ensures
            final(self).grew(*old(self), want_operation(*bundle, group, member)),
    {
        let fixed = if starts_upper(member) {
            copy_chain(member)
        } else {
            camel_member(member)
        };
        match fixed_member(bundle, group, &fixed) {
            Some(at) => match crate::lists::nth(&bundle.ops, at) {
                Some(op) => {
                    self.add_abi_types(&op.params);
                    self.add_abi_type(&op.reply);
                },
                None => {},
            },
            None => {},
        }
    }

    /// Demand what one `sys` member names.
    pub fn add_sys_member(&mut self, bundle: &Bundle, group: &Text, member: &Text)
        ensures
            final(self).grew(*old(self), want_sys_member(old(self).scope(*bundle), group, member)),
    {
        self.add_member_surface(group, member);
        self.add_operation(bundle, group, member);
    }

    /// The group that a bound `sys` member belongs to.
    fn member_group(&self, name: &Text) -> (r: Option<Text>)
        ensures
            r == (if aliases(self.sys_members).contains_key(*name) {
                Some(aliases(self.sys_members)[*name])
            } else {
                None
            }),
    {
        find_alias(&self.sys_members, name)
    }

    /// The `sys` group that an expression names.
    pub fn sys_group(&self, e: &Expr) -> (r: Option<Text>)
        ensures
            forall|bundle: Bundle| r == #[trigger] sys_group_of(self.scope(bundle), e),
    {
        match &*e.kind {
            ExprKind::Field { recv, name, name_span: _ } => match &*recv.kind {
                ExprKind::Name(root) => {
                    if is_text(root, "sys") {
                        match find_alias(&self.sys_groups, name) {
                            Some(group) => Some(group),
                            None => Some(camel_member(name)),
                        }
                    } else {
                        None
                    }
                },
                _ => None,
            },
            ExprKind::Name(name) => find_alias(&self.sys_groups, name),
            _ => None,
        }
    }

    fn add_use(&mut self, bundle: &Bundle, path: &Chain<Text>)
        ensures
            final(self).wanted() =~= old(self).wanted().plus(want_use(old(self).scope(*bundle), path)),
            final(self).scope(*bundle) == scope_with(old(self).scope(*bundle), path),
            old(self).well_formed() ==> final(self).well_formed(),
    {
        match (crate::lists::nth(path, 0), crate::lists::nth(path, 1)) {
            (Some(root), Some(surface)) => {
                if is_text(root, "sys") {
                    match sys_group_name(&bundle.groups, surface) {
                        Some(group) => match crate::lists::nth(path, 2) {
                            Some(member) => {
                                self.add_sys_member(bundle, &group, member);
                                let mut rest = Chain::Nil;
                                std::mem::swap(&mut rest, &mut self.sys_members);
                                self.sys_members = Chain::Cons(Box::new(Alias { name: copy_chain(member), group: group }), Box::new(rest));
                            },
                            None => {
                                let mut rest = Chain::Nil;
                                std::mem::swap(&mut rest, &mut self.sys_groups);
                                self.sys_groups = Chain::Cons(Box::new(Alias { name: copy_chain(surface), group: group }), Box::new(rest));
                            },
                        },
                        None => {},
                    }
                }
            },
            _ => {},
        }
    }

    /// Bind and demand what the `use` lines of a module name.
    pub fn add_uses(&mut self, bundle: &Bundle, uses: &Chain<UseDecl>)
        ensures
            final(self).wanted() =~= old(self).wanted().plus(want_uses(old(self).scope(*bundle), uses)),
            final(self).scope(*bundle) == scope_after(old(self).scope(*bundle), uses),
            old(self).well_formed() ==> final(self).well_formed(),
        decreases uses,
    {
        match uses {
            Chain::Nil => {},
            Chain::Cons(head, tail) => {
                self.add_use(bundle, &head.path);
                self.add_uses(bundle, tail);
            },
        }
    }

    /// Add what one written type wants.
    pub fn add_type(&mut self, ty: &TypeExpr)
        ensures
            final(self).grew(*old(self), want_type(ty)),
        decreases ty,
    {
        match &ty.kind {
            TypeExprKind::Name(name) => {
                self.name(name);
            },
            TypeExprKind::Unit => {},
            TypeExprKind::Apply(name, args) => {
                self.name(name);
                self.add_types(args);
            },
            TypeExprKind::ListShort(element) => {
                self.name(&text("List"));
                self.add_type(element);
            },
            TypeExprKind::MapShort(key, value) => {
                self.name(&text("Map"));
                self.add_type(key);
                self.add_type(value);
            },
            TypeExprKind::Tuple(elements) => {
                self.add_tuple(crate::lists::count(elements) as usize);
                self.add_types(elements);
            },
            TypeExprKind::Fn(params, _, ret, _) => {
                self.add_types(params);
                self.add_type(ret);
            },
        }
    }

    pub fn add_types(&mut self, items: &Chain<TypeExpr>)
        ensures
            final(self).grew(*old(self), want_types(items)),
        decreases items,
    {
        match items {
            Chain::Nil => {},
            Chain::Cons(head, tail) => {
                self.add_type(head);
                self.add_types(tail);
            },
        }
    }

    /// Add what an optional type wants.
    pub fn add_optional_type(&mut self, ty: &Option<TypeExpr>)
        ensures
            final(self).grew(*old(self), want_optional_type(ty)),
    {
        match ty {
            Some(found) => {
                self.add_type(found);
            },
            None => {},
        }
    }

    /// Add what a reference to an interface wants.
    pub fn add_interface(&mut self, item: &InterfaceRef)
        ensures
            final(self).grew(*old(self), want_interface(item)),
    {
        self.name(&item.name);
        self.add_types(&item.type_args);
    }

    pub fn add_bounds(&mut self, items: &Chain<InterfaceRef>)
        ensures
            final(self).grew(*old(self), want_bounds(items)),
        decreases items,
    {
        match items {
            Chain::Nil => {},
            Chain::Cons(head, tail) => {
                self.add_interface(head);
                self.add_bounds(tail);
            },
        }
    }

    pub fn add_generic(&mut self, item: &GenericParam)
        ensures
            final(self).grew(*old(self), want_generic(item)),
    {
        self.add_bounds(&item.bounds);
    }

    /// Add what the bounds of generic parameters want.
    pub fn add_generics(&mut self, items: &Chain<GenericParam>)
        ensures
            final(self).grew(*old(self), want_generics(items)),
        decreases items,
    {
        match items {
            Chain::Nil => {},
            Chain::Cons(head, tail) => {
                self.add_generic(head);
                self.add_generics(tail);
            },
        }
    }

    /// Add what a declared conformance wants.
    pub fn add_conformance(&mut self, item: &ConformanceRef)
        ensures
            final(self).grew(*old(self), want_conformance(item)),
    {
        self.add_interface(&item.application);
        self.add_generics(&item.premises);
    }

    pub fn add_conformances(&mut self, items: &Chain<ConformanceRef>)
        ensures
            final(self).grew(*old(self), want_conformances(items)),
        decreases items,
    {
        match items {
            Chain::Nil => {},
            Chain::Cons(head, tail) => {
                self.add_conformance(head);
                self.add_conformances(tail);
            },
        }
    }

    /// Add what an associated type wants.
    pub fn add_associated(&mut self, item: &AssociatedType)
        ensures
            final(self).grew(*old(self), want_associated(item)),
    {
        self.add_bounds(&item.bounds);
        self.add_optional_type(&item.value);
    }

    pub fn add_associated_types(&mut self, items: &Chain<AssociatedType>)
        ensures
            final(self).grew(*old(self), want_associated_types(items)),
        decreases items,
    {
        match items {
            Chain::Nil => {},
            Chain::Cons(head, tail) => {
                self.add_associated(head);
                self.add_associated_types(tail);
            },
        }
    }

    pub fn add_param(&mut self, item: &Param)
        ensures
            final(self).grew(*old(self), want_param(item)),
    {
        self.add_type(&item.ty);
    }

    /// Add what the types of parameters want.
    pub fn add_params(&mut self, items: &Chain<Param>)
        ensures
            final(self).grew(*old(self), want_params(items)),
        decreases items,
    {
        match items {
            Chain::Nil => {},
            Chain::Cons(head, tail) => {
                self.add_param(head);
                self.add_params(tail);
            },
        }
    }

    pub fn add_premise(&mut self, item: &PremiseDef)
        ensures
            final(self).grew(*old(self), want_premise(item)),
    {
        self.add_type(&item.subject);
        self.add_bounds(&item.bounds);
    }

    pub fn add_premises(&mut self, items: &Chain<PremiseDef>)
        ensures
            final(self).grew(*old(self), want_premises(items)),
        decreases items,
    {
        match items {
            Chain::Nil => {},
            Chain::Cons(head, tail) => {
                self.add_premise(head);
                self.add_premises(tail);
            },
        }
    }

    /// Add what an operation type wants.
    pub fn add_abi_type(&mut self, ty: &AbiType)
        ensures
            final(self).grew(*old(self), want_abi_type(ty)),
        decreases ty,
    {
        match ty {
            AbiType::Core(name) => {
                self.name(name);
            },
            AbiType::Native(name) => {
                self.name(name);
            },
            AbiType::ListOf(element) => {
                self.name(&text("List"));
                self.add_abi_type(element);
            },
            AbiType::MapOf(key, value) => {
                self.name(&text("Map"));
                self.add_abi_type(key);
                self.add_abi_type(value);
            },
            AbiType::Tuple(elements) => {
                self.add_tuple(crate::lists::count(elements) as usize);
                self.add_abi_types(elements);
            },
            AbiType::Apply(name, args) => {
                self.name(name);
                self.add_abi_types(args);
            },
            AbiType::Primitive(_) => {},
            AbiType::Var(_) => {},
            AbiType::Resource => {},
        }
    }

    pub fn add_abi_types(&mut self, items: &Chain<AbiType>)
        ensures
            final(self).grew(*old(self), want_abi_types(items)),
        decreases items,
    {
        match items {
            Chain::Nil => {},
            Chain::Cons(head, tail) => {
                self.add_abi_type(head);
                self.add_abi_types(tail);
            },
        }
    }

    /// Add what a bound `sys` member wants under its name.
    pub fn add_member_name(&mut self, bundle: &Bundle, name: &Text)
        ensures
            final(self).grew(*old(self), want_member_name(old(self).scope(*bundle), name)),
    {
        match self.member_group(name) {
            Some(group) => self.add_sys_member(bundle, &group, name),
            None => {},
        }
    }

    /// Add what one expression wants.
    #[verifier::rlimit(60)]
    pub fn add_expr(&mut self, bundle: &Bundle, e: &Expr)
        ensures
            final(self).grew(*old(self), want_expr(old(self).scope(*bundle), e)),
        decreases e,
    {
        match &*e.kind {
            ExprKind::Str(_) => {
                self.name(&text("String"));
            },
            ExprKind::Name(name) => {
                self.name(name);
                self.add_member_name(bundle, name);
            },
            ExprKind::Interp(parts) => {
                self.name(&text("Display"));
                self.name(&text("StringBuilder"));
                self.name(&text("Text"));
                self.name(&text("Char"));
                self.name(&text("Int"));
                self.name(&text("Float"));
                self.name(&text("Bool"));
                self.name(&text("String"));
                self.name(&text("Substring"));
                self.name(&text("Bytes"));
                self.add_parts(bundle, parts);
            },
            ExprKind::Not(value) => {
                self.name(&text("Bool"));
                self.method(&text("__not__"));
                self.add_expr(bundle, value);
            },
            ExprKind::Neg(value) => {
                self.method(&text("__neg__"));
                self.add_expr(bundle, value);
            },
            ExprKind::Invert(value) => {
                self.method(&text("__invert__"));
                self.add_expr(bundle, value);
            },
            ExprKind::Binary { op, left, right } => {
                self.method(&text(hook_name(*op)));
                self.add_expr(bundle, left);
                self.add_expr(bundle, right);
            },
            ExprKind::And(left, right) => {
                self.add_expr(bundle, left);
                self.add_expr(bundle, right);
            },
            ExprKind::Or(left, right) => {
                self.add_expr(bundle, left);
                self.add_expr(bundle, right);
            },
            ExprKind::Is { value, ty } => {
                self.add_expr(bundle, value);
                self.add_type(ty);
            },
            ExprKind::Cast { value, ty } => {
                self.add_expr(bundle, value);
                self.add_type(ty);
            },
            ExprKind::Call { name, name_span: _, type_args, args } => {
                self.name(name);
                if is_text(name, "codeof") {
                    self.name(&text("FunctionCode"));
                    self.name(&text("ClassCode"));
                }
                self.add_member_name(bundle, name);
                self.add_types(type_args);
                self.add_exprs(bundle, args);
            },
            ExprKind::CallExpr { callee, args } => {
                self.add_expr(bundle, callee);
                self.add_exprs(bundle, args);
            },
            ExprKind::Field { recv, name, name_span: _ } => {
                match self.sys_group(recv) {
                    Some(group) => self.add_sys_member(bundle, &group, name),
                    None => {},
                }
                self.add_expr(bundle, recv);
            },
            ExprKind::MethodCall { recv, name, name_span: _, type_args, args } => {
                self.add_native_method_surface(name);
                if is_text(name, "spawn") {
                    self.name(&text("Proc"));
                }
                match self.sys_group(recv) {
                    Some(group) => self.add_sys_member(bundle, &group, name),
                    None => self.method(name),
                }
                self.add_types(type_args);
                self.add_expr(bundle, recv);
                self.add_exprs(bundle, args);
            },
            ExprKind::SuperCall { name, name_span: _, args } => {
                self.method(name);
                self.add_exprs(bundle, args);
            },
            ExprKind::Index { recv, index } => {
                self.add_expr(bundle, recv);
                self.add_expr(bundle, index);
            },
            ExprKind::Propagate(value) => {
                self.name(&text("Result"));
                self.add_expr(bundle, value);
            },
            ExprKind::TupleLit(elements) => {
                self.add_tuple(crate::lists::count(elements) as usize);
                self.add_exprs(bundle, elements);
            },
            ExprKind::ListLit(elements) => {
                self.name(&text("List"));
                self.add_exprs(bundle, elements);
            },
            ExprKind::MapLit(entries) => {
                self.name(&text("Map"));
                self.add_entries(bundle, entries);
            },
            ExprKind::Closure { params, ret, row: _, body } => {
                self.add_params(params);
                self.add_optional_type(ret);
                self.add_stmts(bundle, body);
            },
            ExprKind::If { branches, else_body } => {
                self.add_branches(bundle, branches);
                match else_body {
                    Some(body) => {
                        self.add_stmts(bundle, body);
                    },
                    None => {},
                }
            },
            ExprKind::Case { scrut, arms } => {
                self.add_expr(bundle, scrut);
                self.add_arms(bundle, arms);
            },
            ExprKind::Select(arms) => {
                self.name(&text("Choice"));
                self.add_waits(bundle, arms);
            },
            ExprKind::Loop(body) => {
                self.add_stmts(bundle, body);
            },
            ExprKind::Labeled { label: _, value } => {
                self.add_expr(bundle, value);
            },
            _ => {},
        }
    }

    pub fn add_exprs(&mut self, bundle: &Bundle, items: &Chain<Expr>)
        ensures
            final(self).grew(*old(self), want_exprs(old(self).scope(*bundle), items)),
        decreases items,
    {
        match items {
            Chain::Nil => {},
            Chain::Cons(head, tail) => {
                self.add_expr(bundle, head);
                self.add_exprs(bundle, tail);
            },
        }
    }

    pub fn add_parts(&mut self, bundle: &Bundle, items: &Chain<InterpPart>)
        ensures
            final(self).grew(*old(self), want_parts(old(self).scope(*bundle), items)),
        decreases items,
    {
        match items {
            Chain::Nil => {},
            Chain::Cons(head, tail) => {
                match &**head {
                    InterpPart::Lit(_) => {},
                    InterpPart::Value(value) => self.add_expr(bundle, value),
                }
                self.add_parts(bundle, tail);
            },
        }
    }

    pub fn add_entries(&mut self, bundle: &Bundle, items: &Chain<MapEntry>)
        ensures
            final(self).grew(*old(self), want_entries(old(self).scope(*bundle), items)),
        decreases items,
    {
        match items {
            Chain::Nil => {},
            Chain::Cons(head, tail) => {
                self.add_expr(bundle, &head.key);
                self.add_expr(bundle, &head.value);
                self.add_entries(bundle, tail);
            },
        }
    }

    pub fn add_branches(&mut self, bundle: &Bundle, items: &Chain<IfArm>)
        ensures
            final(self).grew(*old(self), want_branches(old(self).scope(*bundle), items)),
        decreases items,
    {
        match items {
            Chain::Nil => {},
            Chain::Cons(head, tail) => {
                self.add_expr(bundle, &head.cond);
                self.add_stmts(bundle, &head.body);
                self.add_branches(bundle, tail);
            },
        }
    }

    pub fn add_arms(&mut self, bundle: &Bundle, items: &Chain<CaseArm>)
        ensures
            final(self).grew(*old(self), want_arms(old(self).scope(*bundle), items)),
        decreases items,
    {
        match items {
            Chain::Nil => {},
            Chain::Cons(head, tail) => {
                self.add_pattern(bundle, &head.pattern);
                self.add_stmts(bundle, &head.body);
                self.add_arms(bundle, tail);
            },
        }
    }

    pub fn add_waits(&mut self, bundle: &Bundle, items: &Chain<SelectArm>)
        ensures
            final(self).grew(*old(self), want_waits(old(self).scope(*bundle), items)),
        decreases items,
    {
        match items {
            Chain::Nil => {},
            Chain::Cons(head, tail) => {
                self.add_expr(bundle, &head.wait);
                self.add_stmts(bundle, &head.body);
                self.add_waits(bundle, tail);
            },
        }
    }

    pub fn add_optional(&mut self, bundle: &Bundle, e: &Option<Expr>)
        ensures
            final(self).grew(*old(self), want_optional(old(self).scope(*bundle), e)),
        decreases e,
    {
        match e {
            Some(found) => {
                self.add_expr(bundle, found);
            },
            None => {},
        }
    }

    pub fn add_stmt(&mut self, bundle: &Bundle, stmt: &Stmt)
        ensures
            final(self).grew(*old(self), want_stmt(old(self).scope(*bundle), stmt)),
        decreases stmt,
    {
        match &stmt.kind {
            StmtKind::Assign { name: _, name_span: _, ty, value } => {
                self.add_optional_type(ty);
                self.add_expr(bundle, value);
            },
            StmtKind::AssignField { recv, field: _, field_span: _, value } => {
                self.add_expr(bundle, recv);
                self.add_expr(bundle, value);
            },
            StmtKind::While { cond, body } => {
                self.add_expr(bundle, cond);
                self.add_stmts(bundle, body);
            },
            StmtKind::For { bindings: _, value, body } => {
                self.name(&text("Iterable"));
                self.name(&text("Iterator"));
                self.name(&text("Option"));
                self.name(&text("Char"));
                self.add_expr(bundle, value);
                self.add_stmts(bundle, body);
            },
            StmtKind::Return(value) => {
                self.add_optional(bundle, value);
            },
            StmtKind::Break(value) => {
                self.add_optional(bundle, value);
            },
            StmtKind::Continue => {},
            StmtKind::Expr(value) => {
                self.add_expr(bundle, value);
            },
        }
    }

    /// Add what statements want.
    pub fn add_stmts(&mut self, bundle: &Bundle, items: &Chain<Stmt>)
        ensures
            final(self).grew(*old(self), want_stmts(old(self).scope(*bundle), items)),
        decreases items,
    {
        match items {
            Chain::Nil => {},
            Chain::Cons(head, tail) => {
                self.add_stmt(bundle, head);
                self.add_stmts(bundle, tail);
            },
        }
    }

    /// Add what a pattern wants.
    pub fn add_pattern(&mut self, bundle: &Bundle, pattern: &Pattern)
        ensures
            final(self).grew(*old(self), want_pattern(old(self).scope(*bundle), pattern)),
        decreases pattern,
    {
        match &pattern.kind {
            PatternKind::Name(name) => {
                self.name(name);
            },
            PatternKind::Ctor { qualifier, name, args, has_parens: _ } => {
                match qualifier {
                    Some(group) => {
                        self.name(group);
                        if crate::resolve::group_row(&bundle.groups, group).is_some() {
                            self.add_sys_member(bundle, group, name);
                        }
                    },
                    None => {},
                }
                self.name(name);
                if is_text(name, "Call") {
                    self.name(&text("Option"));
                }
                self.add_patterns(bundle, args);
            },
            PatternKind::Tuple(elements) => {
                self.add_tuple(crate::lists::count(elements) as usize);
                self.add_patterns(bundle, elements);
            },
            PatternKind::Reflect { kind: _, generics, signature, binding } => {
                self.name(&text("OpenCode"));
                self.name(&text("DeclarationCode"));
                self.name(&text("FunctionCode"));
                self.add_generics(generics);
                self.add_optional_type(signature);
                self.add_pattern(bundle, binding);
            },
            _ => {},
        }
    }

    pub fn add_patterns(&mut self, bundle: &Bundle, items: &Chain<Pattern>)
        ensures
            final(self).grew(*old(self), want_patterns(old(self).scope(*bundle), items)),
        decreases items,
    {
        match items {
            Chain::Nil => {},
            Chain::Cons(head, tail) => {
                self.add_pattern(bundle, head);
                self.add_patterns(bundle, tail);
            },
        }
    }

    /// Add what a declared method wants.
    pub fn add_method(&mut self, bundle: &Bundle, method: &MethodDef)
        ensures
            final(self).grew(*old(self), want_method(old(self).scope(*bundle), method)),
    {
        self.add_generics(&method.generics);
        self.add_params(&method.params);
        self.add_optional_type(&method.ret);
        self.add_generics(&method.premises);
        self.add_stmts(bundle, &method.body);
    }

    pub fn add_methods(&mut self, bundle: &Bundle, items: &Chain<MethodDef>)
        ensures
            final(self).grew(*old(self), want_methods(old(self).scope(*bundle), items)),
        decreases items,
    {
        match items {
            Chain::Nil => {},
            Chain::Cons(head, tail) => {
                self.add_method(bundle, head);
                self.add_methods(bundle, tail);
            },
        }
    }

    pub fn add_requirement(&mut self, bundle: &Bundle, method: &InterfaceMethod)
        ensures
            final(self).grew(*old(self), want_requirement(old(self).scope(*bundle), method)),
    {
        self.add_generics(&method.generics);
        self.add_params(&method.params);
        self.add_optional_type(&method.ret);
        self.add_premises(&method.premises);
        match &method.body {
            Some(body) => {
                self.add_stmts(bundle, body);
            },
            None => {},
        }
    }

    pub fn add_requirements(&mut self, bundle: &Bundle, items: &Chain<InterfaceMethod>)
        ensures
            final(self).grew(*old(self), want_requirements(old(self).scope(*bundle), items)),
        decreases items,
    {
        match items {
            Chain::Nil => {},
            Chain::Cons(head, tail) => {
                self.add_requirement(bundle, head);
                self.add_requirements(bundle, tail);
            },
        }
    }

    pub fn add_interfaces(&mut self, bundle: &Bundle, items: &Chain<InterfaceDef>)
        ensures
            final(self).grew(*old(self), want_interfaces(old(self).scope(*bundle), items)),
        decreases items,
    {
        match items {
            Chain::Nil => {},
            Chain::Cons(head, tail) => {
                self.add_generics(&head.generics);
                self.add_bounds(&head.parents);
                self.add_associated_types(&head.associated);
                self.add_requirements(bundle, &head.methods);
                self.add_interfaces(bundle, tail);
            },
        }
    }

    pub fn add_fields_of(&mut self, bundle: &Bundle, items: &Chain<FieldDef>)
        ensures
            final(self).grew(*old(self), want_fields_of(old(self).scope(*bundle), items)),
        decreases items,
    {
        match items {
            Chain::Nil => {},
            Chain::Cons(head, tail) => {
                self.add_type(&head.ty);
                self.add_optional(bundle, &head.default);
                self.add_fields_of(bundle, tail);
            },
        }
    }

    pub fn add_class(&mut self, bundle: &Bundle, class: &ClassDef)
        ensures
            final(self).grew(*old(self), want_class(old(self).scope(*bundle), class)),
    {
        self.add_generics(&class.generics);
        match &class.parent {
            Some(parent) => {
                self.name(&parent.name);
                self.add_types(&parent.args);
            },
            None => {},
        }
        self.add_conformances(&class.interfaces);
        self.add_associated_types(&class.associated);
        self.add_fields_of(bundle, &class.fields);
        self.add_methods(bundle, &class.methods);
    }

    pub fn add_classes(&mut self, bundle: &Bundle, items: &Chain<ClassDef>)
        ensures
            final(self).grew(*old(self), want_classes(old(self).scope(*bundle), items)),
        decreases items,
    {
        match items {
            Chain::Nil => {},
            Chain::Cons(head, tail) => {
                self.add_class(bundle, head);
                self.add_classes(bundle, tail);
            },
        }
    }

    pub fn add_arm_fields(&mut self, items: &Chain<ArmField>)
        ensures
            final(self).grew(*old(self), want_arm_fields(items)),
        decreases items,
    {
        match items {
            Chain::Nil => {},
            Chain::Cons(head, tail) => {
                self.add_type(&head.ty);
                self.add_arm_fields(tail);
            },
        }
    }

    pub fn add_arm_defs(&mut self, items: &Chain<ArmDef>)
        ensures
            final(self).grew(*old(self), want_arm_defs(items)),
        decreases items,
    {
        match items {
            Chain::Nil => {},
            Chain::Cons(head, tail) => {
                self.add_arm_fields(&head.fields);
                self.add_arm_defs(tail);
            },
        }
    }

    pub fn add_enum(&mut self, bundle: &Bundle, item: &EnumDef)
        ensures
            final(self).grew(*old(self), want_enum(old(self).scope(*bundle), item)),
    {
        self.add_generics(&item.generics);
        self.add_conformances(&item.interfaces);
        self.add_associated_types(&item.associated);
        self.add_arm_defs(&item.arms);
        self.add_methods(bundle, &item.methods);
    }

    pub fn add_enums(&mut self, bundle: &Bundle, items: &Chain<EnumDef>)
        ensures
            final(self).grew(*old(self), want_enums(old(self).scope(*bundle), items)),
        decreases items,
    {
        match items {
            Chain::Nil => {},
            Chain::Cons(head, tail) => {
                self.add_enum(bundle, head);
                self.add_enums(bundle, tail);
            },
        }
    }

    pub fn add_function(&mut self, bundle: &Bundle, func: &FuncDef)
        ensures
            final(self).grew(*old(self), want_function(old(self).scope(*bundle), func)),
    {
        self.add_generics(&func.generics);
        self.add_params(&func.params);
        self.add_optional_type(&func.ret);
        self.add_stmts(bundle, &func.body);
    }

    pub fn add_functions(&mut self, bundle: &Bundle, items: &Chain<FuncDef>)
        ensures
            final(self).grew(*old(self), want_functions(old(self).scope(*bundle), items)),
        decreases items,
    {
        match items {
            Chain::Nil => {},
            Chain::Cons(head, tail) => {
                self.add_function(bundle, head);
                self.add_functions(bundle, tail);
            },
        }
    }

    /// Add names that a build demands besides.
    pub fn add_roots(&mut self, items: &Chain<Text>)
        ensures
            final(self).grew(*old(self), want_roots(items)),
        decreases items,
    {
        match items {
            Chain::Nil => {},
            Chain::Cons(head, tail) => {
                self.name(head);
                self.add_roots(tail);
            },
        }
    }
}

} // verus!
