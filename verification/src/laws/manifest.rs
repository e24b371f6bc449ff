//! Manifest operations and the checked module: what stands for what.

use vstd::prelude::*;
use crate::abi::{AbiType, GroupDef, OpDef, PrimKind};
use crate::ast::{Expr, Module, Span, TypeExpr};
use crate::chain::Chain;
use crate::context::{ClassInfo, ClassKind, ConformanceInfo, Ctx, InterfaceInfo, InterfaceMethodSig, MethodSig, NameEntry, Params};
use crate::hir::{HExpr, HKind, HirFunc, NativeOp, TargetKind};
use crate::laws::arguments::law_check_args_simple;
use crate::laws::calls::target;
use crate::laws::fitting::arguments_fit;
use crate::laws::interfaces::law_fixed_member;
use crate::laws::lists::{law_concat, law_falses, law_nth};
use crate::laws::rows::elements;
use crate::model::assembly::{assemble, class_conformances, class_key, collect_core_exports, collect_exports, core_path, ctor_params, hir_class, hir_classes, hir_conformances, hir_interfaces, hir_requirements, member_bindings, method_names, origin_of, role_class};
use crate::model::control::check_sys_call;
use crate::model::lists::{concat, count, falses, one};
use crate::model::lookup::{class_at, meta_at};
use crate::model::names::{camel_member, dotted};
use crate::model::scope::charge_row;
use crate::model::system::{abi_type, abi_types, charge_op, check_sys_value, digest_expr, exact_target, freeze_expr, group_target, op_at, op_fn_type, op_params, op_reply, resolve_sys_member};
use crate::problem::Stop;
use crate::program::{CheckOptions, ClassOrigin, CtorKind, FieldDefault, FuncBinding, HirClass, HirConformance, HirInterface, HirInterfaceMethod, Key};
use crate::state::Checker;
use crate::text::Text;
use crate::types::{RowElem, Ty};

verus! {

/// An operation is charged by its own row element.
pub proof fn law_charge_op(cx: &Ctx, st: Checker, op: u32, span: Span)
    ensures
        charge_op(cx, st, op, span).1 is Ok ==> op < cx.bundle.ops@.len() && charge_op(cx, st, op, span) == charge_row(cx, st, &one(RowElem::Op(cx.bundle.ops@[op as int].row)), span),
        op >= cx.bundle.ops@.len() ==> charge_op(cx, st, op, span).1 is Err,
{
    law_nth(&cx.bundle.ops, op);
}

/// A manifest type stands for a type of its kind.
pub open spec fn of_abi_kind(ty: AbiType, found: Ty) -> bool {
    match ty {
        AbiType::Primitive(kind) => match kind {
            PrimKind::Unit => found == Ty::Unit,
            PrimKind::Bool => found == Ty::Bool,
            PrimKind::Int => found == Ty::Int,
            PrimKind::Float => found == Ty::Float,
            PrimKind::Str => found == Ty::Str,
            PrimKind::Bytes => found == Ty::Bytes,
            PrimKind::FileHandle => found == Ty::FileHandle,
            PrimKind::SnapshotImage => found == Ty::SnapshotImage,
            PrimKind::Never => found == Ty::Never,
        },
        AbiType::Core(_) => found is Class,
        AbiType::Native(_) => true,
        AbiType::ListOf(_) => found is ListOf,
        AbiType::MapOf(_, _) => found is MapOf,
        AbiType::Tuple(items) => found matches Ty::Tuple(elements) && elements@.len() == items@.len(),
        AbiType::Apply(_, args) => found matches Ty::Inst(_, arguments) && arguments@.len() == args@.len(),
        AbiType::Var(_) => true,
        AbiType::Resource => found == Ty::FileHandle,
    }
}

/// A manifest type gives a type of its kind.
pub proof fn law_abi_type(cx: &Ctx, ty: &AbiType, vars: &Chain<Ty>, span: Span)
    ensures
        abi_type(cx, ty, vars, span) matches Ok(found) ==> of_abi_kind(*ty, found),
{
    match ty {
        AbiType::Tuple(items) => law_abi_types(cx, items, vars, span),
        AbiType::Apply(_, args) => law_abi_types(cx, args, vars, span),
        _ => {},
    }
}

/// Manifest types give one type each, in order.
pub proof fn law_abi_types(cx: &Ctx, items: &Chain<AbiType>, vars: &Chain<Ty>, span: Span)
    ensures
        abi_types(cx, items, vars, span) matches Ok(found) ==> found@.len() == items@.len() && forall|i: int|
            0 <= i < items@.len() ==> abi_type(cx, &#[trigger] items@[i], vars, span) == Ok::<Ty, Stop>(found@[i]),
    decreases items,
{
    if let Chain::Cons(_, tail) = items {
        law_abi_types(cx, tail, vars, span);
        if let Ok(found) = abi_types(cx, items, vars, span) {
            let rest = abi_types(cx, tail, vars, span)->Ok_0;
            assert forall|i: int| 0 <= i < items@.len() implies abi_type(cx, &#[trigger] items@[i], vars, span) == Ok::<Ty, Stop>(found@[i]) by {
                if i > 0 {
                    assert(items@[i] == tail@[i - 1]);
                    assert(found@[i] == rest@[i - 1]);
                }
            }
        }
    }
}

/// The type of an operation as a value has its parameters, none of them
/// changed, its reply, and no row: its identity carries the charge.
pub proof fn law_op_fn_type(cx: &Ctx, op: u32, span: Span)
    ensures
        op_fn_type(cx, op, span) matches Ok(found) ==> op < cx.bundle.ops@.len() && (found matches Ty::Fn(params, muts, ret, row) && row@.len() == 0 && params@.len()
            == cx.bundle.ops@[op as int].params@.len() && muts@.len() == params@.len() && (forall|i: int| 0 <= i < muts@.len() ==> !#[trigger] muts@[i]) && of_abi_kind(
            cx.bundle.ops@[op as int].reply,
            *ret,
        )),
{
    law_nth(&cx.bundle.ops, op);
    if let Ok(def) = op_at(cx, op, span) {
        law_abi_types(cx, &def.params, &Chain::Nil, span);
        law_abi_type(cx, &def.reply, &Chain::Nil, span);
        if let Ok(params) = op_params(cx, op, span) {
            law_falses(&params);
        }
    }
}

/// A surface name of a group stands for the fixed operation whose name it
/// spells.
pub proof fn law_sys_member(cx: &Ctx, group: &Text, member: &Text, span: Span)
    requires
        cx.bundle.ops@.len() <= u32::MAX,
    ensures
        resolve_sys_member(cx, group, member, span) matches Ok(op) ==> op < cx.bundle.ops@.len() && cx.bundle.ops@[op as int].fixed && cx.bundle.ops@[op as int].group == *group
            && cx.bundle.ops@[op as int].member == camel_member(member),
{
    law_fixed_member(&cx.bundle, group, &camel_member(member));
}

/// An operation value is the operation that it names.
pub proof fn law_sys_value(cx: &Ctx, group: &Text, member: &Text, span: Span)
    ensures
        check_sys_value(cx, group, member, span) matches Ok(found) ==> (resolve_sys_member(cx, group, member, span) matches Ok(op) && *found.kind == HKind::OpConst(op) && (op_fn_type(
            cx,
            op,
            span,
        ) matches Ok(fn_ty) && found.ty == Ty::Op(op, Box::new(fn_ty)))),
{
}

/// A call of an operation performs the operation that it names, with
/// arguments that fit its parameters, and gives its reply.
pub proof fn law_sys_call(cx: &Ctx, st: Checker, group: &Text, member: &Text, name_span: Span, type_args: &Chain<TypeExpr>, args: &Chain<Expr>, span: Span)
    requires
        group@ != "Vm"@,
        group@ != "Proc"@,
        check_sys_call(cx, st, group, member, name_span, type_args, args, span).1 is Ok,
    ensures
        resolve_sys_member(cx, group, member, name_span) matches Ok(op) && (*check_sys_call(cx, st, group, member, name_span, type_args, args, span).1->Ok_0.kind matches HKind::Perform {
            op: performed,
            args: given,
        } && performed == op && (op_params(cx, op, span) matches Ok(params) && (args@.len() <= u32::MAX && params@.len() <= u32::MAX ==> args@.len() == params@.len() && arguments_fit(
            cx,
            params@,
            given@,
        ))) && op_reply(cx, op, span) == Ok::<Ty, Stop>(check_sys_call(cx, st, group, member, name_span, type_args, args, span).1->Ok_0.ty)),
        type_args@.len() == 0,
{
    let op = resolve_sys_member(cx, group, member, name_span)->Ok_0;
    let params = op_params(cx, op, span)->Ok_0;
    if args@.len() <= u32::MAX && params@.len() <= u32::MAX {
        law_check_args_simple(cx, st, args, &params, &falses(&params), &Chain::Nil, member, span);
    }
}

/// A group target is the group of its name.
pub proof fn law_group_target(groups: &Chain<GroupDef>, name: &Text, at: u32)
    requires
        at + groups@.len() <= u32::MAX,
    ensures
        group_target(groups, name, at) matches Some(target) ==> target.kind == TargetKind::Group && at <= target.slot < at + groups@.len() && groups@[target.slot - at].name == *name
            && groups@[target.slot - at].row == target.row,
    decreases groups,
{
    if let Chain::Cons(head, tail) = groups {
        assert(groups@[0] == **head);
        if head.name != *name {
            law_group_target(tail, name, (at + 1) as u32);
            if let Some(target) = group_target(groups, name, at) {
                assert(groups@[target.slot - at] == tail@[target.slot - at - 1]);
            }
        }
    }
}

/// An exact target is the operation of its name.
pub proof fn law_exact_target(ops: &Chain<OpDef>, group: &Text, member: &Text, at: u32)
    requires
        at + ops@.len() <= u32::MAX,
    ensures
        exact_target(ops, group, member, at) matches Some(target) ==> target.kind == TargetKind::Exact && at <= target.slot < at + ops@.len() && ops@[target.slot - at].group == *group
            && ops@[target.slot - at].member == *member && ops@[target.slot - at].row == target.row,
    decreases ops,
{
    if let Chain::Cons(head, tail) = ops {
        assert(ops@[0] == **head);
        if !(head.group == *group && head.member == *member) {
            law_exact_target(tail, group, member, (at + 1) as u32);
            if let Some(target) = exact_target(ops, group, member, at) {
                assert(ops@[target.slot - at] == tail@[target.slot - at - 1]);
            }
        }
    }
}

/// A frozen copy has the type and the right of its value; a digest stands
/// for the value that it reads.
pub proof fn law_frozen(recv: HExpr)
    ensures
        freeze_expr(recv).ty == recv.ty,
        freeze_expr(recv).mutable == recv.mutable,
        *freeze_expr(recv).kind matches HKind::Native { op, args } && op == NativeOp::Freeze && args@ == seq![recv],
        digest_expr(recv).ty == Ty::Digest,
        *digest_expr(recv).kind matches HKind::Native { op, args } && op == NativeOp::Digest && args@ == seq![recv],
{
    reveal_with_fuel(Chain::items, 3);
    assert(one(recv)@ =~= seq![recv]);
}

/// A class belongs to the core, to this module, or to the module that it
/// comes from, by its number.
pub proof fn law_class_key(cx: &Ctx, origins: &Chain<ClassOrigin>, class: u32, path: &Text)
    ensures
        class < cx.user_start ==> class_key(cx, origins, class, path) == (Key { module: core_path(), name: class_at(cx, class).name }),
        cx.user_start <= class < cx.import_start ==> class_key(cx, origins, class, path) == (Key { module: *path, name: class_at(cx, class).name }),
        class >= cx.user_start && class >= cx.import_start ==> (origin_of(origins, class) matches Some(key) ==> class_key(cx, origins, class, path) == *key),
{
}

/// Whether a checked class is the resolved one.
pub open spec fn keeps_class(cx: &Ctx, info: ClassInfo, class: u32, found: HirClass) -> bool {
    &&& found.name == info.name
    &&& found.is_final == info.is_final
    &&& found.is_frozen == info.is_frozen
    &&& found.imported == info.imported
    &&& found.native_repr == info.native_repr
    &&& found.parent == info.parent
    &&& found.parent_args == meta_at(cx, class).parent_args
    &&& found.kind == info.kind
    &&& found.field_names == info.field_names
    &&& found.field_tys == info.field_tys
    &&& found.field_defaults == info.has_default
    &&& found.own_start == info.own_start
    &&& found.type_bounds == info.type_bounds
    &&& found.type_params == count(&info.type_params)
    &&& found.ctor_kind == (if info.kind == ClassKind::EnumCase {
        CtorKind::CaseFields
    } else if info.init is Some {
        CtorKind::Init
    } else {
        CtorKind::Defaults
    })
    &&& found.init == (match info.init {
        Some(init) => Some(init.func),
        None => None,
    })
    &&& found.ctor_row == (match info.init {
        Some(init) => init.row,
        None => Chain::Nil,
    })
    &&& found.methods@.len() == info.methods@.len()
    &&& forall|i: int| 0 <= i < info.methods@.len() ==> found.methods@[i] == (NameEntry { name: (#[trigger] info.methods@[i]).name, id: info.methods@[i].func })
}

proof fn lemma_method_names(methods: &Chain<MethodSig>)
    ensures
        method_names(methods)@.len() == methods@.len(),
        forall|i: int| 0 <= i < methods@.len() ==> method_names(methods)@[i] == (NameEntry { name: (#[trigger] methods@[i]).name, id: methods@[i].func }),
    decreases methods,
{
    if let Chain::Cons(_, tail) = methods {
        lemma_method_names(tail);
        assert forall|i: int| 0 <= i < methods@.len() implies method_names(methods)@[i] == (NameEntry { name: (#[trigger] methods@[i]).name, id: methods@[i].func }) by {
            if i > 0 {
                assert(methods@[i] == tail@[i - 1]);
                assert(method_names(methods)@[i] == method_names(tail)@[i - 1]);
            }
        }
    }
}

/// A checked class keeps what was resolved of it.
pub proof fn law_hir_class(cx: &Ctx, info: &ClassInfo, origins: &Chain<ClassOrigin>, table: &Chain<Chain<FieldDefault>>, class: u32, path: &Text)
    ensures
        keeps_class(cx, *info, class, hir_class(cx, info, origins, table, class, path)),
{
    lemma_method_names(&info.methods);
}

/// A checked module has one class for each resolved one, in order.
pub proof fn law_hir_classes(cx: &Ctx, classes: &Chain<ClassInfo>, origins: &Chain<ClassOrigin>, table: &Chain<Chain<FieldDefault>>, at: u32, path: &Text)
    requires
        at + classes@.len() <= u32::MAX,
    ensures
        hir_classes(cx, classes, origins, table, at, path)@.len() == classes@.len(),
        forall|i: int| 0 <= i < classes@.len() ==> keeps_class(cx, #[trigger] classes@[i], (at + i) as u32, hir_classes(cx, classes, origins, table, at, path)@[i]),
    decreases classes,
{
    if let Chain::Cons(head, tail) = classes {
        let next = (at + 1) as u32;
        law_hir_class(cx, &**head, origins, table, at, path);
        law_hir_classes(cx, tail, origins, table, next, path);
        let all = hir_classes(cx, classes, origins, table, at, path);
        let rest = hir_classes(cx, tail, origins, table, next, path);
        assert forall|i: int| 0 <= i < classes@.len() implies keeps_class(cx, #[trigger] classes@[i], (at + i) as u32, all@[i]) by {
            if i > 0 {
                assert(classes@[i] == tail@[i - 1]);
                assert(all@[i] == rest@[i - 1]);
                assert((at + i) as u32 == (next + (i - 1)) as u32);
            }
        }
    }
}

/// The constructor of a class takes what its initializer takes; that of an
/// arm takes its fields.
pub proof fn law_ctor_params(info: &ClassInfo)
    requires
        info.native_repr is None,
    ensures
        info.kind == ClassKind::EnumCase ==> ctor_params(info).types == info.field_tys && ctor_params(info).names == info.field_names,
        info.kind != ClassKind::EnumCase ==> (info.init matches Some(init) ==> ctor_params(info) == (Params { types: init.params, muts: init.param_muts, names: init.param_names })),
        info.kind != ClassKind::EnumCase && info.init is None ==> ctor_params(info).types@.len() == 0,
{
}

/// Whether a checked requirement is the resolved one.
pub open spec fn keeps_contract(sig: InterfaceMethodSig, found: HirInterfaceMethod) -> bool {
    &&& found.selector == sig.name
    &&& found.mut_self == sig.mut_self
    &&& found.params == sig.params
    &&& found.param_muts == sig.param_muts
    &&& found.param_names == sig.param_names
    &&& found.ret == sig.ret
    &&& found.row == sig.row
    &&& found.premises == sig.premises
    &&& found.type_bounds == sig.own_type_bounds
    &&& found.default_func == sig.default_func
    &&& found.default_binding == sig.default_binding
}

/// A checked interface has one method for each requirement, in order.
pub proof fn law_hir_requirements(methods: &Chain<InterfaceMethodSig>)
    ensures
        hir_requirements(methods)@.len() == methods@.len(),
        forall|i: int| 0 <= i < methods@.len() ==> keeps_contract(#[trigger] methods@[i], hir_requirements(methods)@[i]),
    decreases methods,
{
    if let Chain::Cons(_, tail) = methods {
        law_hir_requirements(tail);
        assert forall|i: int| 0 <= i < methods@.len() implies keeps_contract(#[trigger] methods@[i], hir_requirements(methods)@[i]) by {
            if i > 0 {
                assert(methods@[i] == tail@[i - 1]);
                assert(hir_requirements(methods)@[i] == hir_requirements(tail)@[i - 1]);
            }
        }
    }
}

/// Whether a checked interface is the resolved one.
pub open spec fn keeps_interface(info: InterfaceInfo, found: HirInterface) -> bool {
    &&& found.name == info.name
    &&& found.parents == info.parents
    &&& found.type_bounds == info.type_bounds
    &&& found.associated == info.associated
    &&& found.generic_is_effect == info.generic_is_effect
    &&& found.type_params == count(&info.type_params)
    &&& found.effect_params == count(&info.effect_params)
    &&& found.methods@.len() == info.methods@.len()
    &&& forall|i: int| 0 <= i < info.methods@.len() ==> keeps_contract(#[trigger] info.methods@[i], found.methods@[i])
}

/// A checked module has one interface for each resolved one, in order.
pub proof fn law_hir_interfaces(cx: &Ctx, interfaces: &Chain<InterfaceInfo>, at: u32, path: &Text)
    ensures
        hir_interfaces(cx, interfaces, at, path)@.len() == interfaces@.len(),
        forall|i: int| 0 <= i < interfaces@.len() ==> keeps_interface(#[trigger] interfaces@[i], hir_interfaces(cx, interfaces, at, path)@[i]),
    decreases interfaces,
{
    if let Chain::Cons(head, tail) = interfaces {
        law_hir_requirements(&head.methods);
        law_hir_interfaces(cx, tail, at.wrapping_add(1), path);
        let all = hir_interfaces(cx, interfaces, at, path);
        assert forall|i: int| 0 <= i < interfaces@.len() implies keeps_interface(#[trigger] interfaces@[i], all@[i]) by {
            if i > 0 {
                assert(interfaces@[i] == tail@[i - 1]);
                assert(all@[i] == hir_interfaces(cx, tail, at.wrapping_add(1), path)@[i - 1]);
            }
        }
    }
}

/// Whether a conformance stands in the list under its class.
pub open spec fn stands_under(items: Chain<HirConformance>, class: u32, info: ConformanceInfo) -> bool {
    items@.contains(HirConformance { class: class, info: info })
}

/// Every conformance of a class stands in the checked module under that
/// class.
pub proof fn law_hir_conformances(classes: &Chain<ClassInfo>, at: u32, which: int, item: int)
    requires
        at + classes@.len() <= u32::MAX,
        0 <= which < classes@.len(),
        0 <= item < classes@[which].conformances@.len(),
    ensures
        stands_under(hir_conformances(classes, at), (at + which) as u32, classes@[which].conformances@[item]),
    decreases classes,
{
    if let Chain::Cons(head, tail) = classes {
        let next = (at + 1) as u32;
        let own = class_conformances(&head.conformances, at);
        let rest = hir_conformances(tail, next);
        law_concat(own, rest);
        if which == 0 {
            lemma_class_conformances(&head.conformances, at);
            assert(own@[item] == (HirConformance { class: at, info: head.conformances@[item] }));
            assert(concat(own, rest)@[item] == own@[item]);
        } else {
            law_hir_conformances(tail, next, which - 1, item);
            let wanted = HirConformance { class: (at + which) as u32, info: classes@[which].conformances@[item] };
            assert(classes@[which] == tail@[which - 1]);
            assert(rest@.contains(wanted));
            let j = rest@.index_of(wanted);
            assert(concat(own, rest)@[own@.len() + j] == wanted);
        }
    }
}

proof fn lemma_class_conformances(items: &Chain<ConformanceInfo>, class: u32)
    ensures
        class_conformances(items, class)@.len() == items@.len(),
        forall|i: int| 0 <= i < items@.len() ==> class_conformances(items, class)@[i] == (HirConformance { class: class, info: #[trigger] items@[i] }),
    decreases items,
{
    if let Chain::Cons(_, tail) = items {
        lemma_class_conformances(tail, class);
        assert forall|i: int| 0 <= i < items@.len() implies class_conformances(items, class)@[i] == (HirConformance { class: class, info: #[trigger] items@[i] }) by {
            if i > 0 {
                assert(items@[i] == tail@[i - 1]);
                assert(class_conformances(items, class)@[i] == class_conformances(tail, class)@[i - 1]);
            }
        }
    }
}

/// A method is bound under the qualified name of its class.
pub proof fn law_member_bindings(key: &Key, methods: &Chain<NameEntry>)
    ensures
        member_bindings(key, methods)@.len() == methods@.len(),
        forall|i: int| 0 <= i < methods@.len() ==> member_bindings(key, methods)@[i] == (FuncBinding {
            key: Key { module: key.module, name: dotted(&key.name, &(#[trigger] methods@[i]).name) },
            func: methods@[i].id,
        }),
    decreases methods,
{
    if let Chain::Cons(_, tail) = methods {
        law_member_bindings(key, tail);
        assert forall|i: int| 0 <= i < methods@.len() implies member_bindings(key, methods)@[i] == (FuncBinding {
            key: Key { module: key.module, name: dotted(&key.name, &(#[trigger] methods@[i]).name) },
            func: methods@[i].id,
        }) by {
            if i > 0 {
                assert(methods@[i] == tail@[i - 1]);
                assert(member_bindings(key, methods)@[i] == member_bindings(key, tail)@[i - 1]);
            }
        }
    }
}

/// The class of a core role is the first core class of the name of the
/// role.
pub proof fn law_role_class(classes: &Chain<HirClass>, label: &Text, at: u32)
    requires
        at + classes@.len() <= u32::MAX,
    ensures
        role_class(classes, label, at) matches Some(class) ==> at <= class < at + classes@.len() && classes@[class - at].key.module@ == "core"@ && classes@[class - at].key.name == *label,
        role_class(classes, label, at) is None ==> forall|i: int| 0 <= i < classes@.len() ==> !((#[trigger] classes@[i]).key.module@ == "core"@ && classes@[i].key.name == *label),
    decreases classes,
{
    if let Chain::Cons(head, tail) = classes {
        law_role_class(tail, label, (at + 1) as u32);
        assert(classes@[0] == **head);
        if !(head.key.module@ == "core"@ && head.key.name == *label) {
            if let Some(class) = role_class(classes, label, at) {
                assert(classes@[class - at] == tail@[class - at - 1]);
            } else {
                assert forall|i: int| 0 <= i < classes@.len() implies !((#[trigger] classes@[i]).key.module@ == "core"@ && classes@[i].key.name == *label) by {
                    if i > 0 {
                        assert(classes@[i] == tail@[i - 1]);
                    }
                }
            }
        }
    }
}

/// The parts of a checked module come from the tables, and its entry is the
/// one that was recorded.
pub proof fn law_assemble(cx: &Ctx, funcs: Chain<HirFunc>, defaults: &Chain<Chain<FieldDefault>>, entry: u32, module: &Module, core: &Module, options: &CheckOptions)
    ensures
        assemble(cx, funcs, defaults, entry, module, core, options).funcs == funcs,
        assemble(cx, funcs, defaults, entry, module, core, options).entry == entry,
        assemble(cx, funcs, defaults, entry, module, core, options).exports == collect_exports(cx, module, false),
        assemble(cx, funcs, defaults, entry, module, core, options).classes == hir_classes(cx, &cx.classes, &options.imported.origins, defaults, 0u32, &options.path),
        assemble(cx, funcs, defaults, entry, module, core, options).interfaces == hir_interfaces(cx, &cx.interfaces, 0u32, &options.path),
        assemble(cx, funcs, defaults, entry, module, core, options).conformances == hir_conformances(&cx.classes, 0u32),
        !options.build_core_provider ==> assemble(cx, funcs, defaults, entry, module, core, options).core_exports@.len() == 0,
        options.build_core_provider ==> assemble(cx, funcs, defaults, entry, module, core, options).core_exports == collect_core_exports(cx, core, &funcs),
{
}

} // verus!
