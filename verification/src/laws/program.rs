//! The checked module.

use vstd::prelude::*;
use crate::ast::{ClassDef, Module, nowhere};
use crate::chain::{chain_of, Chain};
use crate::context::Ctx;
use crate::hir::{HExpr, HKind, HirFunc, TableAction, TargetKind};
use crate::laws::lists::law_concat;
use crate::model::assembly::{class_exports, collect_exports, enum_exports, function_exports, interface_exports, order_funcs, take_made};
use crate::model::conform::find_method_owner;
use crate::model::fulfil::declared_class;
use crate::model::lists::{concat, cons, count, nth, one};
use crate::model::lookup::{class_at, class_of, interface_at};
use crate::model::modules::{check_module, check_module_with, compiled_core, core_source, declare_module, default_options, empty_module, import_func_start, plan_imports, reserved_count};
use crate::model::resolve::unnamed;
use crate::model::rows::{row_has_var, substitute_row};
use crate::model::scope::hexpr;
use crate::model::sound::{Room, callee_covered, construct_covered, covered, declares_row, ends_in, expr_ok, func_ok, funcs_ok, grant_covered, is_arm, is_operator, lemma_form_ok, method_covered, module_ok, names_target, requirement_covered, row_in, spawn_covered};
use crate::problem::Problem;
use crate::program::{CheckOptions, Declared, DefKind, Halt, HirExport, HirModule, Image};
use crate::state::{MadeFunc, Target};
use crate::text::Text;
use crate::types::{Row, RowElem, Ty};

verus! {

/// Whether a list holds a function of one index.
pub open spec fn has_func(made: Chain<MadeFunc>, index: u32, func: HirFunc) -> bool
    decreases made,
{
    match made {
        Chain::Nil => false,
        Chain::Cons(head, tail) => (head.index == index && head.func == func) || has_func(*tail, index, func),
    }
}

proof fn lemma_take_made(made: Chain<MadeFunc>, index: u32, other: u32, func: HirFunc)
    ensures
        take_made(made, index).1 matches Some(found) ==> has_func(made, index, found),
        has_func(take_made(made, index).0, other, func) ==> has_func(made, other, func),
    decreases made,
{
    match made {
        Chain::Nil => {},
        Chain::Cons(_, tail) => lemma_take_made(*tail, index, other, func),
    }
}

/// A checked module holds one function for each index from the first to
/// the last, each of them the one that was made under its index.
pub proof fn law_order_funcs(made: Chain<MadeFunc>, at: u32, total: u32)
    requires
        at <= total,
        order_funcs(made, at, total) is Ok,
    ensures
        order_funcs(made, at, total)->Ok_0@.len() == total - at,
        forall|i: int| 0 <= i < total - at ==> has_func(made, (at + i) as u32, #[trigger] order_funcs(made, at, total)->Ok_0@[i]),
    decreases total - at,
{
    if at < total {
        let (rest, found) = take_made(made, at);
        let next = (at + 1) as u32;
        law_order_funcs(rest, next, total);
        let more = order_funcs(rest, next, total)->Ok_0;
        let all = order_funcs(made, at, total)->Ok_0;
        assert(all == cons(found->0, more));
        assert forall|i: int| 0 <= i < total - at implies has_func(made, (at + i) as u32, #[trigger] all@[i]) by {
            if i == 0 {
                lemma_take_made(made, at, at, found->0);
            } else {
                assert(all@[i] == more@[i - 1]);
                lemma_take_made(made, at, (at + i) as u32, all@[i]);
            }
        }
    }
}

/// A module without one of its reserved functions is not complete.
pub proof fn law_order_funcs_complete(made: Chain<MadeFunc>, at: u32, total: u32)
    ensures
        order_funcs(made, at, total) matches Err(halt) ==> halt is Unchecked,
    decreases total - at,
{
    if at < total {
        law_order_funcs_complete(take_made(made, at).0, (at + 1) as u32, total);
    }
}

/// Each class of a module is exported under its name, in order.
pub proof fn law_class_exports(cx: &Ctx, classes: &Chain<ClassDef>, is_core: bool)
    ensures
        class_exports(cx, classes, is_core)@ == classes@.map_values(|c: ClassDef| HirExport { kind: DefKind::Class, name: c.name, def: declared_class(cx, &c.name, is_core) }),
    decreases classes,
{
    let f = |c: ClassDef| HirExport { kind: DefKind::Class, name: c.name, def: declared_class(cx, &c.name, is_core) };
    match classes {
        Chain::Nil => {
            assert(class_exports(cx, classes, is_core)@ =~= classes@.map_values(f));
        },
        Chain::Cons(_, tail) => {
            law_class_exports(cx, tail, is_core);
            assert(class_exports(cx, classes, is_core)@ =~= classes@.map_values(f));
        },
    }
}

/// A module exports its interfaces, classes, enums and functions, in this
/// order, and nothing else.
pub proof fn law_collect_exports(cx: &Ctx, module: &Module, is_core: bool)
    ensures
        collect_exports(cx, module, is_core)@ == interface_exports(cx, &module.interfaces, is_core)@ + class_exports(cx, &module.classes, is_core)@
            + enum_exports(cx, &module.enums, is_core)@ + function_exports(cx, &module.funcs, is_core)@,
{
    let funcs = function_exports(cx, &module.funcs, is_core);
    let enums = concat(enum_exports(cx, &module.enums, is_core), funcs);
    let classes = concat(class_exports(cx, &module.classes, is_core), enums);
    law_concat(enum_exports(cx, &module.enums, is_core), funcs);
    law_concat(class_exports(cx, &module.classes, is_core), enums);
    law_concat(interface_exports(cx, &module.interfaces, is_core), classes);
    assert(collect_exports(cx, module, is_core)@ =~= interface_exports(cx, &module.interfaces, is_core)@ + class_exports(cx, &module.classes, is_core)@
        + enum_exports(cx, &module.enums, is_core)@ + function_exports(cx, &module.funcs, is_core)@);
}

/// The core owns the module path `core`: no source module is checked under
/// it.
pub proof fn law_core_path(module: &Module, options: &CheckOptions)
    requires
        options.path@ == "core"@,
    ensures
        check_module_with(module, options) == Err::<HirModule, Halt>(Halt::Source(unnamed(Problem::CorePath, nowhere()))),
{
}

/// The plan for other modules names the indices that the check reserves
/// for them.
pub proof fn law_plan_imports(module: &Module, options: &CheckOptions)
    ensures
        plan_imports(module, options) matches Ok(plan) ==> {
            let core = core_source(options, &empty_module());
            &&& plan.core_funcs == reserved_count(module, core)
            &&& plan.import_funcs == import_func_start(module, core, options)
        },
{
}

/// In a checked module that takes no function from elsewhere, every
/// function stands on its slots, its captures and its row.
pub proof fn law_functions_stand(module: Module, options: CheckOptions, declared: Declared, done: HirModule)
    requires
        module_ok(module, options, done),
        declare_module(&module, core_source(&options, &empty_module()), &options) == Ok::<Declared, Halt>(declared),
        compiled_core(&options) is None,
        options.imported.funcs is Nil,
    ensures
        funcs_ok(&declared.cx, done.funcs),
{
}

/// Where every function of a list stands, each of them does.
pub proof fn law_each_function_stands(cx: &Ctx, funcs: Chain<HirFunc>, at: int)
    requires
        funcs_ok(cx, funcs),
        0 <= at < funcs@.len(),
    ensures
        func_ok(cx, funcs@[at]),
    decreases funcs,
{
    match funcs {
        Chain::Nil => {},
        Chain::Cons(_, tail) => {
            if at > 0 {
                law_each_function_stands(cx, *tail, at - 1);
            }
        },
    }
}

/// An operation that a standing body performs is in the manifest, and the
/// row of the body covers it.
pub proof fn law_performed_is_covered(room: Room, ty: Ty, mutable: bool, op: u32, args: Chain<HExpr>)
    requires
        expr_ok(room, hexpr(ty, mutable, HKind::Perform { op, args })),
    ensures
        nth(&room.cx.bundle.ops, op) matches Some(def) && row_in(room, one(RowElem::Op(def.row))),
{
    lemma_form_ok(room, ty, mutable, HKind::Perform { op, args });
}

/// A function, method or initializer that a standing body calls declares
/// a row that the row of the body covers, under the effect arguments of
/// the call. The operators of the primitive types are called at no
/// charge.
pub proof fn law_called_is_covered(room: Room, ty: Ty, mutable: bool, func: u32, targs: Chain<Ty>, rowargs: Chain<Row>, args: Chain<HExpr>)
    requires
        expr_ok(room, hexpr(ty, mutable, HKind::Call { func, targs, rowargs, args })),
        !is_operator(&room.cx, func),
    ensures
        exists|row: Row| #[trigger] declares_row(&room.cx, func, row)
            && (row_in(room, substitute_row(&row, &rowargs)) || (rowargs is Nil && row_in(room, row))),
{
    lemma_form_ok(room, ty, mutable, HKind::Call { func, targs, rowargs, args });
    reveal(callee_covered);
}

/// The class of the receiver of a method call in a standing body answers
/// the selector, with a method whose row the row of the body covers.
pub proof fn law_method_call_is_covered(room: Room, ty: Ty, mutable: bool, recv: HExpr, selector: Text, generic_owner: bool, own_targs: Chain<Ty>, own_rowargs: Chain<Row>, args: Chain<HExpr>)
    requires
        expr_ok(room, hexpr(ty, mutable, HKind::MethodCall { recv, selector, generic_owner, own_targs, own_rowargs, args })),
    ensures
        class_of(&room.cx, &recv.ty) matches Some(nominal) && find_method_owner(&room.cx, nominal.class, &selector) matches Some(found)
            && row_in(room, substitute_row(&found.sig.row, &own_rowargs)),
{
    lemma_form_ok(room, ty, mutable, HKind::MethodCall { recv, selector, generic_owner, own_targs, own_rowargs, args });
    reveal(method_covered);
}

/// The row of a standing body covers the row that an interface requires
/// of a method that the body calls, under the effect arguments of the
/// interface and of the call.
pub proof fn law_interface_call_is_covered(room: Room, ty: Ty, mutable: bool, recv: HExpr, interface: u32, method: u32, selector: Text, own_targs: Chain<Ty>, own_rowargs: Chain<Row>, args: Chain<HExpr>)
    requires
        expr_ok(room, hexpr(ty, mutable, HKind::InterfaceCall { recv, interface, method, selector, own_targs, own_rowargs, args })),
    ensures
        nth(&interface_at(&room.cx, interface).methods, method) matches Some(required) && ((!row_has_var(&required.row) && row_in(
            room,
            required.row,
        )) || (exists|rows: Chain<Row>|
            ends_in(rows, count(&interface_at(&room.cx, interface).effect_params), own_rowargs) && row_in(
                room,
                #[trigger] substitute_row(&required.row, &rows),
            ))),
{
    lemma_form_ok(room, ty, mutable, HKind::InterfaceCall { recv, interface, method, selector, own_targs, own_rowargs, args });
    reveal(requirement_covered);
}

/// The row of a standing body covers the row of the initializer of a
/// class that the body makes an instance of. The arms of an enum have no
/// initializer.
pub proof fn law_construct_is_covered(room: Room, ty: Ty, mutable: bool, class: u32, targs: Chain<Ty>, args: Chain<HExpr>)
    requires
        expr_ok(room, hexpr(ty, mutable, HKind::Construct { class, targs, args })),
        !is_arm(&room.cx, class),
    ensures
        class_at(&room.cx, class).init matches Some(init)
            ==> exists|rows: Chain<Row>| row_in(room, #[trigger] substitute_row(&init.row, &rows)),
{
    lemma_form_ok(room, ty, mutable, HKind::Construct { class, targs, args });
    reveal(construct_covered);
}

/// A standing body that spawns a process covers the spawn operation and
/// the row of the body that it spawns.
pub proof fn law_spawn_is_covered(room: Room, ty: Ty, mutable: bool, class: u32, body: u32, ctor_ty: Ty, body_ty: Ty, args: Chain<HExpr>)
    requires
        expr_ok(room, hexpr(ty, mutable, HKind::Spawn { class, body, ctor_ty, body_ty, args })),
    ensures
        covered(room, room.cx.bundle.slots.proc_spawn),
        find_method_owner(&room.cx, class, &chain_of("on_spawn"@)) matches Some(found) && found.sig.func == body
            && row_in(room, found.sig.row),
{
    lemma_form_ok(room, ty, mutable, HKind::Spawn { class, body, ctor_ty, body_ty, args });
    reveal(spawn_covered);
}

/// A standing body that passes a policy target on covers it.
pub proof fn law_grant_is_covered(room: Room, ty: Ty, mutable: bool, target: TargetKind, entry: u32, table: HExpr, mock: Option<HExpr>)
    requires
        expr_ok(room, hexpr(ty, mutable, HKind::TableEdit { action: TableAction::Pass, target, entry, table, mock })),
    ensures
        exists|row: u32| #[trigger] names_target(&room.cx, (Target { kind: target, slot: entry, row }))
            && row_in(room, one(RowElem::Op(row))),
{
    lemma_form_ok(room, ty, mutable, HKind::TableEdit { action: TableAction::Pass, target, entry, table, mock });
    reveal(grant_covered);
}

/// The default options use the prelude, check no provider and import
/// nothing.
pub proof fn law_default_options(module: &Module, image: Image)
    ensures
        check_module(module, image) == check_module_with(module, &default_options(image)),
        default_options(image).prelude,
        !default_options(image).build_core_provider,
        default_options(image).core is None,
        default_options(image).path is Nil,
{
}

} // verus!
