//! Where the classes of a check stand in their table, how their fields are
//! laid out, and that each field has a default entry.

use vstd::prelude::*;
use crate::ast::{ArmDef, ArmField, ClassDef, EnumDef, InterfaceDef, Module, Span};
use crate::chain::Chain;
use crate::context::{ClassInfo, ClassKind, ClassMeta, Ctx, Decl, InterfaceUse, Layout, NameEntry, TyEnv, UseEntry};
use crate::laws::declarations::{law_link_class_parent, law_link_class_parents, parents_first};
use crate::laws::defaults::{law_arm_defaults, law_check_field_defaults, law_class_defaults, law_own_fields};
use crate::laws::lists::{law_append, law_count, law_nth, law_set_nth};
use crate::model::assembly::{hir_classes, own_defaults};
use crate::model::bodies::{arm_defaults, check_class_defaults, check_defaults, check_field_defaults, set_arm_defaults, set_enum_defaults};
use crate::model::classes::{arm_ids, arm_info, arm_layout, arm_layouts, class_repr, class_scope, declare_class, enum_methods, inherited_layout, link_class_parent, link_class_parents, new_meta, parent_span, register_arms, register_classes, register_core_native_class, register_enums, register_type_names, resolve_all_classes, resolve_class, resolve_each_class, resolve_each_enum, resolve_enum, source_span, with_arms, with_values};
use crate::model::conform::empty_bounds;
use crate::model::fulfil::{declared_class, with_class};
use crate::model::interfaces::{register_interface_names, unresolved_interface};
use crate::model::lists::{append, concat, cons, count, find_id, set_nth};
use crate::model::lookup::{class_at, class_self_type, meta_at};
use crate::model::members::resolve_conformance_shapes;
use crate::model::modules::{check_every_default, compiled_core, core_names, empty_defaults, predeclare, start, unresolved_classes, with_uses};
use crate::model::names::dotted;
use crate::model::resolve::{resolve_generic_bounds, resolve_type, split_generics};
use crate::program::{CheckOptions, ClassOrigin, FieldDefault, HirClass};
use crate::state::Output;
use crate::text::Text;

verus! {

/// The number of classes that enums and their arms take in the table.
pub open spec fn enum_total(enums: Chain<EnumDef>) -> nat
    decreases enums,
{
    match enums {
        Chain::Nil => 0,
        Chain::Cons(head, tail) => 1 + head.arms@.len() + enum_total(*tail),
    }
}

/// The number of classes that a module takes in the table.
pub open spec fn class_total(module: Module) -> nat {
    module.classes@.len() + enum_total(module.enums)
}

/// Whether classes are named by consecutive indices.
pub open spec fn classes_numbered(entries: Chain<NameEntry>, classes: Chain<ClassDef>, first: int) -> bool
    decreases classes,
{
    match classes {
        Chain::Nil => true,
        Chain::Cons(head, tail) => find_id(&entries, &head.name) == Some(first as u32) && classes_numbered(entries, *tail, first + 1),
    }
}

/// Whether enums are named by consecutive indices, with room for their
/// arms.
pub open spec fn enums_numbered(entries: Chain<NameEntry>, enums: Chain<EnumDef>, first: int) -> bool
    decreases enums,
{
    match enums {
        Chain::Nil => true,
        Chain::Cons(head, tail) => {
            find_id(&entries, &head.name) == Some(first as u32) && enums_numbered(entries, *tail, first + 1 + head.arms@.len())
        },
    }
}

/// Whether the classes and enums of a module are named by consecutive
/// indices.
pub open spec fn module_numbered(entries: Chain<NameEntry>, module: Module, first: int) -> bool {
    &&& classes_numbered(entries, module.classes, first)
    &&& enums_numbered(entries, module.enums, first + module.classes@.len())
}

/// Whether a name table has every name of another, with its index.
pub open spec fn more_names(a: Chain<NameEntry>, b: Chain<NameEntry>) -> bool {
    forall|name: Text| (#[trigger] find_id(&a, &name)) is Some ==> find_id(&b, &name) == find_id(&a, &name)
}

proof fn lemma_find_append(entries: Chain<NameEntry>, entry: NameEntry, name: Text)
    ensures
        find_id(&append(entries, entry), &name) == (match find_id(&entries, &name) {
            Some(id) => Some(id),
            None => if entry.name == name {
                Some(entry.id)
            } else {
                None
            },
        }),
    decreases entries,
{
    reveal_with_fuel(find_id, 3);
    match entries {
        Chain::Nil => {},
        Chain::Cons(_, tail) => lemma_find_append(*tail, entry, name),
    }
}

proof fn lemma_classes_more(a: Chain<NameEntry>, b: Chain<NameEntry>, classes: Chain<ClassDef>, first: int)
    requires
        more_names(a, b),
        classes_numbered(a, classes, first),
    ensures
        classes_numbered(b, classes, first),
    decreases classes,
{
    match classes {
        Chain::Nil => {},
        Chain::Cons(_, tail) => lemma_classes_more(a, b, *tail, first + 1),
    }
}

/// The name table that a declaration enters.
pub open spec fn types_of(cx: Ctx, is_core: bool) -> Chain<NameEntry> {
    if is_core {
        cx.core_types
    } else {
        cx.user_types
    }
}

/// What registering names does to the tables.
pub open spec fn registered(a: Ctx, b: Ctx, is_core: bool, total: nat) -> bool {
    &&& b.metas@.len() == a.metas@.len() + total
    &&& more_names(types_of(a, is_core), types_of(b, is_core))
    &&& types_of(a, !is_core) == types_of(b, !is_core)
    &&& parents_first(a.metas@) ==> parents_first(b.metas@)
    &&& b.classes == a.classes
}

proof fn lemma_declare_class(cx: Ctx, name: Text, meta: ClassMeta, is_core: bool, span: Span)
    requires
        cx.metas@.len() < u32::MAX,
        meta.parent matches Some(parent) ==> parent < cx.metas@.len(),
    ensures
        declare_class(cx, name, meta, is_core, span) matches Ok(next) ==> {
            &&& registered(cx, next, is_core, 1)
            &&& meta.kind == ClassKind::EnumCase ==> types_of(next, is_core) == types_of(cx, is_core)
            &&& meta.kind != ClassKind::EnumCase ==> find_id(&types_of(next, is_core), &name) == Some(cx.metas@.len() as u32)
        },
{
    law_count(&cx.metas);
    law_append(cx.metas, meta);
    let id = count(&cx.metas);
    let entry = NameEntry { name, id };
    assert forall|other: Text| (#[trigger] find_id(&types_of(cx, is_core), &other)) is Some implies find_id(
        &append(types_of(cx, is_core), entry),
        &other,
    ) == find_id(&types_of(cx, is_core), &other) by {
        lemma_find_append(types_of(cx, is_core), entry, other);
    }
    lemma_find_append(types_of(cx, is_core), entry, name);
}

proof fn lemma_register_classes(cx: Ctx, classes: Chain<ClassDef>, is_core: bool)
    requires
        cx.metas@.len() + classes@.len() <= u32::MAX,
    ensures
        register_classes(cx, &classes, is_core) matches Ok(next) ==> registered(cx, next, is_core, classes@.len())
            && classes_numbered(types_of(next, is_core), classes, cx.metas@.len() as int),
    decreases classes,
{
    match classes {
        Chain::Nil => {},
        Chain::Cons(head, tail) => {
            let generics = split_generics(&head.generics);
            let id = count(&cx.metas);
            let meta = new_meta(&head.name, count(&generics.types), ClassKind::Normal, head.is_final);
            lemma_declare_class(cx, head.name, meta, is_core, head.name_span);
            if let Ok(next) = declare_class(cx, head.name, meta, is_core, head.name_span) {
                let after = if is_core {
                    Ctx { natives: register_core_native_class(next.natives, &head.name, id), ..next }
                } else {
                    next
                };
                lemma_register_classes(after, *tail, is_core);
            }
        },
    }
}

proof fn lemma_register_arms(cx: Ctx, arms: Chain<ArmDef>, family: Text, type_params: u32, parent: u32, seen: Chain<Text>, is_core: bool)
    requires
        cx.metas@.len() + arms@.len() <= u32::MAX,
        parent < cx.metas@.len(),
    ensures
        register_arms(cx, &arms, &family, type_params, parent, seen, is_core) matches Ok(next) ==> registered(cx, next, is_core, arms@.len())
            && types_of(next, is_core) == types_of(cx, is_core),
    decreases arms,
{
    match arms {
        Chain::Nil => {},
        Chain::Cons(head, tail) => {
            let full = dotted(&family, &head.name);
            let meta = ClassMeta { parent: Some(parent), ..new_meta(&full, type_params, ClassKind::EnumCase, false) };
            lemma_declare_class(cx, full, meta, is_core, head.name_span);
            if let Ok(next) = declare_class(cx, full, meta, is_core, head.name_span) {
                lemma_register_arms(next, *tail, family, type_params, parent, cons(head.name, seen), is_core);
            }
        },
    }
}

proof fn lemma_register_enums(cx: Ctx, enums: Chain<EnumDef>, is_core: bool)
    requires
        cx.metas@.len() + enum_total(enums) <= u32::MAX,
    ensures
        register_enums(cx, &enums, is_core) matches Ok(next) ==> registered(cx, next, is_core, enum_total(enums))
            && enums_numbered(types_of(next, is_core), enums, cx.metas@.len() as int),
    decreases enums,
{
    match enums {
        Chain::Nil => {},
        Chain::Cons(head, tail) => {
            let arity = count(&split_generics(&head.generics).types);
            let parent = count(&cx.metas);
            law_count(&cx.metas);
            let meta = new_meta(&head.name, arity, ClassKind::EnumParent, false);
            lemma_declare_class(cx, head.name, meta, is_core, head.name_span);
            if let Ok(named) = declare_class(cx, head.name, meta, is_core, head.name_span) {
                lemma_register_arms(named, head.arms, head.name, arity, parent, Chain::Nil, is_core);
                if let Ok(next) = register_arms(named, &head.arms, &head.name, arity, parent, Chain::Nil, is_core) {
                    lemma_register_enums(next, *tail, is_core);
                }
            }
        },
    }
}

proof fn lemma_register_types(cx: Ctx, module: Module, is_core: bool)
    requires
        cx.metas@.len() + class_total(module) <= u32::MAX,
    ensures
        register_type_names(cx, &module, is_core) matches Ok(next) ==> registered(cx, next, is_core, class_total(module))
            && module_numbered(types_of(next, is_core), module, cx.metas@.len() as int),
{
    lemma_register_classes(cx, module.classes, is_core);
    if let Ok(next) = register_classes(cx, &module.classes, is_core) {
        lemma_register_enums(next, module.enums, is_core);
        if let Ok(done) = register_enums(next, &module.enums, is_core) {
            lemma_classes_more(types_of(next, is_core), types_of(done, is_core), module.classes, cx.metas@.len() as int);
        }
    }
}

/// Whether two tables name the same types and hold the same classes.
pub open spec fn tables_kept(a: Ctx, b: Ctx) -> bool {
    &&& a.user_types == b.user_types
    &&& a.core_types == b.core_types
    &&& a.metas == b.metas
    &&& a.classes == b.classes
}

proof fn lemma_register_interfaces(cx: Ctx, interfaces: Chain<InterfaceDef>, is_core: bool)
    ensures
        register_interface_names(cx, &interfaces, is_core) matches Ok(next) ==> tables_kept(cx, next),
    decreases interfaces,
{
    match interfaces {
        Chain::Nil => {},
        Chain::Cons(head, tail) => {
            let entry = NameEntry { name: head.name, id: count(&cx.interfaces) };
            let table = append(cx.interfaces, unresolved_interface(&*head));
            let next = if is_core {
                Ctx { interfaces: table, core_interfaces: append(cx.core_interfaces, entry), ..cx }
            } else {
                Ctx { interfaces: table, user_interfaces: append(cx.user_interfaces, entry), ..cx }
            };
            lemma_register_interfaces(next, *tail, is_core);
        },
    }
}

/// Whether a check takes no class from elsewhere.
#[verifier::opaque]
pub open spec fn takes_nothing(options: CheckOptions) -> bool {
    &&& compiled_core(&options) is None
    &&& options.imported.metas is Nil
    &&& options.imported.types is Nil
    &&& options.imported.classes is Nil
}

/// Whether the names of the core and of the module stand where the
/// declarations expect them.
#[verifier::opaque]
pub open spec fn numbered(cx: Ctx, module: Module, source: Module) -> bool {
    &&& class_total(source) + class_total(module) <= u32::MAX
    &&& module_numbered(cx.core_types, source, 0)
    &&& module_numbered(cx.user_types, module, class_total(source) as int)
    &&& cx.metas@.len() == class_total(source) + class_total(module)
    &&& parents_first(cx.metas@)
}

/// Registration numbers the classes of the core first, then those of the
/// module, without gaps.
pub proof fn lemma_predeclare(options: CheckOptions, module: Module, source: Module)
    requires
        takes_nothing(options),
        class_total(source) + class_total(module) <= u32::MAX,
    ensures
        predeclare(&options, &module, &source) matches Ok(cx) ==> numbered(cx, module, source),
{
    reveal(numbered);
    reveal(takes_nothing);
    let first = start(&options);
    assert(first.metas@ =~= Seq::<ClassMeta>::empty());
    lemma_register_interfaces(first, source.interfaces, true);
    if let Ok(next) = register_interface_names(first, &source.interfaces, true) {
        lemma_register_types(next, source, true);
    }
    if let Ok(core_cx) = core_names(first, &options, &source) {
        let second = Ctx { user_interface_start: count(&core_cx.interfaces), ..core_cx };
        lemma_register_interfaces(second, module.interfaces, false);
        if let Ok(named) = register_interface_names(second, &module.interfaces, false) {
            let third = Ctx { import_interface_start: count(&named.interfaces), user_start: count(&named.metas), ..named };
            lemma_register_types(third, module, false);
        }
    }
}

/// A list with nothing behind it is the same list.
proof fn lemma_concat_nothing<T>(items: Chain<T>)
    ensures
        concat(items, Chain::Nil) == items,
    decreases items,
{
    match items {
        Chain::Nil => {},
        Chain::Cons(_, tail) => lemma_concat_nothing(*tail),
    }
}

/// What linking the parents of classes does to the tables.
pub open spec fn linked(a: Ctx, b: Ctx) -> bool {
    &&& a.user_types == b.user_types
    &&& a.core_types == b.core_types
    &&& a.classes == b.classes
    &&& a.metas@.len() == b.metas@.len()
    &&& parents_first(a.metas@) ==> parents_first(b.metas@)
}

/// The number of fields that a class takes over.
pub open spec fn inherited_len(classes: Seq<ClassInfo>, class: int) -> nat {
    match classes[class].parent {
        Some(parent) => if parent < class {
            classes[parent as int].field_names@.len()
        } else {
            0
        },
        None => 0,
    }
}

/// Whether a class has the fields of its parent and a number of its own.
pub open spec fn has_layout(classes: Seq<ClassInfo>, class: int, own: nat) -> bool {
    &&& !classes[class].imported
    &&& classes[class].field_names@.len() == inherited_len(classes, class) + own
}

/// Whether classes have the fields of their parents and their own.
pub open spec fn classes_laid(classes: Seq<ClassInfo>, items: Chain<ClassDef>, first: int) -> bool
    decreases items,
{
    match items {
        Chain::Nil => true,
        Chain::Cons(head, tail) => has_layout(classes, first, head.fields@.len()) && classes_laid(classes, *tail, first + 1),
    }
}

/// Whether arms have their own fields.
pub open spec fn arms_laid(classes: Seq<ClassInfo>, items: Chain<ArmDef>, first: int) -> bool
    decreases items,
{
    match items {
        Chain::Nil => true,
        Chain::Cons(head, tail) => has_layout(classes, first, head.fields@.len()) && arms_laid(classes, *tail, first + 1),
    }
}

/// Whether enums have no field, and their arms have their own.
pub open spec fn enums_laid(classes: Seq<ClassInfo>, items: Chain<EnumDef>, first: int) -> bool
    decreases items,
{
    match items {
        Chain::Nil => true,
        Chain::Cons(head, tail) => {
            &&& has_layout(classes, first, 0)
            &&& arms_laid(classes, head.arms, first + 1)
            &&& enums_laid(classes, *tail, first + 1 + head.arms@.len())
        },
    }
}

/// Whether the classes of a module are laid out.
pub open spec fn module_laid(classes: Seq<ClassInfo>, module: Module, first: int) -> bool {
    &&& classes_laid(classes, module.classes, first)
    &&& enums_laid(classes, module.enums, first + module.classes@.len())
}

/// Whether two class tables agree on the shapes below an index.
pub open spec fn agree(a: Seq<ClassInfo>, b: Seq<ClassInfo>, below: int) -> bool {
    &&& a.len() == b.len()
    &&& below <= a.len()
    &&& forall|i: int| 0 <= i < below ==> (#[trigger] b[i]).field_names == a[i].field_names && b[i].parent == a[i].parent && b[i].imported
        == a[i].imported
}

proof fn lemma_classes_agree(a: Seq<ClassInfo>, b: Seq<ClassInfo>, items: Chain<ClassDef>, first: int, below: int)
    requires
        0 <= first,
        first + items@.len() <= below,
        agree(a, b, below),
        classes_laid(a, items, first),
    ensures
        classes_laid(b, items, first),
    decreases items,
{
    match items {
        Chain::Nil => {},
        Chain::Cons(_, tail) => {
            assert(b[first].parent == a[first].parent);
            if let Some(parent) = a[first].parent {
                if parent < first {
                    assert(b[parent as int].field_names == a[parent as int].field_names);
                }
            }
            lemma_classes_agree(a, b, *tail, first + 1, below);
        },
    }
}

proof fn lemma_arms_agree(a: Seq<ClassInfo>, b: Seq<ClassInfo>, items: Chain<ArmDef>, first: int, below: int)
    requires
        0 <= first,
        first + items@.len() <= below,
        agree(a, b, below),
        arms_laid(a, items, first),
    ensures
        arms_laid(b, items, first),
    decreases items,
{
    match items {
        Chain::Nil => {},
        Chain::Cons(_, tail) => {
            assert(b[first].parent == a[first].parent);
            if let Some(parent) = a[first].parent {
                if parent < first {
                    assert(b[parent as int].field_names == a[parent as int].field_names);
                }
            }
            lemma_arms_agree(a, b, *tail, first + 1, below);
        },
    }
}

proof fn lemma_enums_agree(a: Seq<ClassInfo>, b: Seq<ClassInfo>, items: Chain<EnumDef>, first: int, below: int)
    requires
        0 <= first,
        first + enum_total(items) <= below,
        agree(a, b, below),
        enums_laid(a, items, first),
    ensures
        enums_laid(b, items, first),
    decreases items,
{
    match items {
        Chain::Nil => {},
        Chain::Cons(head, tail) => {
            assert(b[first].parent == a[first].parent);
            if let Some(parent) = a[first].parent {
                if parent < first {
                    assert(b[parent as int].field_names == a[parent as int].field_names);
                }
            }
            lemma_arms_agree(a, b, head.arms, first + 1, below);
            lemma_enums_agree(a, b, *tail, first + 1 + head.arms@.len(), below);
        },
    }
}

/// Tables that agree on the shapes of a module lay it out alike.
pub proof fn lemma_module_agree(a: Seq<ClassInfo>, b: Seq<ClassInfo>, module: Module, first: int, below: int)
    requires
        0 <= first,
        first + class_total(module) <= below,
        agree(a, b, below),
        module_laid(a, module, first),
    ensures
        module_laid(b, module, first),
{
    lemma_classes_agree(a, b, module.classes, first, below);
    lemma_enums_agree(a, b, module.enums, first + module.classes@.len(), below);
}

/// What resolving classes from an index on does to the tables.
pub open spec fn resolved_from(a: Ctx, b: Ctx, first: int) -> bool {
    &&& a.user_types == b.user_types
    &&& a.core_types == b.core_types
    &&& a.metas == b.metas
    &&& agree(a.classes@, b.classes@, first)
}

proof fn lemma_resolve_class(cx: Ctx, st: Decl, declaration: ClassDef, class: u32, is_core: bool)
    ensures
        resolve_class(&cx, st, &declaration, class, is_core).1 matches Ok(info) ==> {
            &&& !info.imported
            &&& info.parent == meta_at(&cx, class).parent
            &&& info.field_names@.len() == declaration.fields@.len() + (match info.parent {
                Some(parent) => class_at(&cx, parent).field_names@.len(),
                None => 0,
            })
        },
{
    if let Ok(_) = resolve_class(&cx, st, &declaration, class, is_core).1 {
        let meta = meta_at(&cx, class);
        let generics = split_generics(&declaration.generics);
        let arity = count(&generics.types);
        let repr = class_repr(&declaration.name, is_core);
        let self_ty = class_self_type(class, arity, repr);
        let outer = class_scope(&generics.types, empty_bounds(&generics.types), &self_ty, is_core);
        let (st1, bounds) = resolve_generic_bounds(&cx, &outer, st, &declaration.generics);
        let env = class_scope(&generics.types, bounds->Ok_0, &self_ty, is_core);
        let inherited = inherited_layout(&cx, meta.parent, &meta.parent_args, parent_span(&declaration))->Ok_0;
        law_own_fields(&cx, &env, st1, &declaration.fields, inherited);
    }
}

proof fn lemma_resolve_each_class(cx: Ctx, st: Decl, items: Chain<ClassDef>, is_core: bool, first: int)
    requires
        0 <= first,
        classes_numbered(types_of(cx, is_core), items, first),
        first + items@.len() <= cx.classes@.len(),
        cx.classes@.len() <= u32::MAX,
        cx.metas@.len() == cx.classes@.len(),
        parents_first(cx.metas@),
    ensures
        resolve_each_class(cx, st, &items, is_core).1 matches Ok(next) ==> resolved_from(cx, next, first)
            && classes_laid(next.classes@, items, first),
    decreases items,
{
    match items {
        Chain::Nil => {},
        Chain::Cons(head, tail) => {
            let class = declared_class(&cx, &head.name, is_core);
            assert(class == first);
            if let (st1, Ok(info)) = resolve_class(&cx, st, &*head, class, is_core) {
                lemma_resolve_class(cx, st, *head, class, is_core);
                law_nth(&cx.metas, class);
                law_set_nth(cx.classes, class, info);
                let next = with_values(with_class(cx, class, info), st1.values);
                lemma_resolve_each_class(next, Decl { values: Chain::Nil, ..st1 }, *tail, is_core, first + 1);
                if let Ok(done) = resolve_each_class(next, Decl { values: Chain::Nil, ..st1 }, &*tail, is_core).1 {
                    assert(done.classes@[first].field_names == info.field_names);
                    if let Some(parent) = info.parent {
                        law_nth(&cx.classes, parent);
                        assert(cx.metas@[first].parent == Some(parent));
                        assert(parent < first);
                        assert(done.classes@[parent as int].field_names == next.classes@[parent as int].field_names);
                    }
                    assert forall|i: int| 0 <= i < first implies (#[trigger] done.classes@[i]).field_names == cx.classes@[i].field_names
                        && done.classes@[i].parent == cx.classes@[i].parent && done.classes@[i].imported == cx.classes@[i].imported by {
                        assert(next.classes@[i] == cx.classes@[i]);
                    }
                }
            }
        },
    }
}

proof fn lemma_arm_layout(cx: Ctx, env: TyEnv, st: Decl, fields: Chain<ArmField>)
    ensures
        arm_layout(&cx, &env, st, &fields).1 matches Ok(layout) ==> layout.names@.len() == fields@.len(),
    decreases fields,
{
    match fields {
        Chain::Nil => {},
        Chain::Cons(head, tail) => {
            let (st1, _) = resolve_type(&cx, &env, st, &head.ty);
            lemma_arm_layout(cx, env, st1, *tail);
        },
    }
}

/// Whether layouts have the fields of arms.
pub open spec fn arms_match(layouts: Chain<Layout>, arms: Chain<ArmDef>) -> bool
    decreases arms,
{
    match (layouts, arms) {
        (Chain::Nil, Chain::Nil) => true,
        (Chain::Cons(layout, layouts_rest), Chain::Cons(arm, arms_rest)) => {
            layout.names@.len() == arm.fields@.len() && arms_match(*layouts_rest, *arms_rest)
        },
        _ => false,
    }
}

proof fn lemma_arm_layouts(cx: Ctx, env: TyEnv, st: Decl, arms: Chain<ArmDef>)
    ensures
        arm_layouts(&cx, &env, st, &arms).1 matches Ok(layouts) ==> arms_match(layouts, arms),
    decreases arms,
{
    match arms {
        Chain::Nil => {},
        Chain::Cons(head, tail) => {
            lemma_arm_layout(cx, env, st, head.fields);
            let (st1, _) = arm_layout(&cx, &env, st, &head.fields);
            lemma_arm_layouts(cx, env, st1, *tail);
        },
    }
}

proof fn lemma_with_arms(cx: Ctx, declaration: EnumDef, arms: Chain<ArmDef>, layouts: Chain<Layout>, class: u32, family: u32, names: Chain<Text>, bounds: Chain<Chain<InterfaceUse>>, is_core: bool)
    requires
        arms_match(layouts, arms),
        family < class,
        class + arms@.len() <= cx.classes@.len(),
        cx.classes@.len() <= u32::MAX,
        cx.classes@[family as int].field_names is Nil,
    ensures
        resolved_from(cx, with_arms(cx, &declaration, &arms, layouts, class, family, &names, &bounds, is_core), class as int),
        arms_laid(with_arms(cx, &declaration, &arms, layouts, class, family, &names, &bounds, is_core).classes@, arms, class as int),
    decreases arms,
{
    match (arms, layouts) {
        (Chain::Cons(arm, arms_rest), Chain::Cons(layout, layouts_rest)) => {
            let info = arm_info(&declaration, &*arm, *layout, class, family, &names, &bounds, is_core);
            law_set_nth(cx.classes, class, info);
            let next = with_class(cx, class, info);
            if *arms_rest is Cons {
                lemma_with_arms(next, declaration, *arms_rest, *layouts_rest, class.wrapping_add(1), family, names, bounds, is_core);
            }
            let done = with_arms(next, &declaration, &*arms_rest, *layouts_rest, class.wrapping_add(1), family, &names, &bounds, is_core);
            if *arms_rest is Nil {
                assert(done == next);
            }
            assert(agree(next.classes@, done.classes@, class + 1));
            assert(done.classes@[class as int].field_names == info.field_names);
            assert(done.classes@[family as int].field_names == next.classes@[family as int].field_names);
            assert(done.classes@[class as int].parent == Some(family));
            assert(inherited_len(done.classes@, class as int) == 0);
            assert(has_layout(done.classes@, class as int, arm.fields@.len()));
            assert(arms_laid(done.classes@, *arms_rest, class + 1));
            assert forall|i: int| 0 <= i < class implies (#[trigger] done.classes@[i]).field_names == cx.classes@[i].field_names
                && done.classes@[i].parent == cx.classes@[i].parent && done.classes@[i].imported == cx.classes@[i].imported by {
                assert(next.classes@[i] == cx.classes@[i]);
            }
        },
        _ => {},
    }
}

proof fn lemma_resolve_enum(cx: Ctx, st: Decl, declaration: EnumDef, is_core: bool, first: int)
    requires
        0 <= first,
        find_id(&types_of(cx, is_core), &declaration.name) == Some(first as u32),
        first + 1 + declaration.arms@.len() <= cx.classes@.len(),
        cx.classes@.len() <= u32::MAX,
    ensures
        resolve_enum(cx, st, &declaration, is_core).1 matches Ok(next) ==> {
            &&& resolved_from(cx, next, first)
            &&& has_layout(next.classes@, first, 0)
            &&& arms_laid(next.classes@, declaration.arms, first + 1)
        },
{
    if let Ok(done) = resolve_enum(cx, st, &declaration, is_core).1 {
        let family = declared_class(&cx, &declaration.name, is_core);
        let generics = split_generics(&declaration.generics);
        let self_ty = class_self_type(family, count(&generics.types), None);
        let outer = class_scope(&generics.types, empty_bounds(&generics.types), &self_ty, is_core);
        let (st1, bounds) = resolve_generic_bounds(&cx, &outer, st, &declaration.generics);
        let env = class_scope(&generics.types, bounds->Ok_0, &self_ty, is_core);
        lemma_arm_layouts(cx, env, st1, declaration.arms);
        let (st2, layouts) = arm_layouts(&cx, &env, st1, &declaration.arms);
        let (st3, methods) = enum_methods(&cx, st2, &declaration.methods, &generics.types, &bounds->Ok_0, &self_ty, is_core, Chain::Nil);
        let info = ClassInfo {
            imported: false,
            source_span: source_span(declaration.span, is_core),
            is_final: false,
            is_frozen: false,
            native_repr: None,
            name: declaration.name,
            parent: None,
            type_params: generics.types,
            type_bounds: bounds->Ok_0,
            conformances: Chain::Nil,
            kind: ClassKind::EnumParent,
            self_ty: self_ty,
            field_names: Chain::Nil,
            field_tys: Chain::Nil,
            has_default: Chain::Nil,
            own_start: 0,
            methods: methods->Ok_0,
            init: None,
            family: None,
            arms: arm_ids(&declaration.arms, family.wrapping_add(1)),
            arm_short: Chain::Nil,
        };
        law_set_nth(cx.classes, family, info);
        let cx1 = with_class(cx, family, info);
        law_nth(&cx1.classes, family);
        let (st4, conformances) = resolve_conformance_shapes(
            &cx1,
            &env,
            st3,
            &declaration.interfaces,
            &declaration.associated,
            family,
            &self_ty,
        );
        let entered = ClassInfo { conformances: conformances->Ok_0, ..info };
        law_set_nth(cx1.classes, family, entered);
        let cx2 = with_class(cx1, family, entered);
        if declaration.arms is Cons {
            lemma_with_arms(cx2, declaration, declaration.arms, layouts->Ok_0, family.wrapping_add(1), family, generics.types, bounds->Ok_0, is_core);
        } else {
            assert(done == cx2);
        }
        assert(agree(cx2.classes@, done.classes@, first + 1));
        assert(done.classes@[first].field_names == cx2.classes@[first].field_names);
        assert forall|i: int| 0 <= i < first implies (#[trigger] done.classes@[i]).field_names == cx.classes@[i].field_names
            && done.classes@[i].parent == cx.classes@[i].parent && done.classes@[i].imported == cx.classes@[i].imported by {
            assert(cx2.classes@[i] == cx.classes@[i]);
        }
    }
}

proof fn lemma_resolve_each_enum(cx: Ctx, st: Decl, items: Chain<EnumDef>, is_core: bool, first: int)
    requires
        0 <= first,
        enums_numbered(types_of(cx, is_core), items, first),
        first + enum_total(items) <= cx.classes@.len(),
        cx.classes@.len() <= u32::MAX,
    ensures
        resolve_each_enum(cx, st, &items, is_core).1 matches Ok(next) ==> resolved_from(cx, next, first)
            && enums_laid(next.classes@, items, first),
    decreases items,
{
    match items {
        Chain::Nil => {},
        Chain::Cons(head, tail) => {
            lemma_resolve_enum(cx, st, *head, is_core, first);
            if let (st1, Ok(resolved)) = resolve_enum(cx, st, &*head, is_core) {
                let next = with_values(resolved, st1.values);
                let behind = first + 1 + head.arms@.len();
                lemma_resolve_each_enum(next, Decl { values: Chain::Nil, ..st1 }, *tail, is_core, behind);
                if let Ok(done) = resolve_each_enum(next, Decl { values: Chain::Nil, ..st1 }, &*tail, is_core).1 {
                    lemma_arms_agree(next.classes@, done.classes@, head.arms, first + 1, behind);
                    assert(done.classes@[first].parent == next.classes@[first].parent);
                    if let Some(parent) = next.classes@[first].parent {
                        if parent < first {
                            assert(done.classes@[parent as int].field_names == next.classes@[parent as int].field_names);
                        }
                    }
                    assert forall|i: int| 0 <= i < first implies (#[trigger] done.classes@[i]).field_names == cx.classes@[i].field_names
                        && done.classes@[i].parent == cx.classes@[i].parent && done.classes@[i].imported == cx.classes@[i].imported by {
                        assert(next.classes@[i].field_names == cx.classes@[i].field_names);
                    }
                }
            }
        },
    }
}

/// Resolving the classes of a module lays each of them out, and leaves the
/// classes before them as they were.
pub proof fn lemma_resolve_all(cx: Ctx, st: Decl, module: Module, is_core: bool, first: int)
    requires
        0 <= first,
        module_numbered(types_of(cx, is_core), module, first),
        first + class_total(module) <= cx.classes@.len(),
        cx.classes@.len() <= u32::MAX,
        cx.metas@.len() == cx.classes@.len(),
        parents_first(cx.metas@),
    ensures
        resolve_all_classes(cx, st, &module, is_core).1 matches Ok(next) ==> resolved_from(cx, next, first)
            && module_laid(next.classes@, module, first),
{
    let behind = first + module.classes@.len();
    lemma_resolve_each_class(cx, st, module.classes, is_core, first);
    if let (st1, Ok(next)) = resolve_each_class(cx, st, &module.classes, is_core) {
        lemma_resolve_each_enum(next, st1, module.enums, is_core, behind);
        if let Ok(done) = resolve_each_enum(next, st1, &module.enums, is_core).1 {
            lemma_classes_agree(next.classes@, done.classes@, module.classes, first, behind);
            assert forall|i: int| 0 <= i < first implies (#[trigger] done.classes@[i]).field_names == cx.classes@[i].field_names
                && done.classes@[i].parent == cx.classes@[i].parent && done.classes@[i].imported == cx.classes@[i].imported by {
                assert(next.classes@[i].field_names == cx.classes@[i].field_names);
            }
        }
    }
}

pub proof fn lemma_unresolved(metas: Chain<ClassMeta>)
    ensures
        unresolved_classes(&metas)@.len() == metas@.len(),
    decreases metas,
{
    match metas {
        Chain::Nil => {},
        Chain::Cons(_, tail) => lemma_unresolved(*tail),
    }
}

/// Whether tables name the same types, and their classes have the same
/// shapes.
pub open spec fn shapes_kept(a: Ctx, b: Ctx) -> bool {
    &&& a.user_types == b.user_types
    &&& a.core_types == b.core_types
    &&& a.metas == b.metas
    &&& agree(a.classes@, b.classes@, a.classes@.len() as int)
}

/// Linking the classes of a module keeps the names and the class order.
pub proof fn lemma_linked(cx: Ctx, st: Decl, classes: Chain<ClassDef>, is_core: bool)
    ensures
        link_class_parents(cx, st, &classes, is_core).1 matches Ok(next) ==> linked(cx, next),
    decreases classes,
{
    if parents_first(cx.metas@) {
        law_link_class_parents(cx, st, &classes, is_core);
    }
    match classes {
        Chain::Nil => {},
        Chain::Cons(head, tail) => match head.parent {
            None => lemma_linked(cx, st, *tail, is_core),
            Some(clause) => {
                if parents_first(cx.metas@) {
                    law_link_class_parent(cx, st, &*head, &clause, is_core);
                }
                if let (rest, Ok(next)) = link_class_parent(cx, st, &*head, &clause, is_core) {
                    let class = declared_class(&cx, &head.name, is_core);
                    assert forall|meta: ClassMeta| (#[trigger] set_nth(cx.metas, class, meta))@.len() == cx.metas@.len() by {
                        law_set_nth(cx.metas, class, meta);
                    }
                    lemma_linked(next, rest, *tail, is_core);
                }
            },
        },
    }
}

/// Whether the classes of the core and of the module are laid out.
#[verifier::opaque]
pub open spec fn laid_tables(cx: Ctx, module: Module, source: Module) -> bool {
    &&& numbered(cx, module, source)
    &&& cx.classes@.len() == class_total(source) + class_total(module)
    &&& module_laid(cx.classes@, source, 0)
    &&& module_laid(cx.classes@, module, class_total(source) as int)
}

/// Tables that name the same types and keep the class order number the
/// same declarations.
pub proof fn lemma_numbered_linked(a: Ctx, b: Ctx, module: Module, source: Module)
    requires
        linked(a, b),
    ensures
        numbered(a, module, source) ==> numbered(b, module, source),
{
    reveal(numbered);
}

/// Other marks of a check change no layout.
pub proof fn lemma_laid_kept(a: Ctx, b: Ctx, module: Module, source: Module)
    requires
        tables_kept(a, b),
    ensures
        laid_tables(a, module, source) ==> laid_tables(b, module, source),
{
    reveal(numbered);
    reveal(laid_tables);
}

/// A check that takes no class from elsewhere binds no type by its `use`
/// lines.
pub proof fn lemma_with_uses(cx: Ctx, uses: Chain<UseEntry>, options: CheckOptions)
    requires
        takes_nothing(options),
    ensures
        tables_kept(cx, with_uses(cx, uses, &options.imported)),
{
    reveal(takes_nothing);
    lemma_concat_nothing(cx.metas);
    lemma_concat_nothing(cx.user_types);
    assert(options.imported.metas == Chain::<ClassMeta>::Nil);
    assert(options.imported.types == Chain::<NameEntry>::Nil);
}

/// Whether a default table has one entry for each field of classes.
pub open spec fn classes_listed(table: Seq<Chain<FieldDefault>>, items: Chain<ClassDef>, first: int) -> bool
    decreases items,
{
    match items {
        Chain::Nil => true,
        Chain::Cons(head, tail) => table[first]@.len() == head.fields@.len() && classes_listed(table, *tail, first + 1),
    }
}

/// Whether a default table has one entry for each field of arms.
pub open spec fn arms_listed(table: Seq<Chain<FieldDefault>>, items: Chain<ArmDef>, first: int) -> bool
    decreases items,
{
    match items {
        Chain::Nil => true,
        Chain::Cons(head, tail) => table[first]@.len() == head.fields@.len() && arms_listed(table, *tail, first + 1),
    }
}

/// Whether a default table has no entry for enums, and one for each field
/// of their arms.
pub open spec fn enums_listed(table: Seq<Chain<FieldDefault>>, items: Chain<EnumDef>, first: int) -> bool
    decreases items,
{
    match items {
        Chain::Nil => true,
        Chain::Cons(head, tail) => {
            &&& table[first]@.len() == 0
            &&& arms_listed(table, head.arms, first + 1)
            &&& enums_listed(table, *tail, first + 1 + head.arms@.len())
        },
    }
}

/// Whether a default table lists the fields of a module.
pub open spec fn module_listed(table: Seq<Chain<FieldDefault>>, module: Module, first: int) -> bool {
    &&& classes_listed(table, module.classes, first)
    &&& enums_listed(table, module.enums, first + module.classes@.len())
}

/// Whether two default tables agree outside a range.
pub open spec fn agree_outside(a: Seq<Chain<FieldDefault>>, b: Seq<Chain<FieldDefault>>, first: int, behind: int) -> bool {
    &&& a.len() == b.len()
    &&& forall|i: int| 0 <= i < a.len() && (i < first || i >= behind) ==> #[trigger] b[i] == a[i]
}

proof fn lemma_classes_still(a: Seq<Chain<FieldDefault>>, b: Seq<Chain<FieldDefault>>, items: Chain<ClassDef>, first: int, from: int, behind: int)
    requires
        0 <= first,
        first + items@.len() <= a.len(),
        first + items@.len() <= from || behind <= first,
        agree_outside(a, b, from, behind),
        classes_listed(a, items, first),
    ensures
        classes_listed(b, items, first),
    decreases items,
{
    match items {
        Chain::Nil => {},
        Chain::Cons(_, tail) => {
            assert(b[first] == a[first]);
            lemma_classes_still(a, b, *tail, first + 1, from, behind);
        },
    }
}

proof fn lemma_arms_still(a: Seq<Chain<FieldDefault>>, b: Seq<Chain<FieldDefault>>, items: Chain<ArmDef>, first: int, from: int, behind: int)
    requires
        0 <= first,
        first + items@.len() <= a.len(),
        first + items@.len() <= from || behind <= first,
        agree_outside(a, b, from, behind),
        arms_listed(a, items, first),
    ensures
        arms_listed(b, items, first),
    decreases items,
{
    match items {
        Chain::Nil => {},
        Chain::Cons(_, tail) => {
            assert(b[first] == a[first]);
            lemma_arms_still(a, b, *tail, first + 1, from, behind);
        },
    }
}

proof fn lemma_enums_still(a: Seq<Chain<FieldDefault>>, b: Seq<Chain<FieldDefault>>, items: Chain<EnumDef>, first: int, from: int, behind: int)
    requires
        0 <= first,
        first + enum_total(items) <= a.len(),
        first + enum_total(items) <= from || behind <= first,
        agree_outside(a, b, from, behind),
        enums_listed(a, items, first),
    ensures
        enums_listed(b, items, first),
    decreases items,
{
    match items {
        Chain::Nil => {},
        Chain::Cons(head, tail) => {
            assert(b[first] == a[first]);
            lemma_arms_still(a, b, head.arms, first + 1, from, behind);
            lemma_enums_still(a, b, *tail, first + 1 + head.arms@.len(), from, behind);
        },
    }
}

proof fn lemma_class_entries(cx: Ctx, st: Output, items: Chain<ClassDef>, is_core: bool, table: Chain<Chain<FieldDefault>>, first: int)
    requires
        0 <= first,
        classes_numbered(types_of(cx, is_core), items, first),
        first + items@.len() <= table@.len(),
        table@.len() <= u32::MAX,
    ensures
        check_class_defaults(&cx, st, &items, is_core, table).1 matches Ok(found) ==> agree_outside(table@, found@, first, first + items@.len())
            && classes_listed(found@, items, first),
    decreases items,
{
    match items {
        Chain::Nil => {},
        Chain::Cons(head, tail) => {
            let class = declared_class(&cx, &head.name, is_core);
            assert(class == first);
            law_check_field_defaults(&cx, st, class, &head.fields, class_at(&cx, class).own_start, is_core);
            if let (st1, Ok(found)) = check_field_defaults(&cx, st, class, &head.fields, class_at(&cx, class).own_start, is_core) {
                let next = set_nth(table, class, found);
                law_set_nth(table, class, found);
                lemma_class_entries(cx, st1, *tail, is_core, next, first + 1);
                if let Ok(done) = check_class_defaults(&cx, st1, &*tail, is_core, next).1 {
                    assert(done@[first] == next@[first]);
                    assert forall|i: int| 0 <= i < table@.len() && (i < first || i >= first + items@.len()) implies #[trigger] done@[i]
                        == table@[i] by {
                        assert(next@[i] == table@[i]);
                    }
                }
            }
        },
    }
}

proof fn lemma_arm_entries(arms: Chain<ArmDef>, class: u32, table: Chain<Chain<FieldDefault>>)
    requires
        class + arms@.len() <= table@.len(),
        table@.len() <= u32::MAX,
    ensures
        agree_outside(table@, set_arm_defaults(&arms, class, table)@, class as int, class + arms@.len()),
        arms_listed(set_arm_defaults(&arms, class, table)@, arms, class as int),
    decreases arms,
{
    match arms {
        Chain::Nil => {},
        Chain::Cons(head, tail) => {
            let next = set_nth(table, class, arm_defaults(&head.fields));
            law_set_nth(table, class, arm_defaults(&head.fields));
            law_arm_defaults(&head.fields);
            let done = set_arm_defaults(&*tail, class.wrapping_add(1), next);
            if *tail is Cons {
                lemma_arm_entries(*tail, class.wrapping_add(1), next);
            } else {
                assert(done == next);
            }
            assert(done@[class as int] == next@[class as int]);
            assert(arms_listed(done@, *tail, class + 1));
            assert forall|i: int| 0 <= i < table@.len() && (i < class || i >= class + arms@.len()) implies #[trigger] done@[i]
                == table@[i] by {
                assert(next@[i] == table@[i]);
            }
        },
    }
}

proof fn lemma_enum_entries(cx: Ctx, items: Chain<EnumDef>, is_core: bool, table: Chain<Chain<FieldDefault>>, first: int)
    requires
        0 <= first,
        enums_numbered(types_of(cx, is_core), items, first),
        first + enum_total(items) <= table@.len(),
        table@.len() <= u32::MAX,
        forall|i: int| first <= i < first + enum_total(items) ==> (#[trigger] table@[i])@.len() == 0,
    ensures
        agree_outside(table@, set_enum_defaults(&cx, &items, is_core, table)@, first, first + enum_total(items)),
        enums_listed(set_enum_defaults(&cx, &items, is_core, table)@, items, first),
    decreases items,
{
    match items {
        Chain::Nil => {},
        Chain::Cons(head, tail) => {
            let class = declared_class(&cx, &head.name, is_core);
            assert(class == first);
            let next = set_arm_defaults(&head.arms, class.wrapping_add(1), table);
            let behind = first + 1 + head.arms@.len();
            if head.arms is Cons {
                lemma_arm_entries(head.arms, class.wrapping_add(1), table);
            } else {
                assert(next == table);
            }
            assert(agree_outside(table@, next@, first + 1, behind));
            assert(arms_listed(next@, head.arms, first + 1));
            assert forall|i: int| behind <= i < behind + enum_total(*tail) implies (#[trigger] next@[i])@.len() == 0 by {
                assert(next@[i] == table@[i]);
            }
            lemma_enum_entries(cx, *tail, is_core, next, behind);
            let done = set_enum_defaults(&cx, &*tail, is_core, next);
            assert(table@[first]@.len() == 0);
            assert(done@[first] == next@[first]);
            assert(next@[first] == table@[first]);
            lemma_arms_still(next@, done@, head.arms, first + 1, behind, behind + enum_total(*tail));
            assert forall|i: int| 0 <= i < table@.len() && (i < first || i >= first + enum_total(items)) implies #[trigger] done@[i]
                == table@[i] by {
                assert(next@[i] == table@[i]);
            }
        },
    }
}

/// Checking the defaults of a module lists its fields, and leaves the
/// other classes as they were.
proof fn lemma_module_entries(cx: Ctx, st: Output, module: Module, is_core: bool, table: Chain<Chain<FieldDefault>>, first: int)
    requires
        0 <= first,
        module_numbered(types_of(cx, is_core), module, first),
        first + class_total(module) <= table@.len(),
        table@.len() <= u32::MAX,
        forall|i: int| first <= i < first + class_total(module) ==> (#[trigger] table@[i])@.len() == 0,
    ensures
        check_defaults(&cx, st, &module, is_core, table).1 matches Ok(found) ==> agree_outside(table@, found@, first, first + class_total(module))
            && module_listed(found@, module, first),
{
    let behind = first + module.classes@.len();
    lemma_class_entries(cx, st, module.classes, is_core, table, first);
    if let Ok(found) = check_class_defaults(&cx, st, &module.classes, is_core, table).1 {
        assert forall|i: int| behind <= i < behind + enum_total(module.enums) implies (#[trigger] found@[i])@.len() == 0 by {
            assert(found@[i] == table@[i]);
        }
        lemma_enum_entries(cx, module.enums, is_core, found, behind);
        let done = set_enum_defaults(&cx, &module.enums, is_core, found);
        lemma_classes_still(found@, done@, module.classes, first, behind, behind + enum_total(module.enums));
        assert forall|i: int| 0 <= i < table@.len() && (i < first || i >= first + class_total(module)) implies #[trigger] done@[i]
            == table@[i] by {
            assert(found@[i] == table@[i]);
        }
    }
}

proof fn lemma_empty_defaults(classes: Chain<ClassInfo>)
    requires
        forall|i: int| 0 <= i < classes@.len() ==> !(#[trigger] classes@[i]).imported,
    ensures
        empty_defaults(&classes)@.len() == classes@.len(),
        forall|i: int| 0 <= i < classes@.len() ==> (#[trigger] empty_defaults(&classes)@[i])@.len() == 0,
    decreases classes,
{
    match classes {
        Chain::Nil => {},
        Chain::Cons(head, tail) => {
            assert(classes@[0] == *head);
            assert forall|i: int| 0 <= i < tail@.len() implies !(#[trigger] tail@[i]).imported by {
                assert(classes@[i + 1] == tail@[i]);
            }
            lemma_empty_defaults(*tail);
            assert forall|i: int| 0 <= i < classes@.len() implies (#[trigger] empty_defaults(&classes)@[i])@.len() == 0 by {
                if i > 0 {
                    assert(empty_defaults(&classes)@[i] == empty_defaults(&*tail)@[i - 1]);
                }
            }
        },
    }
}

proof fn lemma_laid_classes(classes: Seq<ClassInfo>, items: Chain<ClassDef>, first: int, class: int)
    requires
        classes_laid(classes, items, first),
        first <= class < first + items@.len(),
    ensures
        !classes[class].imported,
    decreases items,
{
    match items {
        Chain::Nil => {},
        Chain::Cons(_, tail) => {
            if class > first {
                lemma_laid_classes(classes, *tail, first + 1, class);
            }
        },
    }
}

proof fn lemma_laid_arms(classes: Seq<ClassInfo>, items: Chain<ArmDef>, first: int, class: int)
    requires
        arms_laid(classes, items, first),
        first <= class < first + items@.len(),
    ensures
        !classes[class].imported,
    decreases items,
{
    match items {
        Chain::Nil => {},
        Chain::Cons(_, tail) => {
            if class > first {
                lemma_laid_arms(classes, *tail, first + 1, class);
            }
        },
    }
}

proof fn lemma_laid_enums(classes: Seq<ClassInfo>, items: Chain<EnumDef>, first: int, class: int)
    requires
        enums_laid(classes, items, first),
        first <= class < first + enum_total(items),
    ensures
        !classes[class].imported,
    decreases items,
{
    match items {
        Chain::Nil => {},
        Chain::Cons(head, tail) => {
            let behind = first + 1 + head.arms@.len();
            if first < class < behind {
                lemma_laid_arms(classes, head.arms, first + 1, class);
            } else if class >= behind {
                lemma_laid_enums(classes, *tail, behind, class);
            }
        },
    }
}

proof fn lemma_both_classes(classes: Seq<ClassInfo>, table: Seq<Chain<FieldDefault>>, items: Chain<ClassDef>, first: int, class: int)
    requires
        classes_laid(classes, items, first),
        classes_listed(table, items, first),
        first <= class < first + items@.len(),
    ensures
        has_layout(classes, class, table[class]@.len()),
    decreases items,
{
    match items {
        Chain::Nil => {},
        Chain::Cons(_, tail) => {
            if class > first {
                lemma_both_classes(classes, table, *tail, first + 1, class);
            }
        },
    }
}

proof fn lemma_both_arms(classes: Seq<ClassInfo>, table: Seq<Chain<FieldDefault>>, items: Chain<ArmDef>, first: int, class: int)
    requires
        arms_laid(classes, items, first),
        arms_listed(table, items, first),
        first <= class < first + items@.len(),
    ensures
        has_layout(classes, class, table[class]@.len()),
    decreases items,
{
    match items {
        Chain::Nil => {},
        Chain::Cons(_, tail) => {
            if class > first {
                lemma_both_arms(classes, table, *tail, first + 1, class);
            }
        },
    }
}

proof fn lemma_both_enums(classes: Seq<ClassInfo>, table: Seq<Chain<FieldDefault>>, items: Chain<EnumDef>, first: int, class: int)
    requires
        enums_laid(classes, items, first),
        enums_listed(table, items, first),
        first <= class < first + enum_total(items),
    ensures
        has_layout(classes, class, table[class]@.len()),
    decreases items,
{
    match items {
        Chain::Nil => {},
        Chain::Cons(head, tail) => {
            let behind = first + 1 + head.arms@.len();
            if first < class < behind {
                lemma_both_arms(classes, table, head.arms, first + 1, class);
            } else if class >= behind {
                lemma_both_enums(classes, table, *tail, behind, class);
            }
        },
    }
}

proof fn lemma_both(classes: Seq<ClassInfo>, table: Seq<Chain<FieldDefault>>, module: Module, first: int, class: int)
    requires
        module_laid(classes, module, first),
        module_listed(table, module, first),
        first <= class < first + class_total(module),
    ensures
        has_layout(classes, class, table[class]@.len()),
{
    let behind = first + module.classes@.len();
    if class < behind {
        lemma_both_classes(classes, table, module.classes, first, class);
    } else {
        lemma_both_enums(classes, table, module.enums, behind, class);
    }
}

/// Whether a default table fits a class table.
pub open spec fn table_fits(cx: Ctx, table: Chain<Chain<FieldDefault>>) -> bool {
    &&& table@.len() == cx.classes@.len()
    &&& cx.classes@.len() <= u32::MAX
    &&& forall|class: int| 0 <= class < cx.classes@.len() ==> #[trigger] has_layout(cx.classes@, class, table@[class]@.len())
}

proof fn lemma_not_imported(cx: Ctx, module: Module, source: Module)
    requires
        laid_tables(cx, module, source),
    ensures
        forall|i: int| 0 <= i < cx.classes@.len() ==> !(#[trigger] cx.classes@[i]).imported,
{
    reveal(laid_tables);
    reveal(numbered);
    let split = class_total(source) as int;
    assert forall|i: int| 0 <= i < cx.classes@.len() implies !(#[trigger] cx.classes@[i]).imported by {
        if i < source.classes@.len() {
            lemma_laid_classes(cx.classes@, source.classes, 0, i);
        } else if i < split {
            lemma_laid_enums(cx.classes@, source.enums, source.classes@.len() as int, i);
        } else if i < split + module.classes@.len() {
            lemma_laid_classes(cx.classes@, module.classes, split, i);
        } else {
            lemma_laid_enums(cx.classes@, module.enums, split + module.classes@.len(), i);
        }
    }
}

/// Checking the defaults of a module and of the core gives a table that
/// fits the classes.
pub proof fn lemma_every_default(cx: Ctx, st: Output, module: Module, source: Module)
    requires
        laid_tables(cx, module, source),
    ensures
        check_every_default(&cx, st, &module, &source).1 matches Ok(table) ==> table_fits(cx, table),
{
    reveal(laid_tables);
    reveal(numbered);
    let split = class_total(source) as int;
    let total = split + class_total(module);
    lemma_not_imported(cx, module, source);
    lemma_empty_defaults(cx.classes);
    let empty = empty_defaults(&cx.classes);
    lemma_module_entries(cx, st, module, false, empty, split);
    if let (st1, Ok(first)) = check_defaults(&cx, st, &module, false, empty) {
        assert forall|i: int| 0 <= i < split implies (#[trigger] first@[i])@.len() == 0 by {
            assert(first@[i] == empty@[i]);
        }
        lemma_module_entries(cx, st1, source, true, first, 0);
        if let Ok(table) = check_defaults(&cx, st1, &source, true, first).1 {
            lemma_classes_still(first@, table@, module.classes, split, 0, split);
            lemma_enums_still(first@, table@, module.enums, split + module.classes@.len(), 0, split);
            assert forall|class: int| 0 <= class < cx.classes@.len() implies #[trigger] has_layout(
                cx.classes@,
                class,
                table@[class]@.len(),
            ) by {
                if class < split {
                    lemma_both(cx.classes@, table@, source, 0, class);
                } else {
                    lemma_both(cx.classes@, table@, module, split, class);
                }
            }
        }
    }
}

/// Whether each class has one default for each field.
pub open spec fn each_has_defaults(classes: Chain<HirClass>) -> bool {
    forall|i: int| 0 <= i < classes@.len() ==> (#[trigger] classes@[i]).defaults@.len() == classes@[i].field_names@.len()
}

/// The checked classes of a table that fits have one default for each
/// field.
pub proof fn lemma_hir_classes(cx: Ctx, items: Chain<ClassInfo>, origins: Chain<ClassOrigin>, table: Chain<Chain<FieldDefault>>, at: u32, path: Text)
    requires
        table_fits(cx, table),
        at + items@.len() == cx.classes@.len(),
        forall|i: int| 0 <= i < items@.len() ==> #[trigger] items@[i] == cx.classes@[at + i],
    ensures
        each_has_defaults(hir_classes(&cx, &items, &origins, &table, at, &path)),
    decreases items,
{
    match items {
        Chain::Nil => {},
        Chain::Cons(head, tail) => {
            assert(items@[0] == *head);
            assert forall|i: int| 0 <= i < tail@.len() implies #[trigger] tail@[i] == cx.classes@[at + 1 + i] by {
                assert(items@[i + 1] == tail@[i]);
            }
            if *tail is Cons {
                lemma_hir_classes(cx, *tail, origins, table, at.wrapping_add(1), path);
            }
            law_nth(&cx.classes, at);
            assert forall|class: u32| class <= at implies (#[trigger] class_at(&cx, class)).field_names@.len() == own_defaults(
                &table,
                class,
            )@.len() + (match class_at(&cx, class).parent {
                Some(parent) => if parent < class {
                    class_at(&cx, parent).field_names@.len()
                } else {
                    0
                },
                None => 0,
            }) by {
                law_nth(&cx.classes, class);
                law_nth(&table, class);
                assert(has_layout(cx.classes@, class as int, table@[class as int]@.len()));
                if let Some(parent) = class_at(&cx, class).parent {
                    if parent < class {
                        law_nth(&cx.classes, parent);
                    }
                }
            }
            law_class_defaults(&cx, &*head, &origins, &table, at, &path);
            let rest = hir_classes(&cx, &*tail, &origins, &table, at.wrapping_add(1), &path);
            let all = hir_classes(&cx, &items, &origins, &table, at, &path);
            assert(each_has_defaults(rest));
            assert forall|i: int| 0 <= i < all@.len() implies (#[trigger] all@[i]).defaults@.len() == all@[i].field_names@.len() by {
                if i > 0 {
                    assert(all@[i] == rest@[i - 1]);
                }
            }
        },
    }
}

} // verus!
