//! Class and enum declarations: what an accepted one has.

use vstd::prelude::*;
use crate::ast::{ArmDef, ArmField, AssociatedType, ClassDef, EnumDef, MethodDef, ParentClause, Span};
use crate::chain::Chain;
use crate::context::{AssociatedInfo, ClassInfo, ClassKind, ClassMeta, Ctx, Decl, InterfaceUse, Layout, Members, MethodSig, NameEntry, NativeRepr, Params, TyEnv};
use crate::laws::lists::{law_all_set, law_append, law_count, law_find_id, law_first_unset, law_holds_name, law_nth, law_set_nth};
use crate::laws::rows::{canonical, law_canonical_row};
use crate::laws::written::{keeps_parameters, law_parameters, law_resolve_type, law_resolve_types, of_written_kind};
use crate::model::classes::{arm_ids, arm_info, arm_layout, check_init_shape, check_mailbox_types, check_needs_init, class_methods, class_repr, class_scope, declare_class, declares_init, enum_methods, inherited_layout, is_core_class, link_class_parent, native_shape_valid, own_fields, parent_problem, parent_span, resolve_class};
use crate::model::conform::{empty_bounds, empty_env};
use crate::model::fulfil::declared_class;
use crate::model::lists::{append, concat, cons, count, find_literal, first_unset, one, truncate};
use crate::model::lookup::{check_mailbox_type, class_self_type, lookup_type, meta_at, own_method};
use crate::model::members::{check_bindings, extend_names, find_binding, resolve_bound_types, resolve_method_sig};
use crate::model::premises::{add_premises, resolve_conformance_premises};
use crate::model::resolve::{resolve_generic_bounds, resolve_parameters, resolve_row_items, resolve_type, resolve_types, split_generics};
use crate::text::Text;
use crate::types::Ty;

verus! {

/// A class can be a parent only where it is open, an ordinary class, of this
/// module or the core image, and declared before its child; the sealed core
/// classes have no child outside the core image.
pub proof fn law_parent_problem(cx: &Ctx, name: &Text, parent: u32, class: u32, is_core: bool)
    ensures
        parent_problem(cx, name, parent, class, is_core) is None ==> {
            &&& !meta_at(cx, parent).is_final
            &&& meta_at(cx, parent).kind == ClassKind::Normal
            &&& parent < class
            &&& parent < cx.import_start
            &&& !is_core ==> find_literal(&cx.core_types, "SyntaxElement") != Some(parent)
            &&& !is_core ==> find_literal(&cx.core_types, "SyntaxNode") != Some(parent)
            &&& !is_core && name@ == "Text"@ ==> find_literal(&cx.core_types, "Text") != Some(parent)
            &&& !is_core && name@ == "TcpResource"@ ==> find_literal(&cx.core_types, "TcpResource") != Some(parent)
        },
{
}

/// Whether a class has the parent that it declares, with as many type
/// arguments as the parent has parameters; a `Proc` without arguments takes
/// no message.
pub open spec fn has_parent(cx: Ctx, next: Ctx, declaration: ClassDef, clause: ParentClause, is_core: bool) -> bool {
    let class = declared_class(&cx, &declaration.name, is_core);
    let parent = lookup_type(&cx, &clause.name, &TyEnv { core_scope: is_core, ..empty_env() });
    &&& declaration.generics is Nil
    &&& meta_at(&next, class).parent == parent
    &&& parent matches Some(found) && !meta_at(&cx, found).is_final && meta_at(&cx, found).kind == ClassKind::Normal && found < class
        && (clause.args is Nil && find_literal(&cx.core_types, "Proc") == Some(found) ==> meta_at(&next, class).parent_args@ == seq![Ty::Never])
        && (!(clause.args is Nil && find_literal(&cx.core_types, "Proc") == Some(found)) ==> meta_at(&next, class).parent_args@.len() == meta_at(&cx, found).type_params
            && meta_at(&cx, found).type_params == clause.args@.len())
}

/// An accepted class has the parent that it declares; no other class
/// changes.
pub proof fn law_declared_parent(cx: Ctx, st: Decl, declaration: &ClassDef, clause: &ParentClause, is_core: bool)
    requires
        clause.args@.len() <= u32::MAX,
        declared_class(&cx, &declaration.name, is_core) < cx.metas@.len(),
        link_class_parent(cx, st, declaration, clause, is_core).1 is Ok,
    ensures
        has_parent(cx, link_class_parent(cx, st, declaration, clause, is_core).1->Ok_0, *declaration, *clause, is_core),
        forall|other: u32| other != declared_class(&cx, &declaration.name, is_core) ==> #[trigger] meta_at(&link_class_parent(cx, st, declaration, clause, is_core).1->Ok_0, other) == meta_at(&cx, other),
{
    let class = declared_class(&cx, &declaration.name, is_core);
    let env = TyEnv { core_scope: is_core, ..empty_env() };
    let parent = lookup_type(&cx, &clause.name, &env)->0;
    law_parent_problem(&cx, &clause.name, parent, class, is_core);
    law_count(&clause.args);
    law_resolve_types(&cx, &env, st, &clause.args);
    let next = link_class_parent(cx, st, declaration, clause, is_core).1->Ok_0;
    let args = if clause.args is Nil && is_core_class(&cx, parent, "Proc") { one(Ty::Never) } else { resolve_types(&cx, &env, st, &clause.args).1->Ok_0 };
    let meta = ClassMeta { parent: Some(parent), parent_args: args, ..*meta_at(&cx, class) };
    law_set_nth(cx.metas, class, meta);
    law_nth(&next.metas, class);
    reveal_with_fuel(Chain::items, 3);
    assert forall|other: u32| other != class implies #[trigger] meta_at(&next, other) == meta_at(&cx, other) by {
        law_nth(&next.metas, other);
        law_nth(&cx.metas, other);
    }
}

/// A declared class has a name of its own in its table and the next number.
pub proof fn law_declare_class(cx: Ctx, name: Text, meta: ClassMeta, is_core: bool, span: Span)
    requires
        cx.metas@.len() < u32::MAX,
        declare_class(cx, name, meta, is_core, span) is Ok,
    ensures
        declare_class(cx, name, meta, is_core, span)->Ok_0.metas@ == cx.metas@.push(meta),
        meta.kind == ClassKind::EnumCase ==> declare_class(cx, name, meta, is_core, span)->Ok_0.core_types == cx.core_types
            && declare_class(cx, name, meta, is_core, span)->Ok_0.user_types == cx.user_types,
        meta.kind != ClassKind::EnumCase && is_core ==> declare_class(cx, name, meta, is_core, span)->Ok_0.core_types@ == cx.core_types@.push(NameEntry { name: name, id: cx.metas@.len() as u32 })
            && is_new_name(cx.core_types, name) && declare_class(cx, name, meta, is_core, span)->Ok_0.user_types == cx.user_types,
        meta.kind != ClassKind::EnumCase && !is_core ==> declare_class(cx, name, meta, is_core, span)->Ok_0.user_types@ == cx.user_types@.push(NameEntry { name: name, id: cx.metas@.len() as u32 })
            && is_new_name(cx.user_types, name) && declare_class(cx, name, meta, is_core, span)->Ok_0.core_types == cx.core_types,
{
    law_count(&cx.metas);
    law_append(cx.metas, meta);
    law_append(cx.core_types, NameEntry { name: name, id: count(&cx.metas) });
    law_append(cx.user_types, NameEntry { name: name, id: count(&cx.metas) });
    law_find_id(&cx.core_types, &name);
    law_find_id(&cx.user_types, &name);
}

/// Whether no entry of a table has a name.
pub open spec fn is_new_name(entries: Chain<NameEntry>, name: Text) -> bool {
    forall|i: int| 0 <= i < entries@.len() ==> (#[trigger] entries@[i]).name != name
}

/// A native core class has no state and no initializer of its own.
pub proof fn law_native_shape(cx: &Ctx, repr: Option<NativeRepr>, declaration: &ClassDef, parent: Option<u32>, arity: u32)
    ensures
        repr is Some && native_shape_valid(cx, repr, declaration, parent, arity) ==> declaration.fields@.len() == 0
            && forall|i: int| 0 <= i < declaration.methods@.len() ==> (#[trigger] declaration.methods@[i]).name@ != "init"@,
        repr is None ==> native_shape_valid(cx, repr, declaration, parent, arity),
{
    lemma_declares_init(&declaration.methods);
}

proof fn lemma_declares_init(methods: &Chain<MethodDef>)
    ensures
        !declares_init(methods) ==> forall|i: int| 0 <= i < methods@.len() ==> (#[trigger] methods@[i]).name@ != "init"@,
    decreases methods,
{
    if let Chain::Cons(head, tail) = methods {
        lemma_declares_init(tail);
        if !declares_init(methods) {
            assert forall|i: int| 0 <= i < methods@.len() implies (#[trigger] methods@[i]).name@ != "init"@ by {
                if i > 0 {
                    assert(methods@[i] == tail@[i - 1]);
                }
            }
        }
    }
}

/// An initializer takes `mut self` and names no result, exactly.
pub proof fn law_init_shape(method: &MethodDef)
    ensures
        check_init_shape(method) is Ok <==> method.mut_self && method.ret is None,
{
}

/// Whether a method signature is that of a written method.
pub open spec fn keeps_method(method: MethodDef, sig: MethodSig, is_init: bool) -> bool {
    &&& sig.name == method.name
    &&& sig.mut_self == method.mut_self
    &&& keeps_parameters(method.params, Params { types: sig.params, muts: sig.param_muts, names: sig.param_names })
    &&& is_init ==> sig.ret == Ty::Unit && sig.own_type_params is Nil && sig.own_effect_params is Nil && method.premises is Nil
    &&& !is_init && method.ret is None ==> sig.ret == Ty::Unit
    &&& !is_init ==> (method.ret matches Some(ty) ==> of_written_kind(ty, sig.ret))
    &&& canonical(sig.row)
    &&& sig.own_type_params == split_generics(&method.generics).types
    &&& sig.own_effect_params == split_generics(&method.generics).effects
}

/// Resolution keeps a method and gives it the next function.
pub proof fn law_method_sig(cx: &Ctx, st: Decl, method: &MethodDef, names: &Chain<Text>, bounds: &Chain<Chain<InterfaceUse>>, self_ty: &Ty, is_core: bool, is_init: bool)
    requires
        resolve_method_sig(cx, st, method, names, bounds, self_ty, is_core, is_init).1 is Ok,
    ensures
        keeps_method(*method, resolve_method_sig(cx, st, method, names, bounds, self_ty, is_core, is_init).1->Ok_0, is_init),
{
    let own = split_generics(&method.generics);
    let type_names = extend_names(*names, &own.types, method.name_span)->Ok_0;
    let env = TyEnv {
        type_names: type_names,
        type_bounds: concat(*bounds, empty_bounds(&own.types)),
        extra_bounds: Chain::Nil,
        effect_names: own.effects,
        type_offset: 0,
        self_interface: None,
        self_ty: Some(*self_ty),
        core_scope: is_core,
    };
    let (st1, own_bounds) = resolve_generic_bounds(cx, &env, st, &method.generics);
    let env = TyEnv { type_bounds: concat(truncate(env.type_bounds, count(names)), own_bounds->Ok_0), ..env };
    let (st2, premises) = resolve_conformance_premises(cx, &env, st1, &method.premises);
    let env = add_premises(env, &premises->Ok_0);
    law_parameters(cx, &env, st2, &method.params);
    let st3 = resolve_parameters(cx, &env, st2, &method.params).0;
    if let Some(ty) = &method.ret {
        if !is_init {
            law_resolve_type(cx, &env, st3, ty);
        }
    }
    law_canonical_row(resolve_row_items(cx, &env, &method.row)->Ok_0);
}

/// Whether the members of a class have names of their own, none of them a
/// field or the reserved one.
pub open spec fn members_apart(members: Members, fields: Chain<Text>, is_frozen: bool) -> bool {
    &&& forall|i: int, j: int| 0 <= i < j < members.methods@.len() ==> (#[trigger] members.methods@[i]).name != (#[trigger] members.methods@[j]).name
    &&& forall|i: int| 0 <= i < members.methods@.len() ==> is_member(#[trigger] members.methods@[i], fields, is_frozen)
    &&& members.init matches Some(sig) ==> sig.mut_self && sig.ret == Ty::Unit && sig.name@ == "init"@
}

/// Whether a method can be a member beside fields.
pub open spec fn is_member(sig: MethodSig, fields: Chain<Text>, is_frozen: bool) -> bool {
    &&& sig.name@ != "freeze"@
    &&& sig.name@ != "init"@
    &&& !fields@.contains(sig.name)
    &&& is_frozen ==> !sig.mut_self
}

proof fn lemma_own_method(methods: &Chain<MethodSig>, name: &Text)
    ensures
        own_method(methods, name) is None ==> forall|i: int| 0 <= i < methods@.len() ==> (#[trigger] methods@[i]).name != *name,
    decreases methods,
{
    if let Chain::Cons(head, tail) = methods {
        lemma_own_method(tail, name);
        if own_method(methods, name) is None {
            assert forall|i: int| 0 <= i < methods@.len() implies (#[trigger] methods@[i]).name != *name by {
                if i > 0 {
                    assert(methods@[i] == tail@[i - 1]);
                }
            }
        }
    }
}

/// The members of an accepted class have names of their own; a frozen class
/// has no method that changes it, and an initializer does change it.
pub proof fn law_members(
    cx: &Ctx,
    st: Decl,
    declaration: &ClassDef,
    methods: &Chain<MethodDef>,
    names: &Chain<Text>,
    bounds: &Chain<Chain<InterfaceUse>>,
    self_ty: &Ty,
    fields: &Chain<Text>,
    parent: Option<u32>,
    parent_args: &Chain<Ty>,
    is_core: bool,
    members: Members,
)
    requires
        members_apart(members, *fields, declaration.is_frozen),
        class_methods(cx, st, declaration, methods, names, bounds, self_ty, fields, parent, parent_args, is_core, members).1 is Ok,
    ensures
        members_apart(class_methods(cx, st, declaration, methods, names, bounds, self_ty, fields, parent, parent_args, is_core, members).1->Ok_0, *fields, declaration.is_frozen),
    decreases methods,
{
    if let Chain::Cons(head, tail) = methods {
        let is_init = head.name@ == "init"@;
        law_holds_name(fields, &head.name);
        lemma_own_method(&members.methods, &head.name);
        let (next, resolved) = resolve_method_sig(cx, st, &**head, names, bounds, self_ty, is_core, is_init);
        let sig = resolved->Ok_0;
        law_method_sig(cx, st, &**head, names, bounds, self_ty, is_core, is_init);
        if is_init {
            law_init_shape(&**head);
            law_members(cx, next, declaration, &**tail, names, bounds, self_ty, fields, parent, parent_args, is_core, Members { init: Some(sig), ..members });
        } else {
            law_append(members.methods, sig);
            let more = Members { methods: append(members.methods, sig), ..members };
            assert(members_apart(more, *fields, declaration.is_frozen));
            law_members(cx, next, declaration, &**tail, names, bounds, self_ty, fields, parent, parent_args, is_core, more);
        }
    }
}

/// A class without an initializer has a default for each field.
pub proof fn law_needs_init(members: &Members, layout: &Layout, span: Span)
    requires
        layout.names@.len() == layout.defaults@.len(),
        layout.defaults@.len() <= u32::MAX,
    ensures
        check_needs_init(members, layout, span) is Ok <==> members.init is Some || (forall|i: int| 0 <= i < layout.defaults@.len() ==> #[trigger] layout.defaults@[i]),
{
    law_first_unset(&layout.defaults);
    law_all_set(&layout.defaults);
    if let Some(at) = first_unset(&layout.defaults) {
        law_nth(&layout.names, at);
        assert(!layout.defaults@[at as int]);
    }
}

/// The fields of an enum arm are those that are written, none with a
/// default.
pub proof fn law_arm_layout(cx: &Ctx, env: &TyEnv, st: Decl, fields: &Chain<ArmField>)
    requires
        arm_layout(cx, env, st, fields).1 is Ok,
    ensures
        arm_layout(cx, env, st, fields).1->Ok_0.names@.len() == fields@.len(),
        arm_layout(cx, env, st, fields).1->Ok_0.tys@.len() == fields@.len(),
        arm_layout(cx, env, st, fields).1->Ok_0.defaults@.len() == fields@.len(),
        forall|i: int| 0 <= i < fields@.len() ==> arm_layout(cx, env, st, fields).1->Ok_0.names@[i] == (#[trigger] fields@[i]).name
            && !arm_layout(cx, env, st, fields).1->Ok_0.defaults@[i] && of_written_kind(fields@[i].ty, arm_layout(cx, env, st, fields).1->Ok_0.tys@[i]),
    decreases fields,
{
    if let Chain::Cons(head, tail) = fields {
        let (next, ty) = resolve_type(cx, env, st, &head.ty);
        law_resolve_type(cx, env, st, &head.ty);
        law_arm_layout(cx, env, next, tail);
        let rest = arm_layout(cx, env, next, tail).1->Ok_0;
        let found = arm_layout(cx, env, st, fields).1->Ok_0;
        assert(found.names@ =~= seq![head.name] + rest.names@);
        assert(found.tys@ =~= seq![ty->Ok_0] + rest.tys@);
        assert(found.defaults@ =~= seq![false] + rest.defaults@);
        assert forall|i: int| 0 <= i < fields@.len() implies found.names@[i] == (#[trigger] fields@[i]).name && !found.defaults@[i] && of_written_kind(fields@[i].ty, found.tys@[i]) by {
            if i > 0 {
                assert(fields@[i] == tail@[i - 1]);
            }
        }
    }
}

/// The methods of an accepted enum have names of their own, and none is an
/// initializer.
pub proof fn law_enum_methods(
    cx: &Ctx,
    st: Decl,
    methods: &Chain<MethodDef>,
    names: &Chain<Text>,
    bounds: &Chain<Chain<InterfaceUse>>,
    self_ty: &Ty,
    is_core: bool,
    found: Chain<MethodSig>,
)
    requires
        members_apart(Members { methods: found, init: None }, Chain::Nil, false),
        enum_methods(cx, st, methods, names, bounds, self_ty, is_core, found).1 is Ok,
    ensures
        members_apart(Members { methods: enum_methods(cx, st, methods, names, bounds, self_ty, is_core, found).1->Ok_0, init: None }, Chain::Nil, false),
        enum_methods(cx, st, methods, names, bounds, self_ty, is_core, found).1->Ok_0@.len() == found@.len() + methods@.len(),
    decreases methods,
{
    if let Chain::Cons(head, tail) = methods {
        lemma_own_method(&found, &head.name);
        let (next, resolved) = resolve_method_sig(cx, st, &**head, names, bounds, self_ty, is_core, false);
        let sig = resolved->Ok_0;
        law_method_sig(cx, st, &**head, names, bounds, self_ty, is_core, false);
        law_append(found, sig);
        let more = append(found, sig);
        assert(members_apart(Members { methods: more, init: None }, Chain::Nil, false));
        law_enum_methods(cx, next, &**tail, names, bounds, self_ty, is_core, more);
    }
}

/// The arms of an enum have consecutive numbers.
pub proof fn law_arm_ids(arms: &Chain<ArmDef>, first: u32)
    requires
        first + arms@.len() <= u32::MAX,
    ensures
        arm_ids(arms, first)@.len() == arms@.len(),
        forall|i: int| 0 <= i < arms@.len() ==> #[trigger] arm_ids(arms, first)@[i] == first + i,
    decreases arms,
{
    if let Chain::Cons(_, tail) = arms {
        law_arm_ids(tail, (first + 1) as u32);
        assert(arm_ids(arms, first)@ =~= seq![first] + arm_ids(tail, (first + 1) as u32)@);
    }
}

/// What stands in the table for an enum arm: a case of its family, with its
/// fields and no method.
pub proof fn law_arm_info(declaration: &EnumDef, arm: &ArmDef, layout: Layout, class: u32, family: u32, names: &Chain<Text>, bounds: &Chain<Chain<InterfaceUse>>, is_core: bool)
    ensures
        arm_info(declaration, arm, layout, class, family, names, bounds, is_core).kind == ClassKind::EnumCase,
        arm_info(declaration, arm, layout, class, family, names, bounds, is_core).family == Some(family),
        arm_info(declaration, arm, layout, class, family, names, bounds, is_core).parent == Some(family),
        arm_info(declaration, arm, layout, class, family, names, bounds, is_core).field_names == layout.names,
        arm_info(declaration, arm, layout, class, family, names, bounds, is_core).field_tys == layout.tys,
        arm_info(declaration, arm, layout, class, family, names, bounds, is_core).has_default == layout.defaults,
        arm_info(declaration, arm, layout, class, family, names, bounds, is_core).arm_short == arm.name,
        arm_info(declaration, arm, layout, class, family, names, bounds, is_core).methods@.len() == 0,
        arm_info(declaration, arm, layout, class, family, names, bounds, is_core).init is None,
{
}

/// Whether a class has the modifiers, the members and the shape that its
/// declaration gives it.
pub open spec fn keeps_declaration(cx: &Ctx, declaration: ClassDef, class: u32, info: ClassInfo) -> bool {
    &&& info.name == declaration.name
    &&& info.is_final == declaration.is_final
    &&& info.is_frozen == declaration.is_frozen
    &&& info.parent == meta_at(cx, class).parent
    &&& info.kind == ClassKind::Normal
    &&& info.family is None
    &&& info.arms@.len() == 0
    &&& info.type_params == split_generics(&declaration.generics).types
    &&& members_apart(Members { methods: info.methods, init: info.init }, info.field_names, declaration.is_frozen)
}

/// An accepted class keeps its declaration.
pub proof fn law_class_info(cx: &Ctx, st: Decl, declaration: &ClassDef, class: u32, is_core: bool)
    requires
        resolve_class(cx, st, declaration, class, is_core).1 is Ok,
    ensures
        keeps_declaration(cx, *declaration, class, resolve_class(cx, st, declaration, class, is_core).1->Ok_0),
{
    let meta = meta_at(cx, class);
    let generics = split_generics(&declaration.generics);
    let repr = class_repr(&declaration.name, is_core);
    let self_ty = class_self_type(class, count(&generics.types), repr);
    let outer = class_scope(&generics.types, empty_bounds(&generics.types), &self_ty, is_core);
    let (st1, bounds) = resolve_generic_bounds(cx, &outer, st, &declaration.generics);
    let env = class_scope(&generics.types, bounds->Ok_0, &self_ty, is_core);
    let inherited = inherited_layout(cx, meta.parent, &meta.parent_args, parent_span(declaration))->Ok_0;
    let (st2, layout) = own_fields(cx, &env, st1, &declaration.fields, inherited);
    let none = Members { methods: Chain::Nil, init: None };
    assert(members_apart(none, layout->Ok_0.names, declaration.is_frozen));
    law_members(cx, st2, declaration, &declaration.methods, &generics.types, &bounds->Ok_0, &self_ty, &layout->Ok_0.names, meta.parent, &meta.parent_args, is_core, none);
}

/// Whether the mailbox of a declared process takes values that can be
/// copied, where its declaration names one.
pub open spec fn mailbox_fits(cx: &Ctx, declaration: ClassDef) -> bool {
    let meta = meta_at(cx, declared_class(cx, &declaration.name, false));
    find_literal(&cx.core_types, "Proc") is Some && meta.parent == find_literal(&cx.core_types, "Proc") && meta.parent_args@.len() > 0
        && declaration.parent is Some && declaration.parent->0.args@.len() > 0
        ==> check_mailbox_type(cx, &meta.parent_args@[0], declaration.parent->0.args@[0].span) is Ok
}

/// Every accepted process has a mailbox type that fits.
pub proof fn law_mailbox_types(cx: &Ctx, classes: &Chain<ClassDef>)
    requires
        check_mailbox_types(cx, classes) is Ok,
    ensures
        forall|i: int| 0 <= i < classes@.len() ==> mailbox_fits(cx, #[trigger] classes@[i]),
    decreases classes,
{
    if let Chain::Cons(head, tail) = classes {
        law_mailbox_types(cx, tail);
        assert(mailbox_fits(cx, **head)) by {
            let meta = meta_at(cx, declared_class(cx, &head.name, false));
            law_nth(&meta.parent_args, 0u32);
            if head.parent is Some {
                assert(head.parent->0.args matches Chain::Cons(written, _) ==> head.parent->0.args@[0] == *written);
            }
        }
        assert forall|i: int| 0 <= i < classes@.len() implies mailbox_fits(cx, #[trigger] classes@[i]) by {
            if i > 0 {
                assert(classes@[i] == tail@[i - 1]);
            }
        }
    }
}

/// Whether each associated type of an interface has a binding.
pub open spec fn is_bound(bindings: Chain<AssociatedType>, name: Text) -> bool {
    exists|i: int| 0 <= i < bindings@.len() && (#[trigger] bindings@[i]).name == name && bindings@[i].value is Some
}

/// A conformance binds each associated type of its interface, in order.
pub proof fn law_bound_types(cx: &Ctx, env: &TyEnv, st: Decl, associated: &Chain<AssociatedInfo>, bindings: &Chain<AssociatedType>, span: Span)
    requires
        resolve_bound_types(cx, env, st, associated, bindings, span).1 is Ok,
    ensures
        resolve_bound_types(cx, env, st, associated, bindings, span).1->Ok_0@.len() == associated@.len(),
        forall|i: int| 0 <= i < associated@.len() ==> is_bound(*bindings, (#[trigger] associated@[i]).name),
    decreases associated,
{
    if let Chain::Cons(head, tail) = associated {
        lemma_find_binding(bindings, &head.name);
        let (next, _first) = resolve_type(cx, env, st, &find_binding(bindings, &head.name)->0.value->0);
        law_bound_types(cx, env, next, tail, bindings, span);
        assert forall|i: int| 0 <= i < associated@.len() implies is_bound(*bindings, (#[trigger] associated@[i]).name) by {
            if i > 0 {
                assert(associated@[i] == tail@[i - 1]);
            }
        }
    }
}

proof fn lemma_find_binding(items: &Chain<AssociatedType>, name: &Text)
    ensures
        find_binding(items, name) matches Some(found) ==> found.name == *name && items@.contains(*found),
    decreases items,
{
    if let Chain::Cons(head, tail) = items {
        lemma_find_binding(tail, name);
        assert(items@[0] == **head);
        if head.name != *name {
            if let Some(found) = find_binding(tail, name) {
                let i = tail@.index_of(*found);
                assert(items@[i + 1] == *found);
            }
        }
    }
}

/// Accepted associated type bindings have names of their own.
pub proof fn law_bindings(items: &Chain<AssociatedType>, seen: Chain<Text>)
    requires
        check_bindings(items, seen) is Ok,
    ensures
        forall|i: int, j: int| 0 <= i < j < items@.len() ==> (#[trigger] items@[i]).name != (#[trigger] items@[j]).name,
        forall|i: int| 0 <= i < items@.len() ==> !seen@.contains((#[trigger] items@[i]).name),
    decreases items,
{
    if let Chain::Cons(head, tail) = items {
        let more = cons(head.name, seen);
        law_holds_name(&seen, &head.name);
        law_bindings(tail, more);
        assert(more@ =~= seq![head.name] + seen@);
        assert(items@ =~= seq![**head] + tail@);
        assert forall|i: int| 0 <= i < items@.len() implies !seen@.contains((#[trigger] items@[i]).name) by {
            if i > 0 {
                assert(items@[i] == tail@[i - 1]);
                if seen@.contains(items@[i].name) {
                    let j = seen@.index_of(items@[i].name);
                    assert(more@[j + 1] == items@[i].name);
                }
            }
        }
        assert forall|i: int, j: int| 0 <= i < j < items@.len() implies (#[trigger] items@[i]).name != (#[trigger] items@[j]).name by {
            assert(items@[j] == tail@[j - 1]);
            if i == 0 {
                assert(more@[0] == head.name);
                assert(!more@.contains(tail@[j - 1].name));
            } else {
                assert(items@[i] == tail@[i - 1]);
            }
        }
    }
}

} // verus!
