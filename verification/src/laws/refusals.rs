//! What an accepted declaration, statement or pattern never holds.

use vstd::prelude::*;
use crate::ast::{ArmDef, ClassDef, EnumDef, Expr, FieldDef, GenericParam, LoopBinding, Pattern, PatternKind, Span, Stmt, TypeExpr};
use crate::chain::Chain;
use crate::context::{ClassKind, ClassMeta, ConformanceInfo, Ctx, Decl, Layout, NativeRepr, Picked, TyEnv};
use crate::hir::{HPattern, HStmt, Projection};
use crate::laws::calls::target;
use crate::laws::lists::{law_append, law_holds_name};
use crate::laws::scopes::law_set_slot;
use crate::model::blocks::{bind_loop, check_block, check_ctor_field, check_declare, check_stmt};
use crate::model::calls::{call_named, construct_class, resolve_callee};
use crate::model::classes::{class_repr, declare_class, native_shape_valid, new_meta, own_fields, register_arms, register_classes, register_core_native_class, register_enums, resolve_class};
use crate::model::endings::diverges;
use crate::model::exprs::synth_name;
use crate::model::fulfil::check_conformance;
use crate::model::lists::{append, cons, count, nth};
use crate::model::lookup::{class_at, class_of, family_of, lookup_type, meta_at};
use crate::model::names::dotted;
use crate::model::patterns::{call_pattern, nominal_pattern, pattern_descriptor};
use crate::model::resolve::{resolve_apply, resolve_class_apply, resolve_type, split_generics};
use crate::model::scope::{hidden_local, module_func, resolve_value, set_slot, slot_in};
use crate::model::subst::contains_callback;
use crate::model::system::{check_sys_value, exact_target};
use crate::problem::Stop;
use crate::state::{BlockMode, Checker, ScopeEntry};
use crate::text::Text;
use crate::types::Ty;

verus! {

/// Whether generic parameters are of types alone.
pub open spec fn types_only(generics: Chain<GenericParam>) -> bool {
    forall|k: int| 0 <= k < generics@.len() ==> !(#[trigger] generics@[k]).is_effect
}

proof fn lemma_effects(generics: &Chain<GenericParam>)
    ensures
        split_generics(generics).effects@.len() == 0 <==> types_only(*generics),
    decreases generics,
{
    if let Chain::Cons(head, tail) = generics {
        lemma_effects(tail);
        assert(generics@[0] == **head);
        if types_only(*generics) {
            assert forall|k: int| 0 <= k < tail@.len() implies !(#[trigger] tail@[k]).is_effect by {
                assert(tail@[k] == generics@[k + 1]);
            }
        }
        if !head.is_effect && types_only(**tail) {
            assert forall|k: int| 0 <= k < generics@.len() implies !(#[trigger] generics@[k]).is_effect by {
                if k > 0 {
                    assert(generics@[k] == tail@[k - 1]);
                }
            }
        }
    }
}

/// A class has no effect parameters.
pub proof fn law_class_parameters(cx: Ctx, classes: &Chain<ClassDef>, is_core: bool)
    requires
        register_classes(cx, classes, is_core) is Ok,
    ensures
        forall|i: int| 0 <= i < classes@.len() ==> types_only((#[trigger] classes@[i]).generics),
    decreases classes,
{
    if let Chain::Cons(head, tail) = classes {
        let generics = split_generics(&head.generics);
        lemma_effects(&head.generics);
        let id = count(&cx.metas);
        let next = declare_class(cx, head.name, new_meta(&head.name, count(&generics.types), ClassKind::Normal, head.is_final), is_core, head.name_span)->Ok_0;
        if is_core {
            law_class_parameters(Ctx { natives: register_core_native_class(next.natives, &head.name, id), ..next }, tail, is_core);
        } else {
            law_class_parameters(next, tail, is_core);
        }
        assert forall|i: int| 0 <= i < classes@.len() implies types_only((#[trigger] classes@[i]).generics) by {
            if i > 0 {
                assert(classes@[i] == tail@[i - 1]);
            }
        }
    }
}

/// Two arms of an enum never have one name.
pub proof fn law_arm_names(cx: Ctx, arms: &Chain<ArmDef>, family: &Text, type_params: u32, parent: u32, seen: Chain<Text>, is_core: bool)
    requires
        register_arms(cx, arms, family, type_params, parent, seen, is_core) is Ok,
    ensures
        forall|i: int| 0 <= i < arms@.len() ==> !seen@.contains((#[trigger] arms@[i]).name),
        forall|i: int, j: int| 0 <= i < j < arms@.len() ==> (#[trigger] arms@[i]).name != (#[trigger] arms@[j]).name,
    decreases arms,
{
    if let Chain::Cons(head, tail) = arms {
        law_holds_name(&seen, &head.name);
        let full = dotted(family, &head.name);
        let meta = ClassMeta { parent: Some(parent), ..new_meta(&full, type_params, ClassKind::EnumCase, false) };
        let next = declare_class(cx, full, meta, is_core, head.name_span)->Ok_0;
        let more = cons(head.name, seen);
        law_arm_names(next, tail, family, type_params, parent, more, is_core);
        assert(arms@[0] == **head);
        assert(more@[0] == head.name);
        assert forall|i: int| 0 <= i < arms@.len() implies !seen@.contains((#[trigger] arms@[i]).name) by {
            if i > 0 {
                assert(arms@[i] == tail@[i - 1]);
                if seen@.contains(arms@[i].name) {
                    let k = seen@.index_of(arms@[i].name);
                    assert(more@[k + 1] == arms@[i].name);
                }
            }
        }
        assert forall|i: int, j: int| 0 <= i < j < arms@.len() implies (#[trigger] arms@[i]).name != (#[trigger] arms@[j]).name by {
            assert(arms@[j] == tail@[j - 1]);
            if i > 0 {
                assert(arms@[i] == tail@[i - 1]);
            } else {
                assert(more@.contains(head.name));
            }
        }
    }
}

/// An enum has no effect parameters, and no two arms of one name.
pub proof fn law_enum_parameters(cx: Ctx, enums: &Chain<EnumDef>, is_core: bool)
    requires
        register_enums(cx, enums, is_core) is Ok,
    ensures
        forall|i: int| 0 <= i < enums@.len() ==> types_only((#[trigger] enums@[i]).generics) && arms_apart(enums@[i].arms@),
    decreases enums,
{
    if let Chain::Cons(head, tail) = enums {
        let generics = split_generics(&head.generics);
        lemma_effects(&head.generics);
        let arity = count(&generics.types);
        let parent = count(&cx.metas);
        let next = declare_class(cx, head.name, new_meta(&head.name, arity, ClassKind::EnumParent, false), is_core, head.name_span)->Ok_0;
        law_arm_names(next, &head.arms, &head.name, arity, parent, Chain::Nil, is_core);
        let after = register_arms(next, &head.arms, &head.name, arity, parent, Chain::Nil, is_core)->Ok_0;
        law_enum_parameters(after, tail, is_core);
        assert forall|i: int| 0 <= i < enums@.len() implies types_only((#[trigger] enums@[i]).generics) && arms_apart(enums@[i].arms@) by {
            if i > 0 {
                assert(enums@[i] == tail@[i - 1]);
            }
        }
    }
}

/// Whether the names of arms are distinct.
pub open spec fn arms_apart(arms: Seq<ArmDef>) -> bool {
    forall|i: int, j: int| 0 <= i < j < arms.len() ==> (#[trigger] arms[i]).name != (#[trigger] arms[j]).name
}

/// The own fields of a class stand behind the inherited ones, each name
/// once.
pub proof fn law_own_fields(cx: &Ctx, env: &TyEnv, st: Decl, fields: &Chain<FieldDef>, layout: Layout)
    requires
        own_fields(cx, env, st, fields, layout).1 is Ok,
        layout.names@.no_duplicates(),
    ensures
        own_fields(cx, env, st, fields, layout).1->Ok_0.names@.no_duplicates(),
        own_fields(cx, env, st, fields, layout).1->Ok_0.names@.len() == layout.names@.len() + fields@.len(),
        forall|i: int| 0 <= i < layout.names@.len() ==> own_fields(cx, env, st, fields, layout).1->Ok_0.names@[i] == #[trigger] layout.names@[i],
        forall|i: int| 0 <= i < fields@.len() ==> own_fields(cx, env, st, fields, layout).1->Ok_0.names@[layout.names@.len() + i] == (#[trigger] fields@[i]).name,
    decreases fields,
{
    if let Chain::Cons(head, tail) = fields {
        law_holds_name(&layout.names, &head.name);
        law_append(layout.names, head.name);
        let (after, ty) = resolve_type(cx, env, st, &head.ty);
        let next = Layout { names: append(layout.names, head.name), tys: append(layout.tys, ty->Ok_0), defaults: append(layout.defaults, head.default.is_some()) };
        law_own_fields(cx, env, after, tail, next);
        let found = own_fields(cx, env, st, fields, layout).1->Ok_0.names@;
        assert(fields@[0] == **head);
        assert(next.names@[layout.names@.len() as int] == head.name);
        assert forall|i: int| 0 <= i < layout.names@.len() implies found[i] == #[trigger] layout.names@[i] by {
            assert(next.names@[i] == layout.names@[i]);
        }
        assert forall|i: int| 0 <= i < fields@.len() implies found[layout.names@.len() + i] == (#[trigger] fields@[i]).name by {
            if i > 0 {
                assert(fields@[i] == tail@[i - 1]);
            } else {
                assert(found[layout.names@.len() as int] == next.names@[layout.names@.len() as int]);
            }
        }
    }
}

/// A class that stands for a native representation has its shape.
pub proof fn law_class_shape(cx: &Ctx, st: Decl, declaration: &ClassDef, class: u32, is_core: bool)
    requires
        !native_shape_valid(cx, class_repr(&declaration.name, is_core), declaration, meta_at(cx, class).parent, count(&split_generics(&declaration.generics).types)),
    ensures
        resolve_class(cx, st, declaration, class, is_core).1 is Err,
{
}

/// What checking a statement gives.
#[verifier::opaque]
spec fn statement(cx: &Ctx, st: Checker, stmt: Stmt) -> (Checker, Result<HStmt, Stop>) {
    check_stmt(cx, st, &stmt)
}

proof fn lemma_block(cx: &Ctx, st: Checker, head: Stmt, next: Stmt, more: Chain<Stmt>, mode: &BlockMode, span: Span)
    ensures
        ({
            let tail = Chain::Cons(Box::new(next), Box::new(more));
            let stmts = Chain::Cons(Box::new(head), Box::new(tail));
            check_block(cx, st, &stmts, mode, span).1 matches Ok(block) ==> (statement(cx, st, head).1 matches Ok(first) && !diverges(&first) && (check_block(
                cx,
                statement(cx, st, head).0,
                &tail,
                mode,
                span,
            ).1 matches Ok(rest) && block.body == cons(first, rest.body)))
        }),
{
    reveal(statement);
}

/// Nothing stands behind a statement that diverges.
pub proof fn law_reachable(cx: &Ctx, st: Checker, stmts: &Chain<Stmt>, mode: &BlockMode, span: Span)
    requires
        check_block(cx, st, stmts, mode, span).1 is Ok,
    ensures
        stmts@.len() > 1 ==> check_block(cx, st, stmts, mode, span).1->Ok_0.body@.len() >= stmts@.len() - 1,
        forall|i: int| 0 <= i < stmts@.len() - 1 ==> !diverges(&#[trigger] check_block(cx, st, stmts, mode, span).1->Ok_0.body@[i]),
    decreases stmts,
{
    if let Chain::Cons(head, tail) = stmts {
        if let Chain::Cons(next, more) = &**tail {
            lemma_block(cx, st, **head, **next, **more, mode, span);
            let after = statement(cx, st, **head).0;
            law_reachable(cx, after, tail, mode, span);
            let body = check_block(cx, st, stmts, mode, span).1->Ok_0.body@;
            let rest = check_block(cx, after, tail, mode, span).1->Ok_0.body@;
            assert(body.len() == rest.len() + 1);
            assert(stmts@.len() == tail@.len() + 1);
            assert forall|i: int| 0 <= i < stmts@.len() - 1 implies !diverges(&#[trigger] body[i]) by {
                if i > 0 {
                    assert(body[i] == rest[i - 1]);
                }
            }
        }
    }
}

/// A local does not take the name of a function or of a type.
pub proof fn law_declared_name(cx: &Ctx, st: Checker, name: &Text, name_span: Span, ty: &Option<TypeExpr>, value: &Expr)
    requires
        module_func(cx, &st.env, name) is Some || lookup_type(cx, name, &st.env) is Some,
    ensures
        check_declare(cx, st, name, name_span, ty, value).1 is Err,
        check_declare(cx, st, name, name_span, ty, value).0 == st,
{
}

/// An initializer stores no callback in a field.
pub proof fn law_stored_field(cx: &Ctx, st: Checker, class: u32, field: &Text, field_span: Span, value: &Expr)
    ensures
        check_ctor_field(cx, st, class, field, field_span, value).1 matches Ok(stmt) ==> (stmt matches HStmt::AssignField { value: found, .. } && !contains_callback(&found.ty)),
{
}

/// Two bindings of a loop never have one name, unless they bind nothing.
pub proof fn law_bind_loop(st: Checker, bindings: &Chain<LoopBinding>, types: &Chain<Ty>, mutable: bool, scope: Chain<ScopeEntry>)
    requires
        bindings@.len() == types@.len(),
        bind_loop(st, bindings, types, mutable, scope).1 is Ok,
    ensures
        forall|i: int| 0 <= i < bindings@.len() && (#[trigger] bindings@[i]).name@ != "_"@ ==> slot_in(&scope, &bindings@[i].name) is None,
        forall|i: int, j: int| 0 <= i < j < bindings@.len() && (#[trigger] bindings@[i]).name@ != "_"@ ==> bindings@[i].name != (#[trigger] bindings@[j]).name,
    decreases bindings,
{
    if let Chain::Cons(binding, bindings_rest) = bindings {
        if let Chain::Cons(ty, types_rest) = types {
            let anonymous = binding.name@ == "_"@;
            let (after, slot) = hidden_local(st, **ty, mutable);
            let inner = if anonymous { scope } else { set_slot(scope, &binding.name, slot) };
            assert(bindings@.len() == bindings_rest@.len() + 1);
            assert(types@.len() == types_rest@.len() + 1);
            law_bind_loop(after, bindings_rest, types_rest, mutable, inner);
            assert(bindings@[0] == **binding);
            law_set_slot(scope, &binding.name, slot, &binding.name);
            assert forall|i: int| 0 <= i < bindings@.len() && (#[trigger] bindings@[i]).name@ != "_"@ implies slot_in(&scope, &bindings@[i].name) is None by {
                if i > 0 {
                    assert(bindings@[i] == bindings_rest@[i - 1]);
                    law_set_slot(scope, &binding.name, slot, &bindings@[i].name);
                }
            }
            assert forall|i: int, j: int| 0 <= i < j < bindings@.len() && (#[trigger] bindings@[i]).name@ != "_"@ implies bindings@[i].name != (#[trigger] bindings@[j]).name by {
                assert(bindings@[j] == bindings_rest@[j - 1]);
                if i > 0 {
                    assert(bindings@[i] == bindings_rest@[i - 1]);
                }
            }
        }
    }
}

/// The operation of a call pattern is one exact operation, written alone.
pub proof fn law_pattern_descriptor(cx: &Ctx, pat: &Pattern)
    ensures
        pattern_descriptor(cx, pat) matches Ok(slot) ==> (pat.kind matches PatternKind::Ctor { qualifier, name, args, has_parens } && !has_parens && args@.len() == 0 && (qualifier matches Some(group) && (
        exact_target(&cx.bundle.ops, &group, &name, 0u32) matches Some(target) && target.slot == slot))),
{
}

/// A call pattern has an operation, a call and its arguments, and tests the
/// operation that it names.
pub proof fn law_call_pattern(cx: &Ctx, st: Checker, args: &Chain<Pattern>, mutable: bool, span: Span)
    requires
        call_pattern(cx, st, args, mutable, span).1 is Ok,
    ensures
        args@.len() == 3,
        call_pattern(cx, st, args, mutable, span).1->Ok_0 matches HPattern::Project { projection, .. } && (projection matches Projection::AsCall(op) && pattern_descriptor(cx, &args@[0]) == Ok::<
            u32,
            Stop,
        >(op)),
{
    reveal_with_fuel(Chain::items, 5);
}

/// A qualified pattern names the enum of the value that it tests.
pub proof fn law_pattern_qualifier(
    cx: &Ctx,
    st: Checker,
    written: Text,
    name: &Text,
    args: &Chain<Pattern>,
    has_parens: bool,
    ty: &Ty,
    mutable: bool,
    span: Span,
)
    requires
        nominal_pattern(cx, st, &Some(written), name, args, has_parens, ty, mutable, span).1 is Ok,
    ensures
        class_of(cx, ty) matches Some(scrut) && (family_of(cx, scrut.class) matches Some(family) ==> lookup_type(cx, &written, &st.env) == Some(family)),
{
}

/// A class without type parameters takes no type arguments, and neither
/// does a machine.
pub proof fn law_applied(cx: &Ctx, env: &TyEnv, st: Decl, name: &Text, args: &Chain<TypeExpr>, span: Span)
    ensures
        name@ == "Vm"@ ==> resolve_apply(cx, env, st, name, args, span).1 is Err,
        lookup_type(cx, name, env) matches Some(class) ==> meta_at(cx, class).type_params == 0 ==> resolve_class_apply(cx, env, st, name, args, span).1 is Err,
{
}

/// The constructor of machines is no value.
pub proof fn law_vm_no_value(cx: &Ctx, group: &Text, member: &Text, span: Span)
    requires
        group@ == "Vm"@,
        member@ == "Vm"@,
    ensures
        check_sys_value(cx, group, member, span) is Err,
{
}

/// A callback that a closure captures is neither read nor called.
pub proof fn law_captured_callback(cx: &Ctx, st: Checker, name: &Text, type_args: &Chain<TypeExpr>, expected: Option<&Ty>, span: Span)
    requires
        resolve_value(st, name).1 matches Ok(Some(found)) && contains_callback(&found.ty) && found.source is Capture,
    ensures
        synth_name(cx, st, name, span).1 is Err,
        resolve_callee(cx, st, name, span, type_args, expected, span).1 is Err,
{
}

/// Bytes are made of one text without type arguments.
pub proof fn law_bytes_arguments(
    cx: &Ctx,
    st: Checker,
    class: u32,
    name: &Text,
    name_span: Span,
    type_args: &Chain<TypeExpr>,
    args: &Chain<Expr>,
    expected: Option<&Ty>,
    span: Span,
)
    requires
        class_at(cx, class).native_repr == Some(NativeRepr::Bytes),
        count(args) == 1,
        type_args@.len() > 0,
    ensures
        construct_class(cx, st, class, name, name_span, type_args, args, expected, span).1 is Err,
{
}

/// A call of a function value takes no type arguments.
pub proof fn law_called_value(cx: &Ctx, st: Checker, name: &Text, name_span: Span, type_args: &Chain<TypeExpr>, args: &Chain<Expr>, expected: Option<&Ty>, span: Span)
    requires
        type_args@.len() > 0,
        !st.env.core_scope,
        resolve_callee(cx, st, name, name_span, type_args, expected, span).1 matches Ok(callee) && callee is Value,
    ensures
        call_named(cx, st, name, name_span, type_args, args, expected, span).1 is Err,
{
}

/// A class whose subclasses could break it conforms to no interface that
/// depends on `Self`.
pub proof fn law_self_dependent(cx: &Ctx, env: &TyEnv, st: Chain<Picked>, class: u32, conformance: &ConformanceInfo, dependencies: &Chain<bool>, span: Span)
    requires
        class_at(cx, class).kind == ClassKind::Normal,
        !class_at(cx, class).is_final,
        class_at(cx, class).native_repr != Some(NativeRepr::Text),
        nth(dependencies, conformance.application.interface) == Some(&true),
    ensures
        check_conformance(cx, env, st, class, conformance, dependencies, span).1 is Err,
        check_conformance(cx, env, st, class, conformance, dependencies, span).0 == st,
{
}

} // verus!
