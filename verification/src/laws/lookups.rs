//! Look-ups in the tables: what a found entry is.

use vstd::prelude::*;
use crate::ast::Span;
use crate::chain::Chain;
use crate::context::{AssociatedInfo, ClassKind, Ctx, TyEnv};
use crate::laws::lists::{law_nth, law_position};
use crate::model::exprs::field_ty_at;
use crate::model::lists::find_literal;
use crate::model::lookup::{arm_named, associated_position, class_at, class_of, ctor_families, family_of, find_arm, find_field, nominal_class, tuple_arity, type_for_nominal};
use crate::model::system::{expected_arm, resolve_ctor};
use crate::problem::Stop;
use crate::text::Text;
use crate::types::Ty;

verus! {

/// A field is found at the first position of its name.
pub proof fn law_find_field(cx: &Ctx, class: u32, name: &Text)
    ensures
        find_field(cx, class, name) is Some <==> class_at(cx, class).field_names@.contains(*name),
        class_at(cx, class).field_names@.len() <= u32::MAX ==> (find_field(cx, class, name) matches Some(at) ==> at < class_at(cx, class).field_names@.len() && class_at(
            cx,
            class,
        ).field_names@[at as int] == *name),
{
    law_position(&class_at(cx, class).field_names, name);
}

/// The type of a field is the one at its position.
pub proof fn law_field_ty(cx: &Ctx, class: u32, field: u32)
    ensures
        field < class_at(cx, class).field_tys@.len() ==> field_ty_at(cx, class, field) == class_at(cx, class).field_tys@[field as int],
{
    law_nth(&class_at(cx, class).field_tys, field);
}

/// An arm that is found is one of the enum, and has the name.
pub proof fn law_find_arm(cx: &Ctx, family: u32, short: &Text)
    ensures
        find_arm(cx, family, short) matches Some(arm) ==> class_at(cx, family).arms@.contains(arm) && class_at(cx, arm).arm_short == *short,
        find_arm(cx, family, short) is None ==> forall|i: int|
            0 <= i < class_at(cx, family).arms@.len() ==> class_at(cx, #[trigger] class_at(cx, family).arms@[i]).arm_short != *short,
{
    lemma_arm_named(cx, &class_at(cx, family).arms, short);
}

proof fn lemma_arm_named(cx: &Ctx, arms: &Chain<u32>, short: &Text)
    ensures
        arm_named(cx, arms, short) matches Some(arm) ==> arms@.contains(arm) && class_at(cx, arm).arm_short == *short,
        arm_named(cx, arms, short) is None ==> forall|i: int| 0 <= i < arms@.len() ==> class_at(cx, #[trigger] arms@[i]).arm_short != *short,
    decreases arms,
{
    if let Chain::Cons(head, tail) = arms {
        lemma_arm_named(cx, tail, short);
        assert(arms@[0] == **head);
        if class_at(cx, **head).arm_short != *short {
            if let Some(arm) = arm_named(cx, tail, short) {
                let i = tail@.index_of(arm);
                assert(arms@[i + 1] == arm);
            } else {
                assert forall|i: int| 0 <= i < arms@.len() implies class_at(cx, #[trigger] arms@[i]).arm_short != *short by {
                    if i > 0 {
                        assert(arms@[i] == tail@[i - 1]);
                    }
                }
            }
        }
    }
}

/// Whether a class is that of a built-in type without arguments.
pub open spec fn is_scalar(cx: &Ctx, class: u32) -> bool {
    ||| cx.natives.unit == Some(class)
    ||| cx.natives.int == Some(class)
    ||| cx.natives.float == Some(class)
    ||| cx.natives.boolean == Some(class)
    ||| cx.natives.string == Some(class)
    ||| cx.natives.bytes == Some(class)
    ||| cx.natives.file == Some(class)
}

/// Whether a class is that of a built-in type.
pub open spec fn is_native(cx: &Ctx, class: u32) -> bool {
    ||| is_scalar(cx, class)
    ||| cx.natives.list == Some(class)
    ||| cx.natives.map == Some(class)
    ||| tuple_arity(&cx.natives.tuples, class) is Some
}

/// The class behind a type names the type again: a list for the list class,
/// a map for the map class, and a class for itself.
pub proof fn law_nominal_type(cx: &Ctx, ty: &Ty)
    requires
        nominal_class(cx, ty) is Some,
        match *ty {
            Ty::ListOf(_) => !is_scalar(cx, nominal_class(cx, ty)->0.class),
            Ty::MapOf(_, _) => !is_scalar(cx, nominal_class(cx, ty)->0.class) && cx.natives.list != Some(nominal_class(cx, ty)->0.class),
            Ty::Class(class) => !is_native(cx, class),
            Ty::Inst(class, args) => !is_native(cx, class) && args@.len() > 0,
            _ => false,
        },
    ensures
        type_for_nominal(cx, nominal_class(cx, ty)->0.class, nominal_class(cx, ty)->0.args) == *ty,
{
    reveal_with_fuel(Chain::items, 4);
}

/// The members of a value are those of its class, with its type arguments.
pub proof fn law_class_of(cx: &Ctx, ty: &Ty)
    ensures
        *ty matches Ty::Class(class) ==> (class_of(cx, ty) matches Some(found) && found.class == class && found.args@.len() == 0),
        *ty matches Ty::Inst(class, args) ==> (class_of(cx, ty) matches Some(found) && found.class == class && found.args == args),
        *ty is Var || *ty is Fn || *ty is Callback || *ty is Op || *ty is Tuple || *ty is ListOf || *ty is MapOf || *ty is Never || *ty is Unit ==> class_of(cx, ty) is None,
        *ty == Ty::Int ==> (class_of(cx, ty) matches Some(found) ==> find_literal(&cx.core_types, "Int") == Some(found.class)),
        *ty == Ty::Bool ==> (class_of(cx, ty) matches Some(found) ==> find_literal(&cx.core_types, "Bool") == Some(found.class)),
        *ty == Ty::Str ==> (class_of(cx, ty) matches Some(found) ==> find_literal(&cx.core_types, "String") == Some(found.class)),
        *ty == Ty::Bytes ==> (class_of(cx, ty) matches Some(found) ==> find_literal(&cx.core_types, "Bytes") == Some(found.class)),
{
}

/// The family of an arm is its enum, that of an enum is itself, and an
/// ordinary class has none.
pub proof fn law_family_of(cx: &Ctx, class: u32)
    ensures
        class_at(cx, class).kind == ClassKind::EnumParent ==> family_of(cx, class) == Some(class),
        class_at(cx, class).kind == ClassKind::EnumCase ==> family_of(cx, class) == class_at(cx, class).family,
        class_at(cx, class).kind == ClassKind::Normal ==> family_of(cx, class) is None,
{
}

/// An associated type is found at the first position of its name.
pub proof fn law_associated_position(items: &Chain<AssociatedInfo>, name: &Text)
    requires
        items@.len() <= u32::MAX,
    ensures
        associated_position(items, name) matches Some(at) ==> at < items@.len() && items@[at as int].name == *name,
        associated_position(items, name) is None ==> forall|i: int| 0 <= i < items@.len() ==> (#[trigger] items@[i]).name != *name,
    decreases items,
{
    if let Chain::Cons(head, tail) = items {
        law_associated_position(tail, name);
        assert(items@[0] == **head);
        if head.name != *name {
            if let Some(at) = associated_position(tail, name) {
                assert(items@[at + 1] == tail@[at as int]);
            } else {
                assert forall|i: int| 0 <= i < items@.len() implies (#[trigger] items@[i]).name != *name by {
                    if i > 0 {
                        assert(items@[i] == tail@[i - 1]);
                    }
                }
            }
        }
    }
}

/// An arm that an expected type names is one of the enum of that type.
pub proof fn law_expected_arm(cx: &Ctx, expected: Option<&Ty>, name: &Text)
    ensures
        expected_arm(cx, expected, name) matches Some(arm) ==> (expected matches Some(ty) && (class_of(cx, ty) matches Some(nominal) && (family_of(cx, nominal.class) matches Some(family)
            && find_arm(cx, family, name) == Some(arm)))),
{
}

/// A constructor name is an arm of the expected enum, or of the one enum in
/// scope that has it.
pub proof fn law_resolve_ctor(cx: &Ctx, env: &TyEnv, name: &Text, expected: Option<&Ty>, span: Span)
    ensures
        expected_arm(cx, expected, name) matches Some(arm) ==> resolve_ctor(cx, env, name, expected, span) == Ok::<Option<u32>, Stop>(Some(arm)),
        expected_arm(cx, expected, name) is None ==> (resolve_ctor(cx, env, name, expected, span) matches Ok(Some(arm)) ==> (ctor_families(cx, env, name)@.len() == 1 && find_arm(
            cx,
            ctor_families(cx, env, name)@[0],
            name,
        ) == Some(arm))),
        expected_arm(cx, expected, name) is None && ctor_families(cx, env, name)@.len() > 1 ==> resolve_ctor(cx, env, name, expected, span) is Err,
{
    reveal_with_fuel(Chain::items, 3);
}

} // verus!
