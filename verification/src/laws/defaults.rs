//! Field layouts and field defaults.

use vstd::prelude::*;
use crate::ast::{ArmField, FieldDef, Span};
use crate::chain::Chain;
use crate::context::{ClassInfo, Ctx, Decl, Layout, TyEnv};
use crate::laws::lists::{law_append, law_concat};
use crate::model::assembly::{hir_class, inherited_defaults, own_defaults};
use crate::model::bodies::{arm_defaults, check_default, check_field_defaults, no_default};
use crate::model::classes::{inherited_layout, own_fields};
use crate::model::lists::append;
use crate::model::lookup::class_at;
use crate::model::modules::absent_defaults;
use crate::model::resolve::resolve_type;
use crate::program::{ClassOrigin, FieldDefault};
use crate::state::Output;
use crate::text::Text;
use crate::types::Ty;

verus! {

/// The names of fields, in their order.
pub open spec fn declared_names(fields: Seq<FieldDef>) -> Seq<Text> {
    fields.map_values(|field: FieldDef| field.name)
}

/// A class has the fields of its parent, then its own, in the order of
/// their declarations.
pub proof fn law_own_fields(cx: &Ctx, env: &TyEnv, st: Decl, fields: &Chain<FieldDef>, layout: Layout)
    ensures
        own_fields(cx, env, st, fields, layout).1 matches Ok(found) ==> {
            &&& found.names@ == layout.names@ + declared_names(fields@)
            &&& found.tys@.len() == layout.tys@.len() + fields@.len()
            &&& found.defaults@ == layout.defaults@ + fields@.map_values(|field: FieldDef| field.default is Some)
        },
    decreases fields,
{
    match fields {
        Chain::Nil => {
            assert(fields@ =~= Seq::<FieldDef>::empty());
            assert(layout.names@ + declared_names(fields@) =~= layout.names@);
            assert(layout.defaults@ + fields@.map_values(|field: FieldDef| field.default is Some) =~= layout.defaults@);
        },
        Chain::Cons(head, tail) => {
            match resolve_type(cx, env, st, &head.ty) {
                (next_st, Ok(ty)) => {
                    let next = Layout {
                        names: append(layout.names, head.name),
                        tys: append(layout.tys, ty),
                        defaults: append(layout.defaults, head.default is Some),
                    };
                    law_append(layout.names, head.name);
                    law_append(layout.tys, ty);
                    law_append(layout.defaults, head.default is Some);
                    law_own_fields(cx, env, next_st, tail, next);
                    assert(fields@ =~= seq![**head] + tail@);
                    assert(next.names@ + declared_names(tail@) =~= layout.names@ + declared_names(fields@));
                    assert(next.defaults@ + tail@.map_values(|field: FieldDef| field.default is Some)
                        =~= layout.defaults@ + fields@.map_values(|field: FieldDef| field.default is Some));
                },
                _ => {},
            }
        },
    }
}

/// What a class takes over from its parent are the names and the default
/// markers of all its fields.
pub proof fn law_inherited_layout(cx: &Ctx, parent: Option<u32>, args: &Chain<Ty>, span: Span)
    ensures
        inherited_layout(cx, parent, args, span) matches Ok(layout) ==> match parent {
            None => layout.names@.len() == 0 && layout.defaults@.len() == 0,
            Some(class) => layout.names == class_at(cx, class).field_names && layout.defaults == class_at(cx, class).has_default,
        },
{
}

/// Checking the fields of a class gives one default for each field, and
/// none where the field is written without one.
pub proof fn law_check_field_defaults(cx: &Ctx, st: Output, class: u32, fields: &Chain<FieldDef>, at: u32, is_core: bool)
    ensures
        check_field_defaults(cx, st, class, fields, at, is_core).1 matches Ok(found) ==> found@.len() == fields@.len()
            && (forall|i: int| 0 <= i < fields@.len() && (#[trigger] fields@[i]).default is None ==> found@[i] == no_default()),
    decreases fields,
{
    match fields {
        Chain::Nil => {},
        Chain::Cons(head, tail) => {
            let (next, _) = check_default(cx, st, class, at, &head.default, is_core);
            law_check_field_defaults(cx, next, class, tail, at.wrapping_add(1), is_core);
            assert(fields@ =~= seq![**head] + tail@);
        },
    }
}

/// An arm of an enum has one default entry for each field.
pub proof fn law_arm_defaults(fields: &Chain<ArmField>)
    ensures
        arm_defaults(fields)@.len() == fields@.len(),
    decreases fields,
{
    match fields {
        Chain::Nil => {},
        Chain::Cons(_, tail) => law_arm_defaults(tail),
    }
}

/// A class of another module has one default entry for each field of its
/// own.
pub proof fn law_absent_defaults(names: &Chain<Text>, inherited: u32)
    ensures
        absent_defaults(names, inherited)@.len() == (if inherited <= names@.len() {
            names@.len() - inherited
        } else {
            0
        }),
    decreases names,
{
    match names {
        Chain::Nil => {},
        Chain::Cons(_, tail) => {
            law_absent_defaults(tail, if inherited == 0 { 0 } else { (inherited - 1) as u32 });
        },
    }
}

/// Whether each class up to one has the fields of its parent and one more
/// for each own default entry.
pub open spec fn laid_out(cx: &Ctx, table: Chain<Chain<FieldDefault>>, last: u32) -> bool {
    forall|class: u32| class <= last ==> (#[trigger] class_at(cx, class)).field_names@.len() == own_defaults(&table, class)@.len() + (
    match class_at(cx, class).parent {
        Some(parent) => if parent < class {
            class_at(cx, parent).field_names@.len()
        } else {
            0
        },
        None => 0,
    })
}

/// A checked class has one default for each of its fields, the inherited
/// ones first.
pub proof fn law_class_defaults(cx: &Ctx, info: &ClassInfo, origins: &Chain<ClassOrigin>, table: &Chain<Chain<FieldDefault>>, class: u32, path: &Text)
    requires
        laid_out(cx, *table, class),
        *info == *class_at(cx, class),
    ensures
        hir_class(cx, info, origins, table, class, path).defaults@.len()
            == hir_class(cx, info, origins, table, class, path).field_names@.len(),
{
    lemma_inherited_defaults(cx, table, class);
}

proof fn lemma_inherited_defaults(cx: &Ctx, table: &Chain<Chain<FieldDefault>>, class: u32)
    requires
        laid_out(cx, *table, class),
    ensures
        inherited_defaults(cx, table, class)@.len() == class_at(cx, class).field_names@.len(),
    decreases class,
{
    let own = own_defaults(table, class);
    match class_at(cx, class).parent {
        Some(parent) => {
            if parent < class {
                lemma_inherited_defaults(cx, table, parent);
                law_concat(inherited_defaults(cx, table, parent), own);
            }
        },
        None => {},
    }
}

} // verus!
