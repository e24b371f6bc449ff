//! Declarations: class order, interface bounds, `use` lines and generic
//! parameters.

use vstd::prelude::*;
use crate::ast::{ClassDef, GenericParam, ParentClause, Span, UseDecl};
use crate::chain::Chain;
use crate::context::{ClassMeta, Ctx, Decl, ImportEnv, InterfaceUse, TyEnv, UseEntry, Uses};
use crate::laws::lists::{law_append, law_nth, law_set_nth};
use crate::model::classes::{link_class_parent, link_class_parents, with_parent};
use crate::model::conform::{find_bound, type_conforms, variable_bounds};
use crate::model::fulfil::declared_class;
use crate::model::keeps::{extends, group_kept};
use crate::model::lists::{append, cons, nth};
use crate::model::lookup::meta_at;
use crate::model::resolve::{expand_each, expand_interface_application, expand_interface_bounds, expand_parents, split_generics};
use crate::model::subst::substitute_interface_use;
use crate::model::uses::{find_use, resolve_uses};
use crate::problem::Stop;
use crate::text::Text;
use crate::types::{Row, Ty};

verus! {

/// Whether every class stands behind its parent in the class table.
pub open spec fn parents_first(metas: Seq<ClassMeta>) -> bool {
    forall|i: int| 0 <= i < metas.len() ==> ((#[trigger] metas[i]).parent matches Some(parent) ==> parent < i)
}

proof fn lemma_with_parent(cx: Ctx, class: u32, parent: u32, args: Chain<Ty>)
    requires
        parents_first(cx.metas@),
        parent < class,
    ensures
        parents_first(with_parent(cx, class, parent, args).metas@),
{
    let meta = ClassMeta { parent: Some(parent), parent_args: args, ..*meta_at(&cx, class) };
    law_set_nth(cx.metas, class, meta);
}

/// Linking one class to its parent keeps the class order.
pub proof fn law_link_class_parent(cx: Ctx, st: Decl, declaration: &ClassDef, clause: &ParentClause, is_core: bool)
    requires
        parents_first(cx.metas@),
    ensures
        link_class_parent(cx, st, declaration, clause, is_core).1 matches Ok(next) ==> parents_first(next.metas@),
{
    let class = declared_class(&cx, &declaration.name, is_core);
    match link_class_parent(cx, st, declaration, clause, is_core).1 {
        Ok(next) => {
            let env = TyEnv { core_scope: is_core, ..crate::model::conform::empty_env() };
            let parent = crate::model::lookup::lookup_type(&cx, &clause.name, &env)->0;
            let args = if clause.args is Nil && crate::model::classes::is_core_class(&cx, parent, "Proc") {
                crate::model::lists::one(Ty::Never)
            } else {
                crate::model::resolve::resolve_types(&cx, &env, st, &clause.args).1->Ok_0
            };
            lemma_with_parent(cx, class, parent, args);
        },
        Err(_) => {},
    }
}

/// Linking the classes of a module keeps every class behind its parent.
pub proof fn law_link_class_parents(cx: Ctx, st: Decl, classes: &Chain<ClassDef>, is_core: bool)
    requires
        parents_first(cx.metas@),
    ensures
        link_class_parents(cx, st, classes, is_core).1 matches Ok(next) ==> parents_first(next.metas@),
    decreases classes,
{
    match classes {
        Chain::Nil => {},
        Chain::Cons(head, tail) => match &head.parent {
            None => law_link_class_parents(cx, st, tail, is_core),
            Some(clause) => {
                law_link_class_parent(cx, st, head, clause, is_core);
                let (rest, linked) = link_class_parent(cx, st, head, clause, is_core);
                match linked {
                    Ok(next) => law_link_class_parents(next, rest, tail, is_core),
                    Err(_) => {},
                }
            },
        },
    }
}

/// Whether a bound list applies each interface once at most.
pub open spec fn one_application(bounds: Chain<InterfaceUse>) -> bool {
    forall|i: int, j: int| 0 <= i < j < bounds@.len() ==> (#[trigger] bounds@[i]).interface != (#[trigger] bounds@[j]).interface
}

proof fn lemma_find_bound(bounds: Chain<InterfaceUse>, interface: u32)
    ensures
        find_bound(&bounds, interface) is None ==> (forall|i: int| 0 <= i < bounds@.len() ==> bounds@[i].interface != interface),
        find_bound(&bounds, interface) matches Some(found) ==> found.interface == interface && bounds@.contains(*found),
    decreases bounds,
{
    match bounds {
        Chain::Nil => {},
        Chain::Cons(head, tail) => {
            lemma_find_bound(*tail, interface);
            assert(bounds@[0] == *head);
            assert(forall|i: int| 0 < i < bounds@.len() ==> #[trigger] bounds@[i] == tail@[i - 1]);
            if head.interface != interface {
                if let Some(found) = find_bound(&*tail, interface) {
                    let i = tail@.index_of(*found);
                    assert(bounds@[i + 1] == *found);
                }
            }
        },
    }
}

proof fn lemma_one_application_append(bounds: Chain<InterfaceUse>, item: InterfaceUse)
    requires
        one_application(bounds),
        find_bound(&bounds, item.interface) is None,
    ensures
        one_application(append(bounds, item)),
{
    lemma_find_bound(bounds, item.interface);
    law_append(bounds, item);
}

/// Adding an interface with its parents keeps the bounds before it, applies
/// no interface twice, and holds the added application.
pub proof fn law_expand_application(
    cx: &Ctx,
    base: &Ty,
    application: InterfaceUse,
    span: Span,
    visiting: &Chain<u32>,
    depth: u32,
    bounds: Chain<InterfaceUse>,
)
    requires
        one_application(bounds),
    ensures
        expand_interface_application(cx, base, application, span, visiting, depth, bounds) matches Ok(all) ==> {
            &&& one_application(all)
            &&& extends(bounds, all)
            &&& all@.contains(application)
        },
    decreases 128 - depth, 0int, Chain::<u32>::Nil,
{
    broadcast use group_kept;

    if depth < 128 && !crate::model::lists::holds_id(visiting, application.interface) {
        match find_bound(&bounds, application.interface) {
            Some(_) => lemma_find_bound(bounds, application.interface),
            None => {
                lemma_one_application_append(bounds, application);
                law_append(bounds, application);
                let longer = append(bounds, application);
                assert(longer@[bounds@.len() as int] == application);
                let parents = &crate::model::lookup::interface_at(cx, application.interface).parents;
                if !(parents is Nil) {
                    let types = cons(*base, application.type_args);
                    let below = cons(application.interface, *visiting);
                    law_expand_parents(cx, base, parents, &types, &application.row_args, span, &below, (depth + 1) as u32, longer);
                    if let Ok(all) = expand_parents(cx, base, parents, &types, &application.row_args, span, &below, (depth + 1) as u32, longer) {
                        lemma_extends_contains(longer, all, bounds@.len() as int);
                    }
                }
            },
        }
    }
}

proof fn lemma_extends_contains(a: Chain<InterfaceUse>, b: Chain<InterfaceUse>, at: int)
    requires
        extends(a, b),
        0 <= at < a@.len(),
    ensures
        b@.len() >= a@.len(),
        b@[at] == a@[at],
        b@.contains(a@[at]),
    decreases a,
{
    match (a, b) {
        (Chain::Cons(x, xs), Chain::Cons(_, ys)) => {
            if at > 0 {
                lemma_extends_contains(*xs, *ys, at - 1);
                assert(a@[at] == xs@[at - 1]);
                assert(b@[at] == ys@[at - 1]);
            } else {
                assert(b@[0] == *x);
                if xs@.len() > 0 {
                    lemma_extends_contains(*xs, *ys, 0);
                }
            }
        },
        _ => {},
    }
}

/// Adding parent interfaces keeps the bounds before them and applies no
/// interface twice.
pub proof fn law_expand_parents(
    cx: &Ctx,
    base: &Ty,
    parents: &Chain<InterfaceUse>,
    types: &Chain<Ty>,
    rows: &Chain<Row>,
    span: Span,
    visiting: &Chain<u32>,
    depth: u32,
    bounds: Chain<InterfaceUse>,
)
    requires
        one_application(bounds),
    ensures
        expand_parents(cx, base, parents, types, rows, span, visiting, depth, bounds) matches Ok(all) ==> one_application(all) && extends(bounds, all),
    decreases 128 - depth, 1int, parents,
{
    broadcast use group_kept;

    match parents {
        Chain::Nil => {},
        Chain::Cons(head, tail) => {
            let parent = substitute_interface_use(head, types, rows);
            law_expand_application(cx, base, parent, span, visiting, depth, bounds);
            if let Ok(expanded) = expand_interface_application(cx, base, parent, span, visiting, depth, bounds) {
                law_expand_parents(cx, base, tail, types, rows, span, visiting, depth, expanded);
            }
        },
    }
}

proof fn lemma_expand_each(cx: &Ctx, base: &Ty, direct: Chain<InterfaceUse>, span: Span, bounds: Chain<InterfaceUse>)
    requires
        one_application(bounds),
    ensures
        expand_each(cx, base, direct, span, bounds) matches Ok(all) ==> {
            &&& one_application(all)
            &&& extends(bounds, all)
            &&& forall|i: int| 0 <= i < direct@.len() ==> all@.contains(#[trigger] direct@[i])
        },
    decreases direct,
{
    broadcast use group_kept;

    match direct {
        Chain::Nil => {},
        Chain::Cons(head, tail) => {
            law_expand_application(cx, base, *head, span, &Chain::Nil, 0, bounds);
            if let Ok(expanded) = expand_interface_application(cx, base, *head, span, &Chain::Nil, 0, bounds) {
                lemma_expand_each(cx, base, *tail, span, expanded);
                if let Ok(all) = expand_each(cx, base, *tail, span, expanded) {
                    let at = expanded@.index_of(*head);
                    lemma_extends_contains(expanded, all, at);
                    assert forall|i: int| 0 <= i < direct@.len() implies all@.contains(#[trigger] direct@[i]) by {
                        if i > 0 {
                            assert(direct@[i] == tail@[i - 1]);
                        } else {
                            assert(direct@[0] == *head);
                        }
                    }
                }
            }
        },
    }
}

/// Expanded bounds hold every direct bound, and no interface twice where
/// the direct bounds hold none twice.
pub proof fn law_expand_bounds(cx: &Ctx, base: &Ty, direct: Chain<InterfaceUse>, span: Span)
    requires
        one_application(direct),
    ensures
        expand_interface_bounds(cx, base, direct, span) matches Ok(all) ==> {
            &&& one_application(all)
            &&& forall|i: int| 0 <= i < direct@.len() ==> all@.contains(#[trigger] direct@[i])
        },
{
    lemma_expand_each(cx, base, direct, span, Chain::Nil);
}

/// A type parameter conforms to the bound that its scope gives for an
/// interface, where no premise speaks of it.
pub proof fn law_parameter_conforms(cx: &Ctx, env: &TyEnv, index: u32, bound: &InterfaceUse)
    requires
        index >= env.type_offset,
        env.extra_bounds is Nil,
        variable_bounds(env, index) is Some,
        find_bound(variable_bounds(env, index)->0, bound.interface) == Some(bound),
    ensures
        type_conforms(cx, env, &Ty::Var(index), bound),
{
    reveal_with_fuel(crate::model::conform::type_conforms_depth, 2);
    reveal_with_fuel(crate::model::conform::type_conformance_depth, 2);
    reveal_with_fuel(crate::model::conform::declared_conformance, 2);
}

/// Whether each name has one binding at most.
pub open spec fn one_binding(entries: Chain<UseEntry>) -> bool {
    forall|i: int, j: int| 0 <= i < j < entries@.len() ==> (#[trigger] entries@[i]).name != (#[trigger] entries@[j]).name
}

proof fn lemma_find_use(entries: Chain<UseEntry>, name: Text)
    ensures
        find_use(&entries, &name) is None ==> (forall|i: int| 0 <= i < entries@.len() ==> entries@[i].name != name),
    decreases entries,
{
    match entries {
        Chain::Nil => {},
        Chain::Cons(head, tail) => {
            lemma_find_use(*tail, name);
            assert(entries@[0] == *head);
            assert(forall|i: int| 0 < i < entries@.len() ==> #[trigger] entries@[i] == tail@[i - 1]);
        },
    }
}

/// The `use` lines of a module bind each name once.
pub proof fn law_resolve_uses(cx: &Ctx, st: Uses, env: &ImportEnv, uses: &Chain<UseDecl>)
    requires
        one_binding(st.entries),
    ensures
        one_binding(resolve_uses(cx, st, env, uses).0.entries),
        resolve_uses(cx, st, env, uses).1 is Ok ==> resolve_uses(cx, st, env, uses).0.entries@.len() == st.entries@.len() + uses@.len(),
    decreases uses,
{
    match uses {
        Chain::Nil => {},
        Chain::Cons(head, tail) => {
            lemma_resolve_use(cx, st, env, head);
            let (next, entry) = crate::model::uses::resolve_use(cx, st, env, head);
            if let Ok(found) = entry {
                if find_use(&next.entries, &found.name) is None {
                    lemma_find_use(next.entries, found.name);
                    law_append(next.entries, found);
                    law_resolve_uses(cx, Uses { entries: append(next.entries, found), ..next }, env, tail);
                }
            }
        },
    }
}

proof fn lemma_resolve_use(cx: &Ctx, st: Uses, env: &ImportEnv, decl: &UseDecl)
    ensures
        crate::model::uses::resolve_use(cx, st, env, decl).0.entries == st.entries,
{
    match &decl.path {
        Chain::Nil => {},
        Chain::Cons(root, rest) => lemma_resolve_module_use(cx, st, env, decl, root, rest),
    }
}

proof fn lemma_resolve_module_use(cx: &Ctx, st: Uses, env: &ImportEnv, decl: &UseDecl, root: &Text, rest: &Chain<Text>)
    ensures
        crate::model::uses::resolve_module_use(cx, st, env, decl, root, rest).0.entries == st.entries,
{
    match crate::model::uses::find_root(&env.roots, root) {
        None => {},
        Some(prefix) => {
            let full = crate::model::uses::join_path(*prefix, rest);
            let bound = crate::model::uses::last_segment(root, rest);
            if let Some(found) = crate::model::uses::find_module(&env.modules, &full) {
                lemma_bind_exports(cx, st, bound, &full, &found.exports, decl);
            }
        },
    }
}

proof fn lemma_bind_exports(cx: &Ctx, st: Uses, alias: &Text, module: &Text, exports: &Chain<crate::context::ImportExport>, decl: &UseDecl)
    ensures
        crate::model::uses::bind_exports(cx, st, alias, module, exports, decl).0.entries == st.entries,
    decreases exports,
{
    match exports {
        Chain::Nil => {},
        Chain::Cons(head, tail) => {
            let next = crate::model::uses::bind_export(cx, st, crate::model::names::dotted(alias, &head.name), module, head, decl).0;
            lemma_bind_exports(cx, next, alias, module, tail, decl);
        },
    }
}

/// Generic parameters split into type parameters and effect parameters;
/// each side keeps its order, and none is lost.
pub proof fn law_split_generics(generics: &Chain<GenericParam>)
    ensures
        split_generics(generics).types@.len() + split_generics(generics).effects@.len() == generics@.len(),
        forall|i: int| 0 <= i < generics@.len() ==> (if (#[trigger] generics@[i]).is_effect {
            split_generics(generics).effects@.contains(generics@[i].name)
        } else {
            split_generics(generics).types@.contains(generics@[i].name)
        }),
    decreases generics,
{
    match generics {
        Chain::Nil => {},
        Chain::Cons(head, tail) => {
            law_split_generics(tail);
            let rest = split_generics(tail);
            let all = split_generics(generics);
            assert(generics@[0] == **head);
            assert forall|i: int| 0 <= i < generics@.len() implies (if (#[trigger] generics@[i]).is_effect {
                all.effects@.contains(generics@[i].name)
            } else {
                all.types@.contains(generics@[i].name)
            }) by {
                if i > 0 {
                    assert(generics@[i] == tail@[i - 1]);
                    let name = generics@[i].name;
                    if generics@[i].is_effect {
                        let at = rest.effects@.index_of(name);
                        assert(all.effects@[if head.is_effect {
                            at + 1
                        } else {
                            at
                        }] == name);
                    } else {
                        let at = rest.types@.index_of(name);
                        assert(all.types@[if head.is_effect {
                            at
                        } else {
                            at + 1
                        }] == name);
                    }
                } else if head.is_effect {
                    assert(all.effects@[0] == head.name);
                } else {
                    assert(all.types@[0] == head.name);
                }
            }
        },
    }
}

} // verus!
