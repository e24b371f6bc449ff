//! Conformances of a class, and the names and premises that they use.

use vstd::prelude::*;
use crate::ast::{AssociatedType, Span};
use crate::chain::Chain;
use crate::context::{AssocValue, AssociatedInfo, ConformanceInfo, ConformancePremise, Ctx, Decl, InterfaceMethodSig, InterfaceUse, TyEnv};
use crate::laws::inference::{shows, shows_in};
use crate::laws::lists::{law_append, law_concat, law_holds_id, law_holds_name, law_nth, law_position, law_same_len};
use crate::laws::lookups::law_associated_position;
use crate::model::conform::{find_conformance, project};
use crate::model::fulfil::{any_uses_self, check_iterable_item, core_associated, same_own_bounds};
use crate::model::infer::{collect_vars, vars_in_all};
use crate::model::interfaces::{check_inherited_names, first_associated_in, names_of_associated};
use crate::model::lists::{append, concat, cons, nth};
use crate::model::lookup::{associated_position, core_interface, interface_at};
use crate::model::members::{check_bindings_used, conform_to_each, conformance_is_new, declares_associated, resolve_bound_types, without_conformance};
use crate::model::premises::{holds_uses, insert_premise, premise_param, premises_imply};
use crate::model::subst::{substitute_uses, type_uses_interface_self, type_uses_interface_self_in};
use crate::problem::Stop;
use crate::text::Text;
use crate::types::{Row, Ty};

verus! {

/// Whether each interface has one conformance at most.
pub open spec fn one_per_interface(items: Seq<ConformanceInfo>) -> bool {
    forall|i: int, j: int| 0 <= i < j < items.len() ==> (#[trigger] items[i]).application.interface != (#[trigger] items[j]).application.interface
}

/// Whether a conformance of a list is to this application.
pub open spec fn conforms_to(items: Seq<ConformanceInfo>, application: InterfaceUse) -> bool {
    exists|i: int| 0 <= i < items.len() && (#[trigger] items[i]).application == application
}

/// Whether no conformance of a list is to this interface.
pub open spec fn nowhere_to(items: Seq<ConformanceInfo>, interface: u32) -> bool {
    forall|i: int| 0 <= i < items.len() ==> (#[trigger] items[i]).application.interface != interface
}

proof fn lemma_find(items: &Chain<ConformanceInfo>, interface: u32)
    ensures
        find_conformance(items, interface) is None <==> nowhere_to(items@, interface),
        find_conformance(items, interface) matches Some(found) ==> found.application.interface == interface && conforms_to(items@, found.application),
    decreases items,
{
    if let Chain::Cons(head, tail) = items {
        lemma_find(tail, interface);
        assert(items@[0] == **head);
        if head.application.interface != interface {
            if let Some(found) = find_conformance(tail, interface) {
                let i = choose|i: int| 0 <= i < tail@.len() && (#[trigger] tail@[i]).application == found.application;
                assert(items@[i + 1].application == found.application);
            } else {
                assert forall|i: int| 0 <= i < items@.len() implies (#[trigger] items@[i]).application.interface != interface by {
                    if i > 0 {
                        assert(items@[i] == tail@[i - 1]);
                    }
                }
            }
        }
    }
}

/// A list without the conformance to an interface has lost that one alone.
pub proof fn law_without_conformance(items: Chain<ConformanceInfo>, interface: u32)
    ensures
        nowhere_to(items@, interface) ==> without_conformance(items, interface)@ == items@,
        !nowhere_to(items@, interface) ==> exists|k: int|
            0 <= k < items@.len() && (#[trigger] items@[k]).application.interface == interface && without_conformance(items, interface)@ == items@.remove(k),
    decreases items,
{
    if let Chain::Cons(head, tail) = items {
        law_without_conformance(*tail, interface);
        assert(items@[0] == *head);
        let rest = without_conformance(items, interface)@;
        if head.application.interface == interface {
            assert(rest =~= items@.remove(0));
        } else if nowhere_to(tail@, interface) {
            assert(rest =~= items@);
        } else {
            let k = choose|k: int|
                0 <= k < tail@.len() && (#[trigger] tail@[k]).application.interface == interface && without_conformance(*tail, interface)@ == tail@.remove(k);
            assert(items@[k + 1] == tail@[k]);
            assert(rest =~= items@.remove(k + 1));
        }
    }
}

/// A conformance that is already there is added again only where it asks
/// for less; one to another application of the interface is refused.
pub proof fn law_conformance_is_new(items: &Chain<ConformanceInfo>, application: &InterfaceUse, premises: &Chain<ConformancePremise>, span: Span)
    ensures
        nowhere_to(items@, application.interface) ==> conformance_is_new(items, application, premises, span) == Ok::<bool, Stop>(true),
        conformance_is_new(items, application, premises, span) is Ok && !nowhere_to(items@, application.interface) ==> conforms_to(items@, *application),
        conformance_is_new(items, application, premises, span) == Ok::<bool, Stop>(false) ==> (find_conformance(items, application.interface) matches Some(existing) && premises_imply(
            premises,
            &existing.premises,
        )),
        conformance_is_new(items, application, premises, span) == Ok::<bool, Stop>(true) ==> (find_conformance(items, application.interface) matches Some(existing) ==> premises_imply(
            &existing.premises,
            premises,
        ) && !premises_imply(premises, &existing.premises)),
{
    lemma_find(items, application.interface);
}

/// A class conforms to each application that it names, and once to each
/// interface.
pub proof fn law_conform_to_each(
    cx: &Ctx,
    env: &TyEnv,
    st: Decl,
    applications: Chain<InterfaceUse>,
    premises: &Chain<ConformancePremise>,
    bindings: &Chain<AssociatedType>,
    class: u32,
    span: Span,
    items: Chain<ConformanceInfo>,
)
    requires
        one_per_interface(items@),
        conform_to_each(cx, env, st, applications, premises, bindings, class, span, items).1 is Ok,
    ensures
        ({
            let found = conform_to_each(cx, env, st, applications, premises, bindings, class, span, items).1->Ok_0@;
            &&& one_per_interface(found)
            &&& forall|i: int| 0 <= i < applications@.len() ==> conforms_to(found, #[trigger] applications@[i])
            &&& forall|other: InterfaceUse| conforms_to(items@, other) ==> #[trigger] conforms_to(found, other)
        }),
    decreases applications,
{
    if let Chain::Cons(head, tail) = applications {
        assert(applications@[0] == *head);
        law_conformance_is_new(&items, &*head, premises, span);
        let fresh = conformance_is_new(&items, &*head, premises, span)->Ok_0;
        let found = conform_to_each(cx, env, st, applications, premises, bindings, class, span, items).1->Ok_0@;
        lemma_find(&items, head.interface);
        if !fresh {
            law_conform_to_each(cx, env, st, *tail, premises, bindings, class, span, items);
            assert(conforms_to(items@, *head));
            assert(conforms_to(found, *head));
        } else {
            let (after, values) = resolve_bound_types(cx, env, st, &interface_at(cx, head.interface).associated, bindings, span);
            let next = Decl { values: cons(AssocValue { class: class, interface: head.interface, values: values->Ok_0 }, after.values), ..after };
            let kept = without_conformance(items, head.interface);
            let info = ConformanceInfo { application: *head, premises: *premises, associated: values->Ok_0, method_overrides: Chain::Nil };
            let more = append(kept, info);
            lemma_replaced(items, info);
            law_conform_to_each(cx, env, next, *tail, premises, bindings, class, span, more);
            assert(conforms_to(more@, *head));
            assert(conforms_to(found, *head));
            assert forall|other: InterfaceUse| conforms_to(items@, other) implies #[trigger] conforms_to(found, other) by {
                assert(conforms_to(more@, other));
            }
        }
        assert forall|i: int| 0 <= i < applications@.len() implies conforms_to(found, #[trigger] applications@[i]) by {
            if i > 0 {
                assert(applications@[i] == tail@[i - 1]);
            }
        }
    }
}

proof fn lemma_replaced(items: Chain<ConformanceInfo>, info: ConformanceInfo)
    requires
        one_per_interface(items@),
        !nowhere_to(items@, info.application.interface) ==> conforms_to(items@, info.application),
    ensures
        ({
            let more = append(without_conformance(items, info.application.interface), info)@;
            &&& one_per_interface(more)
            &&& conforms_to(more, info.application)
            &&& forall|other: InterfaceUse| conforms_to(items@, other) ==> #[trigger] conforms_to(more, other)
        }),
{
    let interface = info.application.interface;
    let kept = without_conformance(items, interface);
    law_without_conformance(items, interface);
    law_append(kept, info);
    let more = append(kept, info)@;
    assert(more.last().application == info.application);
    if nowhere_to(items@, interface) {
        assert forall|other: InterfaceUse| conforms_to(items@, other) implies #[trigger] conforms_to(more, other) by {
            let i = choose|i: int| 0 <= i < items@.len() && (#[trigger] items@[i]).application == other;
            assert(more[i] == items@[i]);
        }
    } else {
        let k = choose|k: int| 0 <= k < items@.len() && (#[trigger] items@[k]).application.interface == interface && kept@ == items@.remove(k);
        let own = choose|i: int| 0 <= i < items@.len() && (#[trigger] items@[i]).application == info.application;
        assert(own == k);
        assert forall|i: int, j: int| 0 <= i < j < more.len() implies (#[trigger] more[i]).application.interface != (#[trigger] more[j]).application.interface by {
            let from_i = if i < k { i } else { i + 1 };
            let from_j = if j < k { j } else { j + 1 };
            assert(more[i] == items@[from_i]);
            if j < kept@.len() {
                assert(more[j] == items@[from_j]);
            } else {
                assert(from_i != k);
                assert(items@[k].application.interface == interface);
            }
        }
        assert forall|other: InterfaceUse| conforms_to(items@, other) implies #[trigger] conforms_to(more, other) by {
            let i = choose|i: int| 0 <= i < items@.len() && (#[trigger] items@[i]).application == other;
            if i < k {
                assert(more[i] == items@[i]);
            } else if i > k {
                assert(more[i - 1] == items@[i]);
            }
        }
    }
}

/// Whether an interface declares an associated type of this name.
pub open spec fn declares_name(cx: &Ctx, interface: u32, name: Text) -> bool {
    exists|k: int| 0 <= k < interface_at(cx, interface).associated@.len() && (#[trigger] interface_at(cx, interface).associated@[k]).name == name
}

/// Every binding of a class belongs to an interface that it conforms to.
pub proof fn law_bindings_used(cx: &Ctx, bindings: &Chain<AssociatedType>, items: &Chain<ConformanceInfo>)
    requires
        check_bindings_used(cx, bindings, items) is Ok,
        forall|interface: u32| (#[trigger] interface_at(cx, interface)).associated@.len() <= u32::MAX,
    ensures
        forall|i: int| 0 <= i < bindings@.len() ==> has_associated(cx, items@, (#[trigger] bindings@[i]).name),
    decreases bindings,
{
    if let Chain::Cons(head, tail) = bindings {
        lemma_declares(cx, items, &head.name);
        law_bindings_used(cx, tail, items);
        assert forall|i: int| 0 <= i < bindings@.len() implies has_associated(cx, items@, (#[trigger] bindings@[i]).name) by {
            if i > 0 {
                assert(bindings@[i] == tail@[i - 1]);
            }
        }
    }
}

/// Whether an interface of a list of conformances declares a name.
pub open spec fn has_associated(cx: &Ctx, items: Seq<ConformanceInfo>, name: Text) -> bool {
    exists|i: int| 0 <= i < items.len() && declares_name(cx, (#[trigger] items[i]).application.interface, name)
}

proof fn lemma_declares(cx: &Ctx, items: &Chain<ConformanceInfo>, name: &Text)
    requires
        declares_associated(cx, items, name),
        forall|interface: u32| (#[trigger] interface_at(cx, interface)).associated@.len() <= u32::MAX,
    ensures
        has_associated(cx, items@, *name),
    decreases items,
{
    if let Chain::Cons(head, tail) = items {
        let interface = head.application.interface;
        let own = &interface_at(cx, interface).associated;
        law_associated_position(own, name);
        assert(items@[0] == **head);
        if let Some(at) = associated_position(own, name) {
            assert(interface_at(cx, interface).associated@[at as int].name == *name);
            assert(declares_name(cx, interface, *name));
        } else {
            lemma_declares(cx, tail, name);
            let i = choose|i: int| 0 <= i < tail@.len() && declares_name(cx, (#[trigger] tail@[i]).application.interface, *name);
            assert(items@[i + 1] == tail@[i]);
        }
    }
}

proof fn lemma_names(items: &Chain<AssociatedInfo>)
    ensures
        names_of_associated(items)@.len() == items@.len(),
        forall|k: int| 0 <= k < items@.len() ==> names_of_associated(items)@[k] == (#[trigger] items@[k]).name,
    decreases items,
{
    if let Chain::Cons(head, tail) = items {
        lemma_names(tail);
        assert forall|k: int| 0 <= k < items@.len() implies names_of_associated(items)@[k] == (#[trigger] items@[k]).name by {
            if k > 0 {
                assert(items@[k] == tail@[k - 1]);
                assert(names_of_associated(items)@[k] == names_of_associated(tail)@[k - 1]);
            }
        }
    }
}

proof fn lemma_none_in(items: &Chain<AssociatedInfo>, names: &Chain<Text>)
    requires
        first_associated_in(items, names) is None,
    ensures
        forall|k: int| 0 <= k < items@.len() ==> !names@.contains((#[trigger] items@[k]).name),
    decreases items,
{
    if let Chain::Cons(head, tail) = items {
        law_holds_name(names, &head.name);
        lemma_none_in(tail, names);
        assert forall|k: int| 0 <= k < items@.len() implies !names@.contains((#[trigger] items@[k]).name) by {
            if k > 0 {
                assert(items@[k] == tail@[k - 1]);
            }
        }
    }
}

/// Two interfaces among an interface and its ancestors declare no
/// associated type of the same name.
pub proof fn law_inherited_names(cx: &Ctx, closure: &Chain<InterfaceUse>, seen: Chain<Text>, span: Span)
    requires
        check_inherited_names(cx, closure, seen, span) is Ok,
    ensures
        forall|i: int, name: Text| 0 <= i < closure@.len() && #[trigger] declares_name(cx, closure@[i].interface, name) ==> !seen@.contains(name),
        forall|i: int, j: int, name: Text|
            0 <= i < j < closure@.len() && #[trigger] declares_name(cx, closure@[i].interface, name) ==> !#[trigger] declares_name(cx, closure@[j].interface, name),
    decreases closure,
{
    if let Chain::Cons(head, tail) = closure {
        let items = &interface_at(cx, head.interface).associated;
        let more = concat(seen, names_of_associated(items));
        lemma_none_in(items, &seen);
        lemma_names(items);
        law_concat(seen, names_of_associated(items));
        law_inherited_names(cx, tail, more, span);
        assert(closure@[0] == **head);
        assert forall|name: Text| declares_name(cx, head.interface, name) implies !seen@.contains(name) && #[trigger] more@.contains(name) by {
            let k = choose|k: int| 0 <= k < items@.len() && (#[trigger] items@[k]).name == name;
            assert(more@[seen@.len() + k] == name);
        }
        assert forall|name: Text| seen@.contains(name) implies #[trigger] more@.contains(name) by {
            let k = seen@.index_of(name);
            assert(more@[k] == name);
        }
        assert forall|i: int, name: Text| 0 <= i < closure@.len() && #[trigger] declares_name(cx, closure@[i].interface, name) implies !seen@.contains(name) by {
            if i > 0 {
                assert(closure@[i] == tail@[i - 1]);
                assert(declares_name(cx, tail@[i - 1].interface, name));
                if seen@.contains(name) {
                    assert(more@.contains(name));
                }
            }
        }
        assert forall|i: int, j: int, name: Text|
            0 <= i < j < closure@.len() && #[trigger] declares_name(cx, closure@[i].interface, name) implies !#[trigger] declares_name(cx, closure@[j].interface, name) by {
            assert(closure@[j] == tail@[j - 1]);
            if declares_name(cx, closure@[j].interface, name) {
                assert(declares_name(cx, tail@[j - 1].interface, name));
                if i > 0 {
                    assert(closure@[i] == tail@[i - 1]);
                    assert(declares_name(cx, tail@[i - 1].interface, name));
                } else {
                    assert(more@.contains(name));
                }
            }
        }
    }
}

/// Whether premises stand in the order of their parameters.
pub open spec fn in_order(premises: Seq<ConformancePremise>) -> bool {
    forall|i: int, j: int| 0 <= i < j < premises.len() ==> (#[trigger] premises[i]).param <= (#[trigger] premises[j]).param
}

/// A premise is put among the others, in the order of the parameters.
pub proof fn law_insert_premise(premises: Chain<ConformancePremise>, premise: ConformancePremise)
    ensures
        in_order(premises@) ==> in_order(insert_premise(premises, premise)@),
        exists|k: int| 0 <= k <= premises@.len() && insert_premise(premises, premise)@ == #[trigger] premises@.insert(k, premise),
    decreases premises,
{
    let found = insert_premise(premises, premise)@;
    reveal_with_fuel(Chain::items, 3);
    if let Chain::Cons(head, tail) = premises {
        assert(premises@[0] == *head);
        if premise.param < head.param {
            assert(found =~= premises@.insert(0, premise));
            assert forall|i: int, j: int| in_order(premises@) && 0 <= i < j < found.len() implies (#[trigger] found[i]).param <= (#[trigger] found[j]).param by {
                if i > 0 {
                    assert(found[i] == premises@[i - 1]);
                }
                assert(found[j] == premises@[j - 1]);
            }
        } else {
            law_insert_premise(*tail, premise);
            let rest = insert_premise(*tail, premise)@;
            let k = choose|k: int| 0 <= k <= tail@.len() && rest == #[trigger] tail@.insert(k, premise);
            assert(found =~= premises@.insert(k + 1, premise));
            if in_order(premises@) {
                assert forall|i: int, j: int| 0 <= i < j < tail@.len() implies (#[trigger] tail@[i]).param <= (#[trigger] tail@[j]).param by {
                    assert(premises@[i + 1] == tail@[i]);
                    assert(premises@[j + 1] == tail@[j]);
                }
                assert forall|i: int, j: int| 0 <= i < j < found.len() implies (#[trigger] found[i]).param <= (#[trigger] found[j]).param by {
                    assert(found[j] == rest[j - 1]);
                    if i > 0 {
                        assert(found[i] == rest[i - 1]);
                    } else if j - 1 < k {
                        assert(rest[j - 1] == tail@[j - 1]);
                        assert(premises@[j] == tail@[j - 1]);
                    } else if j - 1 > k {
                        assert(rest[j - 1] == tail@[j - 2]);
                        assert(premises@[j - 1] == tail@[j - 2]);
                    }
                }
            }
        }
    } else {
        assert(found =~= premises@.insert(0, premise));
    }
}

/// A premise is on a parameter of the name that it is written with.
pub proof fn law_premise_param(names: &Chain<Text>, name: &Text, next: u32)
    requires
        names@.len() <= u32::MAX,
    ensures
        premise_param(names, name, next) matches Some(param) ==> param < names@.len() && names@[param as int] == *name,
        premise_param(names, name, next) is None ==> !names@.contains(*name),
{
    law_position(names, name);
    law_nth(names, next);
}

/// The item of an iterable is the item that its iterator gives.
pub proof fn law_iterable_item(cx: &Ctx, conformance: &ConformanceInfo, span: Span)
    requires
        check_iterable_item(cx, conformance, span) is Ok,
        core_interface(cx, "Iterable", span) == Ok::<u32, Stop>(conformance.application.interface),
    ensures
        core_interface(cx, "Iterator", span) matches Ok(iterator) && (core_associated(cx, iterator, "Item", span) matches Ok(next_item) && (core_associated(
            cx,
            conformance.application.interface,
            "Item",
            span,
        ) matches Ok(item_at) && (core_associated(cx, conformance.application.interface, "Iter", span) matches Ok(iter_at) && nth(&conformance.associated, iter_at) is Some && nth(
            &conformance.associated,
            item_at,
        ) == Some(&project(cx, *nth(&conformance.associated, iter_at)->Some_0, iterator, next_item))))),
{
}

/// A method depends on `Self` where a parameter or its result does.
pub proof fn law_any_uses_self(methods: &Chain<InterfaceMethodSig>)
    ensures
        any_uses_self(methods) <==> exists|i: int| 0 <= i < methods@.len() && uses_self(#[trigger] methods@[i]),
    decreases methods,
{
    if let Chain::Cons(head, tail) = methods {
        law_any_uses_self(tail);
        assert(methods@[0] == **head);
        if any_uses_self(tail) {
            let i = choose|i: int| 0 <= i < tail@.len() && uses_self(#[trigger] tail@[i]);
            assert(methods@[i + 1] == tail@[i]);
        }
        if exists|i: int| 0 <= i < methods@.len() && uses_self(#[trigger] methods@[i]) {
            let i = choose|i: int| 0 <= i < methods@.len() && uses_self(#[trigger] methods@[i]);
            if i > 0 {
                assert(methods@[i] == tail@[i - 1]);
            }
        }
    }
}

/// Whether the signature of a requirement names `Self`.
pub open spec fn uses_self(method: InterfaceMethodSig) -> bool {
    type_uses_interface_self_in(&method.params) || type_uses_interface_self(&method.ret)
}

/// The own bounds of a method are those of the requirement: as many, and
/// each one held.
pub proof fn law_same_own_bounds(actual: &Chain<Chain<InterfaceUse>>, required: &Chain<Chain<InterfaceUse>>, types: &Chain<Ty>, rows: &Chain<Row>)
    requires
        same_own_bounds(actual, required, types, rows),
    ensures
        actual@.len() == required@.len(),
        forall|i: int| 0 <= i < actual@.len() ==> (#[trigger] actual@[i])@.len() == required@[i]@.len() && holds_uses(&actual@[i], &substitute_uses(&required@[i], types, rows)),
    decreases actual,
{
    if let Chain::Cons(head, rest) = actual {
        if let Chain::Cons(wanted, more) = required {
            law_same_len(&**head, &**wanted);
            law_same_own_bounds(rest, more, types, rows);
            assert forall|i: int| 0 <= i < actual@.len() implies (#[trigger] actual@[i])@.len() == required@[i]@.len() && holds_uses(
                &actual@[i],
                &substitute_uses(&required@[i], types, rows),
            ) by {
                if i > 0 {
                    assert(actual@[i] == rest@[i - 1]);
                    assert(required@[i] == more@[i - 1]);
                }
            }
        }
    }
}

/// The variables of a type are those that it shows, each one once.
pub proof fn law_collect_vars(ty: &Ty, found: Chain<u32>)
    ensures
        forall|index: u32| #[trigger] collect_vars(ty, found)@.contains(index) <==> found@.contains(index) || shows(*ty, index),
        found@.no_duplicates() ==> collect_vars(ty, found)@.no_duplicates(),
    decreases ty, 0int,
{
    match ty {
        Ty::Var(index) => {
            law_holds_id(&found, *index);
            law_append(found, *index);
            if !found@.contains(*index) {
                let more = append(found, *index)@;
                assert(more[found@.len() as int] == *index);
                assert forall|other: u32| found@.contains(other) implies #[trigger] more.contains(other) by {
                    assert(more[found@.index_of(other)] == other);
                }
            }
        },
        Ty::Inst(_, args) => law_vars_in_all(args, found),
        Ty::ListOf(item) => law_collect_vars(&**item, found),
        Ty::MapOf(key, value) => {
            law_collect_vars(&**key, found);
            law_collect_vars(&**value, collect_vars(&**key, found));
        },
        Ty::Tuple(items) => law_vars_in_all(items, found),
        Ty::Fn(params, _, ret, _) => {
            law_vars_in_all(params, found);
            law_collect_vars(&**ret, vars_in_all(params, found));
        },
        Ty::Callback(params, _, ret, _) => {
            law_vars_in_all(params, found);
            law_collect_vars(&**ret, vars_in_all(params, found));
        },
        _ => {},
    }
}

/// The variables of types are those that one of them shows.
pub proof fn law_vars_in_all(items: &Chain<Ty>, found: Chain<u32>)
    ensures
        forall|index: u32| #[trigger] vars_in_all(items, found)@.contains(index) <==> found@.contains(index) || shows_in(*items, index),
        found@.no_duplicates() ==> vars_in_all(items, found)@.no_duplicates(),
    decreases items, 1int,
{
    if let Chain::Cons(head, tail) = items {
        law_collect_vars(&**head, found);
        law_vars_in_all(tail, collect_vars(&**head, found));
    }
}

} // verus!
