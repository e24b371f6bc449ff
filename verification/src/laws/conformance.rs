//! Conformance and methods: what answers for an interface and for a name.

use vstd::prelude::*;
use crate::ast::Span;
use crate::chain::Chain;
use crate::context::{BoundMethod, ConformanceFound, ConformanceInfo, ConformancePremise, Ctx, InterfaceMethodSig, InterfaceUse, MethodFound, MethodSig, TyEnv};
use crate::laws::lists::law_nth;
use crate::model::conform::{argument_meets, arguments_meet, associated_bounds, bound_method_in, bounds_hold, conformance_above, conformance_entry, conformance_from, conformance_use, declared_conformance, empty_env, find_bound, find_conformance, find_premise, instantiate_interface_method, lookup_method, premises_hold, substitute_method, type_conformance, type_conformance_depth, type_conforms, type_conforms_depth, variable_bounds};
use crate::model::lists::{concat, nth};
use crate::model::lookup::{class_at, find_method, interface_at, meta_at, nominal_class, own_method, parent_arguments};
use crate::model::modules::start;
use crate::model::subst::{substitute, substitute_all, substitute_interface_use, variables};
use crate::text::Text;
use crate::types::{Row, Ty};

verus! {

/// A type conforms to a required application exactly where the application
/// that it has for the interface is the required one.
pub proof fn law_type_conforms(cx: &Ctx, env: &TyEnv, ty: &Ty, required: &InterfaceUse)
    ensures
        type_conforms(cx, env, ty, required) <==> (type_conformance(cx, env, ty, required.interface) matches Some(found) && found.type_args == required.type_args && found.row_args
            == required.row_args),
        type_conforms(cx, env, ty, required) ==> type_conformance(cx, env, ty, required.interface) == Some(*required),
{
    reveal_with_fuel(type_conforms_depth, 2);
    law_conformance_interface(cx, env, ty, required.interface, 0u32);
}

/// The application that a type has for an interface is one of that
/// interface.
pub proof fn law_conformance_interface(cx: &Ctx, env: &TyEnv, ty: &Ty, interface: u32, depth: u32)
    ensures
        type_conformance_depth(cx, env, ty, interface, depth) matches Some(found) ==> found.interface == interface,
{
    lemma_declared(cx, env, ty, interface, depth);
    if let Some(premise) = find_premise(&env.extra_bounds, ty) {
        lemma_bound_found(&premise.bounds, interface);
    }
}

proof fn lemma_bound_found(bounds: &Chain<InterfaceUse>, interface: u32)
    ensures
        find_bound(bounds, interface) matches Some(found) ==> found.interface == interface && bounds@.contains(*found),
        find_bound(bounds, interface) is None ==> forall|i: int| 0 <= i < bounds@.len() ==> (#[trigger] bounds@[i]).interface != interface,
    decreases bounds,
{
    if let Chain::Cons(head, tail) = bounds {
        lemma_bound_found(tail, interface);
        assert(bounds@[0] == **head);
        if head.interface != interface {
            if let Some(found) = find_bound(tail, interface) {
                let i = tail@.index_of(*found);
                assert(bounds@[i + 1] == *found);
            } else {
                assert forall|i: int| 0 <= i < bounds@.len() implies (#[trigger] bounds@[i]).interface != interface by {
                    if i > 0 {
                        assert(bounds@[i] == tail@[i - 1]);
                    }
                }
            }
        }
    }
}

proof fn lemma_declared(cx: &Ctx, env: &TyEnv, ty: &Ty, interface: u32, depth: u32)
    ensures
        declared_conformance(cx, env, ty, interface, depth) matches Some(found) ==> found.interface == interface,
{
    lemma_conformance_use(cx, env, ty, interface, depth);
    match ty {
        Ty::Var(index) => {
            if let Some(bounds) = variable_bounds(env, *index) {
                lemma_bound_found(bounds, interface);
            }
        },
        Ty::Projection(_, owner, assoc) => {
            if let Some(bounds) = associated_bounds(cx, *owner, *assoc) {
                lemma_bound_found(bounds, interface);
            }
        },
        _ => {},
    }
}

proof fn lemma_conformance_use(cx: &Ctx, env: &TyEnv, ty: &Ty, interface: u32, depth: u32)
    ensures
        conformance_use(cx, env, ty, interface, depth) matches Some(found) ==> found.interface == interface,
{
    law_conformance_entry(cx, env, ty, interface, depth);
}

/// Whether a conformance is declared by a class, or by one before it, and
/// its premises hold of its type arguments.
pub open spec fn is_declared(cx: &Ctx, env: &TyEnv, class: u32, interface: u32, depth: u32, found: ConformanceFound) -> bool {
    &&& found.info.application.interface == interface
    &&& premises_hold(cx, env, &found.info.premises, &found.args, depth) == Some(true)
    &&& exists|owner: u32| owner <= class && declares(cx, owner, found.info)
}

/// Whether a class declares a conformance.
pub open spec fn declares(cx: &Ctx, class: u32, info: ConformanceInfo) -> bool {
    class_at(cx, class).conformances@.contains(info)
}

proof fn lemma_find_conformance(items: &Chain<ConformanceInfo>, interface: u32)
    ensures
        find_conformance(items, interface) matches Some(found) ==> found.application.interface == interface && items@.contains(*found),
    decreases items,
{
    if let Chain::Cons(head, tail) = items {
        lemma_find_conformance(tail, interface);
        assert(items@[0] == **head);
        if head.application.interface != interface {
            if let Some(found) = find_conformance(tail, interface) {
                let i = tail@.index_of(*found);
                assert(items@[i + 1] == *found);
            }
        }
    }
}

proof fn lemma_above(cx: &Ctx, env: &TyEnv, class: u32, args: &Chain<Ty>, interface: u32, depth: u32)
    ensures
        conformance_above(cx, env, class, args, interface, depth) matches Some(found) ==> is_declared(cx, env, class, interface, depth, found),
    decreases class, 0int,
{
    if let Some(parent) = meta_at(cx, class).parent {
        if parent < class {
            law_conformance_from(cx, env, parent, &parent_arguments(cx, class, args), interface, depth);
        }
    }
}

/// A conformance of a class is declared by the class or by an ancestor, and
/// its premises hold.
pub proof fn law_conformance_from(cx: &Ctx, env: &TyEnv, class: u32, args: &Chain<Ty>, interface: u32, depth: u32)
    ensures
        conformance_from(cx, env, class, args, interface, depth) matches Some(found) ==> is_declared(cx, env, class, interface, depth, found),
    decreases class, 1int,
{
    lemma_above(cx, env, class, args, interface, depth);
    if let Some(info) = nth(&cx.classes, class) {
        lemma_find_conformance(&info.conformances, interface);
        if let Some(conformance) = find_conformance(&info.conformances, interface) {
            assert(declares(cx, class, *conformance));
        }
    }
}

/// A conformance of a type is one that its class declares, with premises
/// that hold.
pub proof fn law_conformance_entry(cx: &Ctx, env: &TyEnv, ty: &Ty, interface: u32, depth: u32)
    ensures
        conformance_entry(cx, env, ty, interface, depth) matches Some(found) ==> (nominal_class(cx, ty) matches Some(start) && is_declared(cx, env, start.class, interface, depth, found)),
{
    if let Some(start) = nominal_class(cx, ty) {
        law_conformance_from(cx, env, start.class, &start.args, interface, depth);
    }
}

/// Whether a type argument meets one bound of a premise.
pub open spec fn bound_holds(cx: &Ctx, env: &TyEnv, actual: Ty, bound: InterfaceUse, args: Chain<Ty>, depth: u32) -> bool {
    type_conforms_depth(cx, env, &actual, &substitute_interface_use(&bound, &args, &Chain::Nil), (depth + 1) as u32)
}

/// Bounds hold exactly where each of them does.
pub proof fn law_bounds_hold(cx: &Ctx, env: &TyEnv, actual: &Ty, bounds: &Chain<InterfaceUse>, args: &Chain<Ty>, depth: u32)
    requires
        depth < 128,
    ensures
        bounds_hold(cx, env, actual, bounds, args, depth) <==> forall|i: int| 0 <= i < bounds@.len() ==> bound_holds(cx, env, *actual, #[trigger] bounds@[i], *args, depth),
    decreases bounds,
{
    if let Chain::Cons(head, tail) = bounds {
        law_bounds_hold(cx, env, actual, tail, args, depth);
        assert(bounds@[0] == **head);
        if bounds_hold(cx, env, actual, bounds, args, depth) {
            assert forall|i: int| 0 <= i < bounds@.len() implies bound_holds(cx, env, *actual, #[trigger] bounds@[i], *args, depth) by {
                if i > 0 {
                    assert(bounds@[i] == tail@[i - 1]);
                }
            }
        } else if bound_holds(cx, env, *actual, **head, *args, depth) {
            let i = choose|i: int| 0 <= i < tail@.len() && !bound_holds(cx, env, *actual, #[trigger] tail@[i], *args, depth);
            assert(!bound_holds(cx, env, *actual, bounds@[i + 1], *args, depth));
        }
    }
}

/// Whether one premise holds of type arguments.
pub open spec fn premise_holds(cx: &Ctx, env: &TyEnv, premise: ConformancePremise, args: Chain<Ty>, depth: u32) -> bool {
    &&& premise.param < args@.len()
    &&& bounds_hold(cx, env, &args@[premise.param as int], &premise.bounds, &args, depth)
}

/// Premises hold exactly where each of them does.
pub proof fn law_premises_hold(cx: &Ctx, env: &TyEnv, premises: &Chain<ConformancePremise>, args: &Chain<Ty>, depth: u32)
    ensures
        premises_hold(cx, env, premises, args, depth) == Some(true) <==> forall|i: int| 0 <= i < premises@.len() ==> premise_holds(cx, env, #[trigger] premises@[i], *args, depth),
    decreases premises,
{
    if let Chain::Cons(head, tail) = premises {
        law_premises_hold(cx, env, tail, args, depth);
        law_nth(args, head.param);
        assert(premises@[0] == **head);
        if premises_hold(cx, env, premises, args, depth) == Some(true) {
            assert forall|i: int| 0 <= i < premises@.len() implies premise_holds(cx, env, #[trigger] premises@[i], *args, depth) by {
                if i > 0 {
                    assert(premises@[i] == tail@[i - 1]);
                }
            }
        } else if premise_holds(cx, env, **head, *args, depth) {
            let i = choose|i: int| 0 <= i < tail@.len() && !premise_holds(cx, env, #[trigger] tail@[i], *args, depth);
            assert(!premise_holds(cx, env, premises@[i + 1], *args, depth));
        }
    }
}

/// A type parameter conforms to an interface only through a bound that its
/// scope gives it, where no premise speaks of it.
pub proof fn law_parameter_bound(cx: &Ctx, env: &TyEnv, index: u32, interface: u32)
    requires
        index >= env.type_offset,
        env.extra_bounds is Nil,
    ensures
        type_conformance(cx, env, &Ty::Var(index), interface) matches Some(found) ==> (variable_bounds(env, index) matches Some(bounds) && bounds@.contains(found)),
        variable_bounds(env, index) is None ==> type_conformance(cx, env, &Ty::Var(index), interface) is None,
{
    reveal_with_fuel(type_conformance_depth, 2);
    reveal_with_fuel(declared_conformance, 2);
    if let Some(bounds) = variable_bounds(env, index) {
        lemma_bound_found(bounds, interface);
    }
}

/// Whether an argument meets one bound of an application.
pub open spec fn meets_one(cx: &Ctx, env: &TyEnv, actual: Ty, bound: InterfaceUse, types: Chain<Ty>, rows: Chain<Row>) -> bool {
    type_conforms(cx, env, &actual, &substitute_interface_use(&bound, &types, &rows))
}

/// An argument meets its bounds exactly where it conforms to each.
pub proof fn law_argument_meets(cx: &Ctx, env: &TyEnv, actual: &Ty, bounds: &Chain<InterfaceUse>, types: &Chain<Ty>, rows: &Chain<Row>)
    ensures
        argument_meets(cx, env, actual, bounds, types, rows) <==> forall|i: int| 0 <= i < bounds@.len() ==> meets_one(cx, env, *actual, #[trigger] bounds@[i], *types, *rows),
    decreases bounds,
{
    if let Chain::Cons(head, tail) = bounds {
        law_argument_meets(cx, env, actual, tail, types, rows);
        assert(bounds@[0] == **head);
        if argument_meets(cx, env, actual, bounds, types, rows) {
            assert forall|i: int| 0 <= i < bounds@.len() implies meets_one(cx, env, *actual, #[trigger] bounds@[i], *types, *rows) by {
                if i > 0 {
                    assert(bounds@[i] == tail@[i - 1]);
                }
            }
        } else if meets_one(cx, env, *actual, **head, *types, *rows) {
            let i = choose|i: int| 0 <= i < tail@.len() && !meets_one(cx, env, *actual, #[trigger] tail@[i], *types, *rows);
            assert(!meets_one(cx, env, *actual, bounds@[i + 1], *types, *rows));
        }
    }
}

/// Arguments meet their bounds exactly where each one does.
pub proof fn law_arguments_meet(cx: &Ctx, env: &TyEnv, args: &Chain<Ty>, bounds: &Chain<Chain<InterfaceUse>>, types: &Chain<Ty>, rows: &Chain<Row>)
    ensures
        arguments_meet(cx, env, args, bounds, types, rows) <==> forall|i: int| 0 <= i < args@.len() && i < bounds@.len() ==> argument_meets(cx, env, &#[trigger] args@[i], &bounds@[i], types, rows),
    decreases args,
{
    if let (Chain::Cons(arg, more), Chain::Cons(own, rest)) = (args, bounds) {
        law_arguments_meet(cx, env, more, rest, types, rows);
        assert(args@[0] == **arg && bounds@[0] == **own);
        if arguments_meet(cx, env, args, bounds, types, rows) {
            assert forall|i: int| 0 <= i < args@.len() && i < bounds@.len() implies argument_meets(cx, env, &#[trigger] args@[i], &bounds@[i], types, rows) by {
                if i > 0 {
                    assert(args@[i] == more@[i - 1]);
                    assert(bounds@[i] == rest@[i - 1]);
                }
            }
        } else if argument_meets(cx, env, &**arg, &**own, types, rows) {
            let i = choose|i: int| 0 <= i < more@.len() && i < rest@.len() && !argument_meets(cx, env, &#[trigger] more@[i], &rest@[i], types, rows);
            assert(args@[i + 1] == more@[i] && bounds@[i + 1] == rest@[i]);
            assert(!argument_meets(cx, env, &args@[i + 1], &bounds@[i + 1], types, rows));
        }
    }
}

/// Whether a method is the one that a class declares under a name.
pub open spec fn declares_method(cx: &Ctx, class: u32, name: Text, sig: MethodSig) -> bool {
    &&& class_at(cx, class).methods@.contains(sig)
    &&& sig.name == name
}

proof fn lemma_own(methods: &Chain<MethodSig>, name: &Text)
    ensures
        own_method(methods, name) matches Some(sig) ==> methods@.contains(*sig) && sig.name == *name,
        own_method(methods, name) is None ==> forall|i: int| 0 <= i < methods@.len() ==> (#[trigger] methods@[i]).name != *name,
    decreases methods,
{
    if let Chain::Cons(head, tail) = methods {
        lemma_own(tail, name);
        assert(methods@[0] == **head);
        if head.name != *name {
            if let Some(sig) = own_method(tail, name) {
                let i = tail@.index_of(*sig);
                assert(methods@[i + 1] == *sig);
            } else {
                assert forall|i: int| 0 <= i < methods@.len() implies (#[trigger] methods@[i]).name != *name by {
                    if i > 0 {
                        assert(methods@[i] == tail@[i - 1]);
                    }
                }
            }
        }
    }
}

/// Whether a found method answers a name from a class on: its owner is the
/// class or one before it, the owner declares it, and its row, its function
/// and its rights are the declared ones.
pub open spec fn answers_name(cx: &Ctx, start: u32, name: Text, found: MethodFound) -> bool {
    &&& found.owner <= start
    &&& found.sig.name == name
    &&& exists|sig: MethodSig| #[trigger] declares_method(cx, found.owner, name, sig) && sig.func == found.sig.func && sig.row == found.sig.row && sig.mut_self == found.sig.mut_self
        && sig.param_muts == found.sig.param_muts && sig.own_effect_params == found.sig.own_effect_params
}

/// The method that a class answers a name with is its own, or else that of
/// the nearest ancestor that declares one.
pub proof fn law_lookup_method(cx: &Ctx, start: u32, args: Chain<Ty>, arity: u32, name: &Text)
    ensures
        lookup_method(cx, start, args, arity, name) matches Some(found) ==> answers_name(cx, start, *name, found),
        lookup_method(cx, start, args, arity, name) matches Some(found) ==> (has_own(cx, start, *name) ==> found.owner == start),
    decreases start,
{
    lemma_own(&class_at(cx, start).methods, name);
    match own_method(&class_at(cx, start).methods, name) {
        Some(sig) => {
            assert(declares_method(cx, start, *name, *sig));
            if let Some(found) = lookup_method(cx, start, args, arity, name) {
                law_substitute_method(cx, sig, &args, arity);
                assert(found.owner == start && found.sig.name == *name);
                assert(sig.func == found.sig.func && sig.row == found.sig.row && sig.mut_self == found.sig.mut_self && sig.param_muts == found.sig.param_muts);
                assert(sig.own_effect_params == found.sig.own_effect_params);
                assert(answers_name(cx, start, *name, found));
            }
        },
        None => {
            if let Some(parent) = meta_at(cx, start).parent {
                if parent < start {
                    law_lookup_method(cx, parent, meta_at(cx, start).parent_args, arity, name);
                    assert(lookup_method(cx, start, args, arity, name) == lookup_method(cx, parent, meta_at(cx, start).parent_args, arity, name));
                }
            }
        },
    }
}

/// Whether a class declares a method of a name itself.
pub open spec fn has_own(cx: &Ctx, class: u32, name: Text) -> bool {
    exists|i: int| 0 <= i < class_at(cx, class).methods@.len() && (#[trigger] class_at(cx, class).methods@[i]).name == name
}

/// A method of an ancestor is read under the type arguments of the
/// ancestor, which meet its bounds.
pub proof fn law_substitute_method(cx: &Ctx, sig: &MethodSig, args: &Chain<Ty>, arity: u32)
    ensures
        substitute_method(cx, sig, args, arity) matches Some(found) ==> {
            &&& arguments_meet(cx, &empty_env(), args, &sig.class_type_bounds, args, &Chain::Nil)
            &&& found.name == sig.name
            &&& found.func == sig.func
            &&& found.mut_self == sig.mut_self
            &&& found.row == sig.row
            &&& found.param_muts == sig.param_muts
            &&& found.params == substitute_all(&sig.params, &concat(*args, variables(&sig.own_type_params, arity)), &Chain::Nil)
            &&& found.ret == substitute(&sig.ret, &concat(*args, variables(&sig.own_type_params, arity)), &Chain::Nil)
        },
{
}

/// Whether a bound answers a method name.
pub open spec fn is_bound_method(cx: &Ctx, applications: Chain<InterfaceUse>, name: Text, found: BoundMethod) -> bool {
    &&& applications@.contains(found.application)
    &&& found.interface == found.application.interface
    &&& found.sig.name == name
    &&& interface_at(cx, found.interface).methods@.contains(found.sig)
}

proof fn lemma_find_method(methods: &Chain<InterfaceMethodSig>, name: &Text)
    requires
        methods@.len() <= u32::MAX,
    ensures
        find_method(methods, name) matches Some(at) ==> at < methods@.len() && methods@[at as int].name == *name,
    decreases methods,
{
    if let Chain::Cons(head, tail) = methods {
        lemma_find_method(tail, name);
        assert(methods@[0] == **head);
        if head.name != *name {
            if let Some(at) = find_method(tail, name) {
                assert(methods@[at + 1] == tail@[at as int]);
            }
        }
    }
}

/// A method that bounds answer is one that an interface of the bounds
/// requires under the name.
pub proof fn law_bound_method_in(cx: &Ctx, applications: &Chain<InterfaceUse>, found: Option<BoundMethod>, name: &Text, span: Span, all: Chain<InterfaceUse>)
    requires
        forall|i: int| 0 <= i < applications@.len() ==> all@.contains(#[trigger] applications@[i]),
        found matches Some(first) ==> is_bound_method(cx, all, *name, first),
        forall|interface: u32| (#[trigger] interface_at(cx, interface)).methods@.len() <= u32::MAX,
    ensures
        bound_method_in(cx, applications, found, name, span) matches Ok(Some(method)) ==> is_bound_method(cx, all, *name, method),
    decreases applications,
{
    if let Chain::Cons(head, tail) = applications {
        assert(applications@[0] == **head);
        assert forall|i: int| 0 <= i < tail@.len() implies all@.contains(#[trigger] tail@[i]) by {
            assert(applications@[i + 1] == tail@[i]);
        }
        let contract = interface_at(cx, head.interface);
        lemma_find_method(&contract.methods, name);
        law_bound_method_in(cx, tail, found, name, span, all);
        if let Some(method) = find_method(&contract.methods, name) {
            law_nth(&contract.methods, method);
            if let Some(requirement) = nth(&contract.methods, method) {
                let candidate = BoundMethod { application: **head, interface: head.interface, method: method, sig: *requirement };
                assert(contract.methods@.contains(*requirement));
                assert(is_bound_method(cx, all, *name, candidate));
                law_bound_method_in(cx, tail, Some(candidate), name, span, all);
            }
        }
    }
}

/// An interface method read for a receiver keeps its rights, its function
/// and its names.
pub proof fn law_instantiate_method(receiver: &Ty, application: &InterfaceUse, method: &InterfaceMethodSig)
    ensures
        instantiate_interface_method(receiver, application, method).name == method.name,
        instantiate_interface_method(receiver, application, method).mut_self == method.mut_self,
        instantiate_interface_method(receiver, application, method).param_muts == method.param_muts,
        instantiate_interface_method(receiver, application, method).param_names == method.param_names,
        instantiate_interface_method(receiver, application, method).default_func == method.default_func,
        instantiate_interface_method(receiver, application, method).own_type_params == method.own_type_params,
{
}

} // verus!
