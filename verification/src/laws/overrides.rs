//! Overrides: what a method that answers for another one keeps.

use vstd::prelude::*;
use crate::ast::{ClassDef, MethodDef, Span};
use crate::chain::Chain;
use crate::context::{ClassInfo, ConformanceInfo, Ctx, Decl, InterfaceMethodSig, InterfaceUse, Members, MethodSig, Picked, TyEnv};
use crate::laws::lists::{law_append, law_same_len};
use crate::model::answers::{compatible, row_included};
use crate::model::classes::{check_inherited_method, check_override, class_methods, class_repr, class_scope, inherited_layout, own_fields, parent_span, resolve_class};
use crate::model::conform::{empty_bounds, find_method_owner, lookup_method, normalize_associated, type_conforms};
use crate::model::fulfil::{add_requirement_premises, check_associated_bounds, check_conformance, check_requirements, fulfils, interface_override_error, parameters_accept, pick_default, required_types};
use crate::model::lists::{append, concat, cons, count};
use crate::model::lookup::{class_at, class_self_type, interface_at, meta_at};
use crate::model::members::resolve_method_sig;
use crate::model::resolve::{resolve_generic_bounds, split_generics};
use crate::model::rows::substitute_row;
use crate::model::subst::{row_variables, substitute, substitute_interface_use, variables};
use crate::problem::{Problem, Stop};
use crate::text::Text;
use crate::types::{Row, Ty};

verus! {

/// Whether a method keeps what the method that it overrides promises: the
/// same parameters, a result that fits, and no effect beyond it.
pub open spec fn keeps_promise(cx: &Ctx, base: MethodSig, sig: MethodSig) -> bool {
    &&& sig.params == base.params
    &&& sig.param_muts == base.param_muts
    &&& sig.mut_self == base.mut_self
    &&& sig.own_type_params@.len() == base.own_type_params@.len()
    &&& sig.own_effect_params@.len() == base.own_effect_params@.len()
    &&& compatible(cx, &base.ret, &sig.ret) == Ok::<bool, Stop>(true)
    &&& row_included(cx, &sig.row, &base.row) == Ok::<bool, Stop>(true)
}

/// An override is accepted exactly where it keeps the promise.
pub proof fn law_check_override(cx: &Ctx, base: &MethodSig, sig: &MethodSig, span: Span)
    ensures
        check_override(cx, base, sig, span) is Ok <==> keeps_promise(cx, *base, *sig),
{
    law_same_len(&base.own_type_params, &sig.own_type_params);
    law_same_len(&base.own_effect_params, &sig.own_effect_params);
}

/// Whether a method keeps what the nearest ancestor method of its name
/// promises, where there is one.
pub open spec fn keeps_inherited(cx: &Ctx, parent: Option<u32>, parent_args: Chain<Ty>, arity: u32, sig: MethodSig) -> bool {
    match parent {
        None => true,
        Some(class) => lookup_method(cx, class, parent_args, arity, &sig.name) matches Some(found) ==> keeps_promise(cx, found.sig, sig),
    }
}

/// Whether each method does.
pub open spec fn all_keep_inherited(cx: &Ctx, parent: Option<u32>, parent_args: Chain<Ty>, arity: u32, methods: Chain<MethodSig>) -> bool {
    forall|i: int| 0 <= i < methods@.len() ==> keeps_inherited(cx, parent, parent_args, arity, #[trigger] methods@[i])
}

/// A method is accepted beside its ancestors exactly where it keeps what
/// they promise.
pub proof fn law_inherited_method(cx: &Ctx, parent: Option<u32>, parent_args: &Chain<Ty>, arity: u32, sig: &MethodSig, span: Span)
    ensures
        check_inherited_method(cx, parent, parent_args, arity, sig, span) is Ok <==> keeps_inherited(cx, parent, *parent_args, arity, *sig),
{
    if let Some(class) = parent {
        if let Some(found) = lookup_method(cx, class, *parent_args, arity, &sig.name) {
            law_check_override(cx, &found.sig, sig, span);
        }
    }
}

/// Every method of an accepted class keeps what its ancestors promise.
pub proof fn law_class_methods(
    cx: &Ctx,
    st: Decl,
    declaration: &ClassDef,
    methods: &Chain<MethodDef>,
    names: &Chain<Text>,
    bounds: &Chain<Chain<InterfaceUse>>,
    self_ty: &Ty,
    fields: &Chain<Text>,
    parent: Option<u32>,
    parent_args: &Chain<Ty>,
    is_core: bool,
    members: Members,
)
    requires
        all_keep_inherited(cx, parent, *parent_args, count(names), members.methods),
    ensures
        class_methods(cx, st, declaration, methods, names, bounds, self_ty, fields, parent, parent_args, is_core, members).1 matches Ok(found)
            ==> all_keep_inherited(cx, parent, *parent_args, count(names), found.methods),
    decreases methods,
{
    match methods {
        Chain::Nil => {},
        Chain::Cons(head, tail) => {
            let is_init = head.name@ == "init"@;
            let (next, resolved) = resolve_method_sig(cx, st, &**head, names, bounds, self_ty, is_core, is_init);
            if let Ok(sig) = resolved {
                if is_init {
                    law_class_methods(cx, next, declaration, &**tail, names, bounds, self_ty, fields, parent, parent_args, is_core, Members { init: Some(sig), ..members });
                } else {
                    law_inherited_method(cx, parent, parent_args, count(names), &sig, head.name_span);
                    law_append(members.methods, sig);
                    let more = Members { methods: append(members.methods, sig), ..members };
                    if keeps_inherited(cx, parent, *parent_args, count(names), sig) {
                        assert(all_keep_inherited(cx, parent, *parent_args, count(names), more.methods));
                        law_class_methods(cx, next, declaration, &**tail, names, bounds, self_ty, fields, parent, parent_args, is_core, more);
                    }
                }
            }
        },
    }
}

/// Whether each method of a class keeps what the method that it overrides
/// promises, so that a call through an ancestor performs no effect that the
/// ancestor does not declare.
pub open spec fn overrides_well(cx: &Ctx, class: u32, info: ClassInfo) -> bool {
    all_keep_inherited(cx, info.parent, meta_at(cx, class).parent_args, count(&info.type_params), info.methods)
}

/// An accepted class overrides well.
pub proof fn law_resolve_class(cx: &Ctx, st: Decl, declaration: &ClassDef, class: u32, is_core: bool)
    ensures
        resolve_class(cx, st, declaration, class, is_core).1 matches Ok(info) ==> overrides_well(cx, class, info),
{
    if let Ok(info) = resolve_class(cx, st, declaration, class, is_core).1 {
        let meta = meta_at(cx, class);
        let generics = split_generics(&declaration.generics);
        let repr = class_repr(&declaration.name, is_core);
        let self_ty = class_self_type(class, count(&generics.types), repr);
        let outer = class_scope(
            &generics.types,
            empty_bounds(&generics.types),
            &self_ty,
            is_core,
        );
        let (st1, bounds) = resolve_generic_bounds(cx, &outer, st, &declaration.generics);
        let env = class_scope(&generics.types, bounds->Ok_0, &self_ty, is_core);
        let inherited = inherited_layout(cx, meta.parent, &meta.parent_args, parent_span(declaration))->Ok_0;
        let (st2, layout) = own_fields(cx, &env, st1, &declaration.fields, inherited);
        law_class_methods(
            cx,
            st2,
            declaration,
            &declaration.methods,
            &generics.types,
            &bounds->Ok_0,
            &self_ty,
            &layout->Ok_0.names,
            meta.parent,
            &meta.parent_args,
            is_core,
            Members { methods: Chain::Nil, init: None },
        );
    }
}

/// Parameters accept those of a requirement exactly where each takes the
/// required type: the same one where the parameter is `mut`.
pub proof fn law_parameters_accept(cx: &Ctx, params: &Chain<Ty>, required: &Chain<Ty>, muts: &Chain<bool>)
    requires
        params@.len() == required@.len(),
        params@.len() == muts@.len(),
    ensures
        parameters_accept(cx, params, required, muts) == Ok::<bool, Stop>(true) <==> forall|i: int|
            0 <= i < params@.len() ==> takes(cx, #[trigger] params@[i], required@[i], muts@[i]),
    decreases params,
{
    match (params, required, muts) {
        (Chain::Cons(a, rest), Chain::Cons(w, wanted), Chain::Cons(m, flags)) => {
            law_parameters_accept(cx, &**rest, &**wanted, &**flags);
            assert(params@[0] == **a && required@[0] == **w && muts@[0] == **m);
            assert forall|i: int| 0 <= i < rest@.len() implies rest@[i] == #[trigger] params@[i + 1] && wanted@[i] == required@[i + 1] && flags@[i]
                == muts@[i + 1] by {}
            if forall|i: int| 0 <= i < params@.len() ==> takes(cx, #[trigger] params@[i], required@[i], muts@[i]) {
                assert(takes(cx, params@[0], required@[0], muts@[0]));
                assert forall|i: int| 0 <= i < rest@.len() implies takes(cx, #[trigger] rest@[i], wanted@[i], flags@[i]) by {
                    assert(takes(cx, params@[i + 1], required@[i + 1], muts@[i + 1]));
                }
            }
            if takes(cx, **a, **w, **m) && (forall|i: int| 0 <= i < rest@.len() ==> takes(cx, #[trigger] rest@[i], wanted@[i], flags@[i])) {
                assert forall|i: int| 0 <= i < params@.len() implies takes(cx, #[trigger] params@[i], required@[i], muts@[i]) by {
                    if i > 0 {
                        assert(takes(cx, rest@[i - 1], wanted@[i - 1], flags@[i - 1]));
                    }
                }
            }
        },
        _ => {},
    }
}

/// Whether a parameter takes what a requirement hands over.
pub open spec fn takes(cx: &Ctx, actual: Ty, wanted: Ty, exact: bool) -> bool {
    if exact {
        actual == wanted
    } else {
        compatible(cx, &actual, &wanted) == Ok::<bool, Stop>(true)
    }
}

/// The type arguments of a requirement: those of the interface, then its
/// own, read behind those of the class.
pub open spec fn requirement_types(cx: &Ctx, class: u32, requirement: InterfaceMethodSig, types: Chain<Ty>) -> Chain<Ty> {
    concat(types, variables(&requirement.own_type_params, count(&class_at(cx, class).type_params)))
}

/// The effect arguments of a requirement.
pub open spec fn requirement_rows(requirement: InterfaceMethodSig, rows: Chain<Row>) -> Chain<Row> {
    concat(rows, row_variables(&requirement.own_effect_params, 0u32))
}

/// Whether a method of a class does what an interface requires: it takes
/// every argument that the requirement admits, gives a result that fits,
/// and performs no effect beyond the required row.
pub open spec fn answers_requirement(
    cx: &Ctx,
    env: TyEnv,
    class: u32,
    method: MethodSig,
    requirement: InterfaceMethodSig,
    types: Chain<Ty>,
    rows: Chain<Row>,
) -> bool {
    let all_types = requirement_types(cx, class, requirement, types);
    let all_rows = requirement_rows(requirement, rows);
    let inner = add_requirement_premises(cx, env, &requirement.premises, &all_types, &all_rows);
    let params = required_types(cx, &inner, &requirement.params, &all_types, &all_rows);
    let ret = normalize_associated(cx, &inner, &substitute(&requirement.ret, &all_types, &all_rows));
    &&& method.own_type_params@.len() == requirement.own_type_params@.len()
    &&& method.own_effect_params@.len() == requirement.own_effect_params@.len()
    &&& method.mut_self == requirement.mut_self
    &&& method.param_muts == requirement.param_muts
    &&& method.params@.len() == params@.len()
    &&& method.params@.len() == method.param_muts@.len() ==> forall|i: int|
        0 <= i < params@.len() ==> takes(cx, #[trigger] method.params@[i], params@[i], method.param_muts@[i])
    &&& compatible(cx, &ret, &method.ret) == Ok::<bool, Stop>(true)
    &&& row_included(cx, &method.row, &substitute_row(&requirement.row, &all_rows)) == Ok::<bool, Stop>(true)
}

/// A method that nothing speaks against does what the interface requires.
pub proof fn law_interface_override(
    cx: &Ctx,
    env: &TyEnv,
    class: u32,
    method: &MethodSig,
    requirement: &InterfaceMethodSig,
    interface: u32,
    types: &Chain<Ty>,
    rows: &Chain<Row>,
)
    ensures
        interface_override_error(cx, env, class, method, requirement, interface, types, rows) == Ok::<Option<Problem>, Stop>(None)
            ==> answers_requirement(cx, *env, class, *method, *requirement, *types, *rows),
{
    let all_types = requirement_types(cx, class, *requirement, *types);
    let all_rows = requirement_rows(*requirement, *rows);
    let inner = add_requirement_premises(cx, *env, &requirement.premises, &all_types, &all_rows);
    let params = required_types(cx, &inner, &requirement.params, &all_types, &all_rows);
    law_same_len(&method.own_type_params, &requirement.own_type_params);
    law_same_len(&method.own_effect_params, &requirement.own_effect_params);
    law_same_len(&method.params, &params);
    if method.params@.len() == params@.len() && method.params@.len() == method.param_muts@.len() && method.param_muts == requirement.param_muts {
        law_parameters_accept(cx, &method.params, &params, &requirement.param_muts);
    }
}

/// Whether one requirement of an interface is met: by a method of the
/// class, or by a default of the interface.
pub open spec fn requirement_met(
    cx: &Ctx,
    env: TyEnv,
    class: u32,
    requirement: InterfaceMethodSig,
    types: Chain<Ty>,
    rows: Chain<Row>,
    own: bool,
) -> bool {
    if own {
        find_method_owner(cx, class, &requirement.name) matches Some(found) && answers_requirement(
            cx,
            env,
            class,
            found.sig,
            requirement,
            types,
            rows,
        )
    } else {
        requirement.default_binding is Some
    }
}

/// Every requirement of an accepted conformance is met, and the markers
/// say how.
pub proof fn law_check_requirements(
    cx: &Ctx,
    env: &TyEnv,
    st: Chain<Picked>,
    class: u32,
    methods: &Chain<InterfaceMethodSig>,
    interface: u32,
    types: &Chain<Ty>,
    rows: &Chain<Row>,
    span: Span,
)
    ensures
        check_requirements(cx, env, st, class, methods, interface, types, rows, span).1 matches Ok(own) ==> own@.len() == methods@.len()
            && forall|i: int|
            0 <= i < methods@.len() ==> requirement_met(cx, *env, class, #[trigger] methods@[i], *types, *rows, own@[i]),
    decreases methods,
{
    match methods {
        Chain::Nil => {},
        Chain::Cons(head, tail) => {
            if let Some(found) = find_method_owner(cx, class, &head.name) {
                law_interface_override(cx, env, class, &found.sig, &**head, interface, types, rows);
            }
            if let Ok(reason) = fulfils(cx, env, class, &**head, interface, types, rows) {
                let next = match reason {
                    None => Ok(st),
                    Some(problem) => pick_default(st, &**head, interface, problem, span),
                };
                if let Ok(picked) = next {
                    law_check_requirements(cx, env, picked, class, &**tail, interface, types, rows, span);
                    if let Ok(own) = check_requirements(cx, env, st, class, methods, interface, types, rows, span).1 {
                        let rest = check_requirements(cx, env, picked, class, &**tail, interface, types, rows, span).1->Ok_0;
                        assert forall|i: int| 0 <= i < methods@.len() implies requirement_met(
                            cx,
                            *env,
                            class,
                            #[trigger] methods@[i],
                            *types,
                            *rows,
                            own@[i],
                        ) by {
                            if i > 0 {
                                assert(methods@[i] == tail@[i - 1]);
                                assert(own@[i] == rest@[i - 1]);
                            }
                        }
                    }
                }
            }
        },
    }
}

/// A conformance is accepted only where each of its requirements is met.
pub proof fn law_check_conformance(cx: &Ctx, env: &TyEnv, st: Chain<Picked>, class: u32, conformance: &ConformanceInfo, dependencies: &Chain<bool>, span: Span)
    ensures
        check_conformance(cx, env, st, class, conformance, dependencies, span).1 matches Ok(own) ==> {
            let methods = interface_at(cx, conformance.application.interface).methods;
            let types = cons(class_at(cx, class).self_ty, conformance.application.type_args);
            own@.len() == methods@.len() && forall|i: int|
                0 <= i < methods@.len() ==> requirement_met(
                    cx,
                    *env,
                    class,
                    #[trigger] methods@[i],
                    types,
                    conformance.application.row_args,
                    own@[i],
                )
        },
{
    let contract = interface_at(cx, conformance.application.interface);
    let types = cons(class_at(cx, class).self_ty, conformance.application.type_args);
    law_check_requirements(
        cx,
        env,
        st,
        class,
        &contract.methods,
        conformance.application.interface,
        &types,
        &conformance.application.row_args,
        span,
    );
}

/// An associated type is accepted exactly where it meets each bound.
pub proof fn law_associated_bounds(
    cx: &Ctx,
    env: &TyEnv,
    actual: &Ty,
    name: &Text,
    bounds: &Chain<InterfaceUse>,
    types: &Chain<Ty>,
    rows: &Chain<Row>,
    span: Span,
)
    ensures
        check_associated_bounds(cx, env, actual, name, bounds, types, rows, span) is Ok <==> forall|i: int|
            0 <= i < bounds@.len() ==> type_conforms(cx, env, actual, &substitute_interface_use(&#[trigger] bounds@[i], types, rows)),
    decreases bounds,
{
    match bounds {
        Chain::Nil => {},
        Chain::Cons(head, tail) => {
            law_associated_bounds(cx, env, actual, name, &**tail, types, rows, span);
            assert(bounds@[0] == **head);
            assert forall|i: int| 0 <= i < tail@.len() implies #[trigger] tail@[i] == bounds@[i + 1] by {}
            if check_associated_bounds(cx, env, actual, name, bounds, types, rows, span) is Ok {
                assert forall|i: int| 0 <= i < bounds@.len() implies type_conforms(
                    cx,
                    env,
                    actual,
                    &substitute_interface_use(&#[trigger] bounds@[i], types, rows),
                ) by {
                    if i > 0 {
                        assert(tail@[i - 1] == bounds@[i]);
                    }
                }
            } else {
                if type_conforms(cx, env, actual, &substitute_interface_use(&**head, types, rows)) {
                    let i = choose|i: int|
                        0 <= i < tail@.len() && !type_conforms(cx, env, actual, &substitute_interface_use(&#[trigger] tail@[i], types, rows));
                    assert(bounds@[i + 1] == tail@[i]);
                }
            }
        },
    }
}

} // verus!
