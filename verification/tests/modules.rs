use lm_hir::abi::{AbiType, Bundle, ControlSlots, GroupDef, OpDef};
use lm_hir::ast::{BinOp, ClassDef, Expr, ExprKind, FieldDef, FuncDef, IfArm, InterfaceDef, InterfaceMethod, LoopBinding, MethodDef, Module, Param, ParentClause, Pattern, PatternKind, CaseArm, EnumDef, ArmDef, ArmField, RowItem, Span, Stmt, StmtKind, TypeExpr, TypeExprKind, UseDecl, GenericParam};
use lm_hir::chain::Chain;
use lm_hir::context::{APat, Answer, BuiltinType, Known, Query};
use lm_hir::hir::{HExpr, HKind, HStmt};
use lm_hir::modules::{check_module, check_module_with, default_options, plan_imports};
use lm_hir::problem::{Diag, Problem, Stop};
use lm_hir::program::{CheckOptions, DefKind, Halt, HirModule, Image};
use lm_hir::text::{is_text, text, Text};
use lm_hir::types::{same_ty, Row, Ty};

const NONE: u32 = 4000000000;

fn chain<T>(items: Vec<T>) -> Chain<T> {
    let mut out: Chain<T> = Chain::Nil;
    for item in items.into_iter().rev() {
        out = Chain::Cons(Box::new(item), Box::new(out));
    }
    out
}

fn list<T>(items: &Chain<T>) -> Vec<&T> {
    let mut out: Vec<&T> = Vec::new();
    let mut rest = items;
    while let Chain::Cons(head, tail) = rest {
        out.push(head);
        rest = tail;
    }
    out
}

fn spell(name: &Text) -> String {
    list(name).into_iter().collect()
}

fn at(lo: u32) -> Span {
    Span { lo: lo, hi: lo + 1 }
}

fn no_slots() -> ControlSlots {
    ControlSlots {
        vm_new: NONE,
        vm_snapshot_self: NONE,
        vm_from_fn: NONE,
        vm_snapshot_wait_held: NONE,
        vm_drive_for: NONE,
        vm_run: NONE,
        vm_step: NONE,
        vm_drive: NONE,
        vm_drive_wait: NONE,
        vm_snapshot_held: NONE,
        vm_restore: NONE,
        vm_table: NONE,
        vm_handles: NONE,
        vm_resource: NONE,
        vm_serve_file: NONE,
        vm_answer: NONE,
        vm_reject: NONE,
        vm_dispatch: NONE,
        vm_resource_is_open: NONE,
        vm_resource_close: NONE,
        vm_resource_kind: NONE,
        vm_resource_same: NONE,
        wait_wait: NONE,
        wait_choose: NONE,
        wait_cancel: NONE,
        proc_recv: NONE,
        proc_recv_wait: NONE,
        proc_run: NONE,
        proc_spawn: NONE,
        proc_send: NONE,
        proc_close: NONE,
        proc_done: NONE,
        proc_snapshot_wait: NONE,
        proc_pause: NONE,
        proc_resume: NONE,
        fs_open: NONE,
        fs_read: NONE,
        fs_write: NONE,
        fs_seek: NONE,
        fs_flush: NONE,
        fs_close: NONE,
    }
}

fn bundle() -> Bundle {
    Bundle {
        groups: chain(vec![GroupDef { surface: text("clock"), name: text("Clock"), row: 10 }]),
        ops: chain(vec![OpDef {
            group: text("Clock"),
            member: text("Now"),
            fixed: true,
            params: Chain::Nil,
            reply: AbiType::Core(text("Instant")),
            row: 11,
        }]),
        intrinsics: Chain::Nil,
        slots: no_slots(),
    }
}

fn name_type(name: &str) -> TypeExpr {
    TypeExpr { kind: TypeExprKind::Name(text(name)), span: at(0) }
}

fn expr(kind: ExprKind) -> Expr {
    Expr { kind: Box::new(kind), span: at(5) }
}

fn number(value: i64) -> Expr {
    expr(ExprKind::Int(value))
}

fn name(name: &str) -> Expr {
    expr(ExprKind::Name(text(name)))
}

fn call(callee: &str, args: Vec<Expr>) -> Expr {
    expr(ExprKind::Call { name: text(callee), name_span: at(6), type_args: Chain::Nil, args: chain(args) })
}

fn stmt(value: Expr) -> Stmt {
    Stmt { kind: StmtKind::Expr(value), span: at(7) }
}

fn assign(target: &str, value: Expr) -> Stmt {
    Stmt { kind: StmtKind::Assign { name: text(target), name_span: at(8), ty: None, value: value }, span: at(8) }
}

fn ret(value: Expr) -> Stmt {
    Stmt { kind: StmtKind::Return(Some(value)), span: at(9) }
}

fn param(label: &str, ty: &str) -> Param {
    Param { name: text(label), ty: name_type(ty), mutable: false, escaping: false, span: at(2) }
}

fn func(label: &str, params: Vec<Param>, result: Option<&str>, body: Vec<Stmt>) -> FuncDef {
    FuncDef {
        name: text(label),
        name_span: at(1),
        generics: Chain::Nil,
        params: chain(params),
        ret: match result {
            Some(ty) => Some(name_type(ty)),
            None => None,
        },
        row: Chain::Nil,
        body: chain(body),
        span: at(1),
    }
}

fn method(label: &str, params: Vec<Param>, result: Option<&str>, body: Vec<Stmt>) -> MethodDef {
    MethodDef {
        name: text(label),
        name_span: at(1),
        generics: Chain::Nil,
        premises: Chain::Nil,
        params: chain(params),
        ret: match result {
            Some(ty) => Some(name_type(ty)),
            None => None,
        },
        row: Chain::Nil,
        mut_self: false,
        body: chain(body),
        span: at(3),
    }
}

fn initializer(body: Vec<Stmt>) -> MethodDef {
    let mut found = method("init", vec![], None, body);
    found.mut_self = true;
    found
}

fn class(label: &str, fields: Vec<FieldDef>, methods: Vec<MethodDef>) -> ClassDef {
    ClassDef {
        name: text(label),
        name_span: at(1),
        is_final: false,
        is_frozen: false,
        generics: Chain::Nil,
        parent: None,
        interfaces: Chain::Nil,
        associated: Chain::Nil,
        fields: chain(fields),
        methods: chain(methods),
        span: at(1),
    }
}

fn field(label: &str, ty: &str, default: Option<Expr>) -> FieldDef {
    FieldDef { name: text(label), ty: name_type(ty), default: default, span: at(4) }
}

fn requirement(label: &str, params: Vec<Param>, result: &str) -> InterfaceMethod {
    InterfaceMethod {
        name: text(label),
        name_span: at(1),
        generics: Chain::Nil,
        premises: Chain::Nil,
        params: chain(params),
        ret: Some(name_type(result)),
        row: Chain::Nil,
        mut_self: false,
        body: None,
        span: at(1),
    }
}

fn interface(label: &str, methods: Vec<InterfaceMethod>) -> InterfaceDef {
    InterfaceDef {
        name: text(label),
        name_span: at(1),
        generics: Chain::Nil,
        parents: Chain::Nil,
        associated: Chain::Nil,
        methods: chain(methods),
        span: at(1),
    }
}

fn arm(label: &str, fields: Vec<ArmField>) -> ArmDef {
    ArmDef { name: text(label), name_span: at(1), fields: chain(fields) }
}

fn generic(label: &str) -> GenericParam {
    GenericParam { name: text(label), is_effect: false, bounds: Chain::Nil, span: at(1) }
}

fn module(classes: Vec<ClassDef>, funcs: Vec<FuncDef>, entry: Vec<Stmt>) -> Module {
    Module {
        uses: Chain::Nil,
        interfaces: Chain::Nil,
        classes: chain(classes),
        enums: Chain::Nil,
        funcs: chain(funcs),
        entry: chain(entry),
    }
}

fn integer_class() -> ClassDef {
    let mut found = class("Int", vec![], vec![method("__add__", vec![param("other", "Int")], Some("Int"), vec![ret(name("other"))])]);
    found.is_final = true;
    found
}

/// A core with the two interfaces of fixed role, `Int` and `Option`.
fn small_core() -> Module {
    Module {
        uses: Chain::Nil,
        interfaces: chain(vec![
            interface("PartialEq", vec![requirement("__eq__", vec![param("other", "Self")], "Bool")]),
            interface("Hashable", vec![requirement("__hash__", vec![], "Int")]),
        ]),
        classes: chain(vec![integer_class()]),
        enums: chain(vec![EnumDef {
            name: text("Option"),
            name_span: at(1),
            generics: chain(vec![generic("T")]),
            interfaces: Chain::Nil,
            associated: Chain::Nil,
            arms: chain(vec![arm("Some", vec![ArmField { name: text("value"), ty: name_type("T") }]), arm("None", vec![])]),
            methods: Chain::Nil,
            span: at(1),
        }]),
        funcs: Chain::Nil,
        entry: Chain::Nil,
    }
}

fn image(answers: Vec<Known>) -> Image {
    let builtin = |label: &str, ty: Ty| BuiltinType { name: text(label), ty: ty };
    Image {
        bundle: bundle(),
        builtins: chain(vec![builtin("Int", Ty::Int), builtin("Bool", Ty::Bool), builtin("Never", Ty::Never)]),
        source: small_core(),
        role_labels: chain(vec![text("Option"), text("Missing")]),
        max_interface_index: 65535,
        answers: chain(answers),
    }
}

/// A type relation for the tests: equality, with `Never` below all.
fn answer(query: &Query) -> Answer {
    let yes = |holds: bool| if holds { Answer::Yes } else { Answer::No };
    match query {
        Query::Compatible(expected, found) => yes(same_ty(expected, found) || matches!(found, Ty::Never)),
        Query::Join(a, b) => {
            if same_ty(a, b) || matches!(b, Ty::Never) {
                Answer::Joined((*a).clone())
            } else if matches!(a, Ty::Never) {
                Answer::Joined((*b).clone())
            } else {
                Answer::No
            }
        },
        Query::RowIncluded(row, within) => yes(row_inside(row, within)),
        Query::IsHeap(ty) => yes(matches!(ty, Ty::Class(_))),
        Query::HolderLocal(_) => Answer::No,
        Query::Changes(_, _) => Answer::No,
        Query::Omitted(_) => Answer::Joined(Ty::Int),
        Query::Useful(rows, _, budget) => {
            Answer::Weighed(!list(rows).into_iter().any(|row| matches!(row, APat::Wild)), budget - 1)
        },
    }
}

fn row_inside(row: &Row, within: &Row) -> bool {
    list(row).into_iter().all(|e| list(within).into_iter().any(|f| e == f))
}

fn options(answers: Vec<Known>) -> CheckOptions {
    CheckOptions { path: text("app.main"), ..default_options(image(answers)) }
}

/// Check a module, answering each question as it comes.
fn check(source: &Module) -> Result<HirModule, (String, Diag)> {
    answering(|known| check_module_with(source, &options(known)))
}

fn answering(run: impl Fn(Vec<Known>) -> Result<HirModule, Halt>) -> Result<HirModule, (String, Diag)> {
    let mut answered: Vec<(Query, Answer)> = Vec::new();
    loop {
        let known: Vec<Known> = answered.iter().map(|(q, a)| Known { query: q.clone(), answer: a.clone() }).collect();
        match run(known) {
            Ok(done) => return Ok(done),
            Err(Halt::Source(Stop::Ask(asked))) | Err(Halt::Core(Stop::Ask(asked))) => {
                assert!(answered.len() < 500);
                let found = answer(&asked.query);
                answered.push((asked.query, found));
            },
            Err(Halt::Source(Stop::Fail(diag))) => return Err((spell(&diag.problem.code()), diag)),
            Err(Halt::Core(Stop::Fail(diag))) => panic!("the core does not check: {}", spell(&diag.problem.code())),
            Err(Halt::Unchecked(index)) => panic!("function {} has no body", index),
        }
    }
}

fn fails(source: &Module) -> String {
    match check(source) {
        Ok(_) => panic!("the module checks"),
        Err((code, _)) => code,
    }
}

fn passes(source: &Module) -> HirModule {
    match check(source) {
        Ok(done) => done,
        Err((code, diag)) => panic!("{} on `{}`", code, spell(&diag.subject)),
    }
}

fn entry_type(done: &HirModule) -> Ty {
    list(&done.funcs)[done.entry as usize].ret.clone()
}

fn last_value(done: &HirModule) -> &HExpr {
    let body = list(&list(&done.funcs)[done.entry as usize].body);
    match body[body.len() - 1] {
        HStmt::Expr(value) => value,
        _ => panic!("the entry has no value"),
    }
}

#[test]
fn an_integer_entry_gives_an_integer() {
    let done = passes(&module(vec![], vec![], vec![stmt(number(7))]));
    assert!(same_ty(&entry_type(&done), &Ty::Int));
    assert!(matches!(&*last_value(&done).kind, HKind::Int(7)));
}

#[test]
fn an_empty_entry_gives_the_unit_value() {
    let done = passes(&module(vec![], vec![], vec![]));
    assert!(same_ty(&entry_type(&done), &Ty::Unit));
}

#[test]
fn the_module_path_core_is_refused() {
    let source = module(vec![], vec![], vec![]);
    let mut chosen = options(vec![]);
    chosen.path = text("core");
    match check_module_with(&source, &chosen) {
        Err(Halt::Source(Stop::Fail(diag))) => assert_eq!(spell(&diag.problem.code()), "E0290"),
        _ => panic!("the path is accepted"),
    }
}

#[test]
fn the_default_options_check_without_a_path() {
    let source = module(vec![], vec![], vec![stmt(number(1))]);
    assert!(answering(|known| check_module(&source, image(known))).is_ok());
}

#[test]
fn a_call_takes_its_declared_result() {
    let double = func("double", vec![param("n", "Int")], Some("Int"), vec![ret(name("n"))]);
    let done = passes(&module(vec![], vec![double], vec![stmt(call("double", vec![number(4)]))]));
    assert!(same_ty(&entry_type(&done), &Ty::Int));
    assert!(matches!(&*last_value(&done).kind, HKind::Call { func: 0, .. }));
}

#[test]
fn an_argument_of_another_type_is_a_mismatch() {
    let double = func("double", vec![param("n", "Int")], Some("Int"), vec![ret(name("n"))]);
    let wrong = call("double", vec![expr(ExprKind::Bool(true))]);
    assert_eq!(fails(&module(vec![], vec![double], vec![stmt(wrong)])), "E1004");
}

#[test]
fn an_unknown_name_is_reported() {
    let source = module(vec![], vec![], vec![stmt(name("missing"))]);
    match check(&source) {
        Err((_, diag)) => assert!(is_text(&diag.subject, "missing")),
        Ok(_) => panic!("the name resolves"),
    }
}

#[test]
fn a_statement_behind_a_return_is_unreachable() {
    let body = vec![ret(number(1)), stmt(number(2))];
    let source = module(vec![], vec![func("f", vec![], Some("Int"), body)], vec![]);
    let plain = module(vec![], vec![func("f", vec![], Some("Int"), vec![ret(number(1))])], vec![]);
    passes(&plain);
    assert_ne!(fails(&source), "");
}

#[test]
fn two_functions_of_one_name_are_refused() {
    let one = func("f", vec![], Some("Int"), vec![ret(number(1))]);
    let two = func("f", vec![], Some("Int"), vec![ret(number(2))]);
    assert_eq!(fails(&module(vec![], vec![one, two], vec![])), "E1010");
}

#[test]
fn a_repeated_parameter_is_refused() {
    let twice = func("f", vec![param("n", "Int"), param("n", "Int")], Some("Int"), vec![ret(number(1))]);
    assert_eq!(fails(&module(vec![], vec![twice], vec![])), "E1014");
}

#[test]
fn a_loop_that_never_returns_needs_the_never_type() {
    let forever = expr(ExprKind::Loop(Chain::Nil));
    let wrong = func("f", vec![], Some("Int"), vec![stmt(forever)]);
    assert_eq!(fails(&module(vec![], vec![wrong], vec![])), "E1063");
    let again = expr(ExprKind::Loop(Chain::Nil));
    let honest = func("f", vec![], Some("Never"), vec![stmt(again)]);
    passes(&module(vec![], vec![honest], vec![]));
}

#[test]
fn both_branches_give_the_type_of_a_conditional() {
    let cond = expr(ExprKind::If {
        branches: chain(vec![IfArm { cond: expr(ExprKind::Bool(true)), body: chain(vec![stmt(number(1))]) }]),
        else_body: Some(chain(vec![stmt(number(2))])),
    });
    let done = passes(&module(vec![], vec![], vec![stmt(cond)]));
    assert!(same_ty(&entry_type(&done), &Ty::Int));
    let mixed = expr(ExprKind::If {
        branches: chain(vec![IfArm { cond: expr(ExprKind::Bool(true)), body: chain(vec![stmt(number(1))]) }]),
        else_body: Some(chain(vec![stmt(expr(ExprKind::Bool(false)))])),
    });
    assert_ne!(fails(&module(vec![], vec![], vec![stmt(mixed)])), "");
}

#[test]
fn a_local_keeps_its_type() {
    let fine = module(vec![], vec![], vec![assign("x", number(1)), assign("x", number(2)), stmt(name("x"))]);
    assert!(same_ty(&entry_type(&passes(&fine)), &Ty::Int));
    let wrong = module(vec![], vec![], vec![assign("x", number(1)), assign("x", expr(ExprKind::Bool(true)))]);
    assert_eq!(fails(&wrong), "E1004");
}

#[test]
fn an_initializer_must_assign_every_field() {
    let set = Stmt {
        kind: StmtKind::AssignField { recv: expr(ExprKind::SelfRef), field: text("x"), field_span: at(3), value: number(1) },
        span: at(3),
    };
    let fine = class("Point", vec![field("x", "Int", None)], vec![initializer(vec![set])]);
    passes(&module(vec![fine], vec![], vec![]));
    let wrong = class("Point", vec![field("x", "Int", None)], vec![initializer(vec![])]);
    assert_ne!(fails(&module(vec![wrong], vec![], vec![])), "");
}

#[test]
fn exports_hold_what_the_module_defines() {
    let f = func("f", vec![], Some("Int"), vec![ret(number(1))]);
    let done = passes(&module(vec![class("Box", vec![], vec![])], vec![f], vec![]));
    let names: Vec<String> = list(&done.exports).into_iter().map(|e| spell(&e.name)).collect();
    assert_eq!(names, vec!["Box".to_string(), "f".to_string()]);
    assert!(list(&done.exports)[0].kind == DefKind::Class);
    assert!(list(&done.core_exports).is_empty());
}

#[test]
fn the_core_comes_before_the_module() {
    let done = passes(&module(vec![class("Box", vec![], vec![])], vec![], vec![]));
    let keys: Vec<(String, String)> = list(&done.classes).into_iter().map(|c| (spell(&c.key.module), spell(&c.key.name))).collect();
    assert_eq!(keys[0], ("core".to_string(), "Int".to_string()));
    assert_eq!(keys[keys.len() - 1], ("app.main".to_string(), "Box".to_string()));
    assert_eq!(done.core.option_class, 1);
    assert_eq!(done.core.some_class, 2);
    let roles: Vec<Option<u32>> = list(&done.core_roles).into_iter().map(|r| *r).collect();
    assert_eq!(roles, vec![Some(1), None]);
}

#[test]
fn a_closure_becomes_a_function_behind_the_entry() {
    let closure = expr(ExprKind::Closure { params: Chain::Nil, ret: Some(name_type("Int")), row: Chain::Nil, body: chain(vec![stmt(number(3))]) });
    let done = passes(&module(vec![], vec![], vec![assign("f", closure)]));
    let funcs = list(&done.funcs);
    assert_eq!(funcs.len() as u32, done.entry + 2);
    assert!(same_ty(&funcs[funcs.len() - 1].ret, &Ty::Int));
}

#[test]
fn a_constructor_builds_its_class() {
    let point = class("Point", vec![field("x", "Int", Some(number(1)))], vec![]);
    let done = passes(&module(vec![point], vec![], vec![stmt(call("Point", vec![]))]));
    assert!(matches!(entry_type(&done), Ty::Class(4)));
}

#[test]
fn a_case_over_an_integer_takes_its_arms() {
    let case = expr(ExprKind::Case {
        scrut: number(3),
        arms: chain(vec![
            CaseArm { pattern: Pattern { kind: PatternKind::Int(3), span: at(1) }, body: chain(vec![stmt(number(1))]), span: at(1) },
            CaseArm { pattern: Pattern { kind: PatternKind::Wildcard, span: at(1) }, body: chain(vec![stmt(number(2))]), span: at(1) },
        ]),
    });
    let done = passes(&module(vec![], vec![], vec![stmt(case)]));
    assert!(same_ty(&entry_type(&done), &Ty::Int));
}

#[test]
fn a_list_is_walked_by_index() {
    let each = Stmt {
        kind: StmtKind::For {
            bindings: chain(vec![LoopBinding { name: text("n"), span: at(1) }]),
            value: expr(ExprKind::ListLit(chain(vec![number(1), number(2)]))),
            body: chain(vec![stmt(name("n"))]),
        },
        span: at(1),
    };
    passes(&module(vec![], vec![], vec![each]));
}

#[test]
fn integers_add_to_an_integer() {
    let sum = expr(ExprKind::Binary { op: BinOp::Add, left: number(1), right: number(2) });
    let done = passes(&module(vec![], vec![], vec![stmt(sum)]));
    assert!(same_ty(&entry_type(&done), &Ty::Int));
    let wrong = expr(ExprKind::Binary { op: BinOp::Add, left: number(1), right: expr(ExprKind::Bool(true)) });
    assert_ne!(fails(&module(vec![], vec![], vec![stmt(wrong)])), "");
}

#[test]
fn break_stands_in_a_loop_only() {
    let stray = Stmt { kind: StmtKind::Break(None), span: at(1) };
    assert_ne!(fails(&module(vec![], vec![], vec![stray])), "");
    let inner = Stmt { kind: StmtKind::Break(Some(number(4))), span: at(1) };
    let value = expr(ExprKind::Loop(chain(vec![inner])));
    let done = passes(&module(vec![], vec![], vec![stmt(value)]));
    assert!(same_ty(&entry_type(&done), &Ty::Int));
}

#[test]
fn a_declared_row_names_known_operations() {
    let mut noisy = func("f", vec![], Some("Int"), vec![ret(number(1))]);
    noisy.row = chain(vec![RowItem { name: text("nothing"), span: at(1) }]);
    assert_ne!(fails(&module(vec![], vec![noisy], vec![])), "");
}

#[test]
fn a_module_without_imports_plans_no_tables() {
    let mut source = module(vec![class("Box", vec![], vec![])], vec![func("f", vec![], None, vec![])], vec![]);
    source.uses = Chain::Nil;
    match plan_imports(&source, &options(vec![])) {
        Ok(plan) => {
            assert_eq!(plan.class_start, 5);
            assert_eq!(plan.interface_start, 2);
            assert_eq!(plan.import_funcs, 2);
            assert!(list(&plan.reserves).is_empty());
        },
        Err(_) => panic!("the plan fails"),
    }
}

#[test]
fn an_unknown_root_is_refused() {
    let mut source = module(vec![], vec![], vec![]);
    source.uses = chain(vec![UseDecl { path: chain(vec![text("other"), text("thing")]), span: at(1), name_span: at(1) }]);
    assert_eq!(fails(&source), "E1052");
}

fn code_of_entry(entry: Vec<Stmt>) -> String {
    fails(&module(vec![], vec![], entry))
}

fn labeled(label: &str, value: Expr) -> Expr {
    expr(ExprKind::Labeled { label: text(label), value: value })
}

fn closure(result: Option<&str>, body: Vec<Stmt>) -> Expr {
    let declared = match result {
        Some(ty) => Some(name_type(ty)),
        None => None,
    };
    expr(ExprKind::Closure { params: Chain::Nil, ret: declared, row: Chain::Nil, body: chain(body) })
}

fn sys_call(group: &str, member: &str) -> Expr {
    let root = expr(ExprKind::Field { recv: name("sys"), name: text(group), name_span: at(1) });
    expr(ExprKind::MethodCall { recv: root, name: text(member), name_span: at(1), type_args: Chain::Nil, args: Chain::Nil })
}

fn field_of(recv: Expr, label: &str) -> Expr {
    expr(ExprKind::Field { recv: recv, name: text(label), name_span: at(1) })
}

fn method_of(recv: Expr, label: &str, args: Vec<Expr>) -> Expr {
    expr(ExprKind::MethodCall { recv: recv, name: text(label), name_span: at(1), type_args: Chain::Nil, args: chain(args) })
}

fn parent_clause(label: &str) -> ParentClause {
    ParentClause { name: text(label), args: Chain::Nil, span: at(1) }
}

fn set_self(label: &str, value: Expr) -> Stmt {
    Stmt {
        kind: StmtKind::AssignField { recv: expr(ExprKind::SelfRef), field: text(label), field_span: at(3), value: value },
        span: at(3),
    }
}

/// Check a module against a core that also declares the reply of the
/// clock.
fn check_with_clock(source: &Module) -> Result<HirModule, (String, Diag)> {
    answering(|known| {
        let mut chosen = options(known);
        chosen.image.source.classes = chain(vec![integer_class(), class("Instant", vec![], vec![])]);
        check_module_with(source, &chosen)
    })
}

fn code_with_clock(source: &Module) -> String {
    match check_with_clock(source) {
        Ok(_) => "".to_string(),
        Err((code, _)) => code,
    }
}

#[test]
fn an_operation_needs_the_row_of_its_function() {
    let silent = func("f", vec![], None, vec![stmt(sys_call("clock", "now"))]);
    assert_eq!(code_with_clock(&module(vec![], vec![silent], vec![])), "E1046");
    let mut honest = func("f", vec![], None, vec![stmt(sys_call("clock", "now"))]);
    honest.row = chain(vec![RowItem { name: text("Clock.Now"), span: at(1) }]);
    assert_eq!(code_with_clock(&module(vec![], vec![honest], vec![])), "");
}

#[test]
fn the_entry_collects_its_row() {
    let source = module(vec![], vec![], vec![stmt(sys_call("clock", "now"))]);
    match check_with_clock(&source) {
        Ok(done) => {
            let row = list(&list(&done.funcs)[done.entry as usize].row).len();
            assert_eq!(row, 1);
        },
        Err((code, _)) => panic!("{}", code),
    }
}

#[test]
fn a_closure_captures_what_it_reads() {
    let entry = vec![assign("x", number(1)), assign("f", closure(Some("Int"), vec![stmt(name("x"))]))];
    let done = passes(&module(vec![], vec![], entry));
    let funcs = list(&done.funcs);
    let made = funcs[funcs.len() - 1];
    assert_eq!(list(&made.captures).len(), 1);
    match list(&made.body)[0] {
        HStmt::Expr(value) => assert!(matches!(&*value.kind, HKind::Capture(0))),
        _ => panic!("the closure has no value"),
    }
    match list(&funcs[done.entry as usize].body)[1] {
        HStmt::Assign { slot, value } => {
            assert_eq!(*slot, 1);
            match &*value.kind {
                HKind::MakeClosure { captures, .. } => {
                    assert!(matches!(&*list(captures)[0].kind, HKind::Local(0)));
                },
                _ => panic!("no closure"),
            }
        },
        _ => panic!("no assignment"),
    }
}

#[test]
fn every_slot_of_the_entry_has_a_type() {
    let entry = vec![assign("x", number(1)), assign("y", expr(ExprKind::Bool(true))), stmt(name("y"))];
    let done = passes(&module(vec![], vec![], entry));
    let locals = list(&list(&done.funcs)[done.entry as usize].locals);
    assert_eq!(locals.len(), 2);
    assert!(same_ty(locals[0], &Ty::Int));
    assert!(same_ty(locals[1], &Ty::Bool));
    assert!(matches!(&*last_value(&done).kind, HKind::Local(1)));
}

#[test]
fn a_captured_name_cannot_be_rebound() {
    let inner = closure(None, vec![assign("x", number(2))]);
    assert_eq!(code_of_entry(vec![assign("x", number(1)), assign("f", inner)]), "E1036");
}

#[test]
fn labels_name_parameters() {
    let double = || func("double", vec![param("n", "Int")], Some("Int"), vec![ret(name("n"))]);
    passes(&module(vec![], vec![double()], vec![stmt(call("double", vec![labeled("n", number(4))]))]));
    let wrong = call("double", vec![labeled("m", number(4))]);
    assert_eq!(fails(&module(vec![], vec![double()], vec![stmt(wrong)])), "E1006");
    let many = call("double", vec![number(4), number(5)]);
    assert_eq!(fails(&module(vec![], vec![double()], vec![stmt(many)])), "E1006");
}

#[test]
fn labeled_arguments_take_the_order_of_the_parameters() {
    let pick = func("pick", vec![param("a", "Int"), param("b", "Bool")], Some("Int"), vec![ret(name("a"))]);
    let swapped = call("pick", vec![labeled("b", expr(ExprKind::Bool(true))), labeled("a", number(4))]);
    let done = passes(&module(vec![], vec![pick], vec![stmt(swapped)]));
    match &*last_value(&done).kind {
        HKind::Call { args, .. } => {
            assert!(matches!(&*list(args)[0].kind, HKind::Int(4)));
            assert!(matches!(&*list(args)[1].kind, HKind::Bool(true)));
        },
        _ => panic!("no call"),
    }
}

#[test]
fn a_type_argument_follows_from_the_argument() {
    let same = || {
        let mut found = func("same", vec![param("x", "T")], Some("T"), vec![ret(name("x"))]);
        found.generics = chain(vec![generic("T")]);
        found
    };
    let done = passes(&module(vec![], vec![same()], vec![stmt(call("same", vec![number(3)]))]));
    assert!(same_ty(&entry_type(&done), &Ty::Int));
    let explicit = expr(ExprKind::Call {
        name: text("same"),
        name_span: at(1),
        type_args: chain(vec![name_type("Int"), name_type("Int")]),
        args: chain(vec![number(3)]),
    });
    assert_eq!(fails(&module(vec![], vec![same()], vec![stmt(explicit)])), "E1024");
}

#[test]
fn a_tuple_is_read_by_a_literal_index() {
    let pair = || expr(ExprKind::TupleLit(chain(vec![number(1), expr(ExprKind::Bool(true))])));
    let read = |at: Expr| expr(ExprKind::Index { recv: pair(), index: at });
    let done = passes(&module(vec![], vec![], vec![stmt(read(number(1)))]));
    assert!(same_ty(&entry_type(&done), &Ty::Bool));
    assert_eq!(code_of_entry(vec![stmt(read(number(2)))]), "E1048");
    assert_eq!(code_of_entry(vec![assign("i", number(1)), stmt(read(name("i")))]), "E1048");
}

#[test]
fn statements_stand_where_they_may() {
    assert_eq!(code_of_entry(vec![ret(number(1))]), "E1016");
    assert_eq!(code_of_entry(vec![Stmt { kind: StmtKind::Continue, span: at(1) }]), "E1008");
    let valued = Stmt { kind: StmtKind::Break(Some(number(1))), span: at(1) };
    let endless = Stmt { kind: StmtKind::While { cond: expr(ExprKind::Bool(true)), body: chain(vec![valued]) }, span: at(1) };
    assert_eq!(code_of_entry(vec![endless]), "E1008");
    assert_eq!(code_of_entry(vec![stmt(expr(ExprKind::SelfRef))]), "E1039");
    assert_eq!(code_of_entry(vec![stmt(name("sys"))]), "E1051");
}

#[test]
fn literals_need_a_type() {
    assert_eq!(code_of_entry(vec![stmt(expr(ExprKind::ListLit(Chain::Nil)))]), "E1037");
    assert_eq!(code_of_entry(vec![stmt(expr(ExprKind::MapLit(Chain::Nil)))]), "E1037");
}

#[test]
fn names_resolve_to_values() {
    let boxed = || class("Box", vec![], vec![]);
    assert_eq!(fails(&module(vec![boxed()], vec![], vec![stmt(name("Box"))])), "E1018");
    assert_eq!(code_of_entry(vec![stmt(call("missing", vec![]))]), "E1005");
    assert_eq!(code_of_entry(vec![assign("x", number(1)), stmt(call("x", vec![]))]), "E1032");
    let typed = func("f", vec![param("n", "Nothing")], None, vec![]);
    assert_eq!(fails(&module(vec![], vec![typed], vec![])), "E1013");
}

#[test]
fn members_belong_to_their_class() {
    let point = || class("Point", vec![field("x", "Int", Some(number(1)))], vec![]);
    let made = || call("Point", vec![]);
    let read = passes(&module(vec![point()], vec![], vec![stmt(field_of(made(), "x"))]));
    assert!(same_ty(&entry_type(&read), &Ty::Int));
    assert_eq!(fails(&module(vec![point()], vec![], vec![stmt(field_of(made(), "y"))])), "E1025");
    assert_eq!(fails(&module(vec![point()], vec![], vec![stmt(method_of(made(), "go", vec![]))])), "E1026");
    assert_eq!(code_of_entry(vec![stmt(field_of(expr(ExprKind::Bool(true)), "x"))]), "E1027");
}

#[test]
fn an_initializer_reads_what_it_has_assigned() {
    let fields = || vec![field("x", "Int", None), field("y", "Int", None)];
    let fine = vec![set_self("x", number(1)), set_self("y", field_of(expr(ExprKind::SelfRef), "x"))];
    passes(&module(vec![class("P", fields(), vec![initializer(fine)])], vec![], vec![]));
    let early = vec![set_self("y", field_of(expr(ExprKind::SelfRef), "x")), set_self("x", number(1))];
    assert_eq!(fails(&module(vec![class("P", fields(), vec![initializer(early)])], vec![], vec![])), "E1028");
    let half = vec![set_self("x", number(1))];
    assert_eq!(fails(&module(vec![class("P", fields(), vec![initializer(half)])], vec![], vec![])), "E1028");
    let escapes = vec![assign("me", expr(ExprKind::SelfRef)), set_self("x", number(1)), set_self("y", number(1))];
    assert_eq!(fails(&module(vec![class("P", fields(), vec![initializer(escapes)])], vec![], vec![])), "E1029");
}

#[test]
fn a_branch_must_assign_what_the_other_assigns() {
    let cond = |body: Vec<Stmt>, other: Vec<Stmt>| {
        stmt(expr(ExprKind::If {
            branches: chain(vec![IfArm { cond: expr(ExprKind::Bool(true)), body: chain(body) }]),
            else_body: Some(chain(other)),
        }))
    };
    let fields = || vec![field("x", "Int", None)];
    let both = vec![cond(vec![set_self("x", number(1))], vec![set_self("x", number(2))])];
    passes(&module(vec![class("P", fields(), vec![initializer(both)])], vec![], vec![]));
    let one = vec![cond(vec![set_self("x", number(1))], vec![])];
    assert_eq!(fails(&module(vec![class("P", fields(), vec![initializer(one)])], vec![], vec![])), "E1028");
}

#[test]
fn classes_inherit_once_and_in_order() {
    let child = |parent: &str| {
        let mut found = class("Child", vec![], vec![]);
        found.parent = Some(parent_clause(parent));
        found
    };
    passes(&module(vec![class("Base", vec![], vec![]), child("Base")], vec![], vec![]));
    assert_eq!(fails(&module(vec![child("Base"), class("Base", vec![], vec![])], vec![], vec![])), "E1038");
    assert_eq!(fails(&module(vec![child("Nobody")], vec![], vec![])), "E1038");
    let mut sealed = class("Base", vec![], vec![]);
    sealed.is_final = true;
    assert_eq!(fails(&module(vec![sealed, child("Base")], vec![], vec![])), "E1040");
}

#[test]
fn an_override_keeps_its_parameters() {
    let base = || class("Base", vec![], vec![method("go", vec![param("n", "Int")], Some("Int"), vec![ret(name("n"))])]);
    let child = |ty: &str| {
        let mut found = class("Child", vec![], vec![method("go", vec![param("n", ty)], Some("Int"), vec![ret(number(1))])]);
        found.parent = Some(parent_clause("Base"));
        found
    };
    passes(&module(vec![base(), child("Int")], vec![], vec![]));
    assert_eq!(fails(&module(vec![base(), child("Bool")], vec![], vec![])), "E1031");
}

#[test]
fn a_class_names_each_member_once() {
    let twice = class("P", vec![field("x", "Int", Some(number(1))), field("x", "Int", Some(number(2)))], vec![]);
    assert_eq!(fails(&module(vec![twice], vec![], vec![])), "E1038");
    let bare = class("P", vec![field("x", "Int", None)], vec![]);
    assert_eq!(fails(&module(vec![bare], vec![], vec![])), "E1038");
}

#[test]
fn values_of_other_types_do_not_compare() {
    let compare = |left: Expr, right: Expr| expr(ExprKind::Binary { op: BinOp::Eq, left: left, right: right });
    assert_ne!(code_of_entry(vec![stmt(compare(number(1), expr(ExprKind::Bool(true))))]), "");
    let test = expr(ExprKind::Is { value: number(1), ty: name_type("Bool") });
    assert_eq!(code_of_entry(vec![stmt(test)]), "E1047");
}

#[test]
fn loops_bind_what_they_walk() {
    let walk = |names: Vec<&str>| Stmt {
        kind: StmtKind::For {
            bindings: chain(names.into_iter().map(|n| LoopBinding { name: text(n), span: at(1) }).collect()),
            value: expr(ExprKind::ListLit(chain(vec![number(1), number(2)]))),
            body: Chain::Nil,
        },
        span: at(1),
    };
    passes(&module(vec![], vec![], vec![walk(vec!["n"])]));
    assert_eq!(code_of_entry(vec![walk(vec!["n", "m"])]), "E1054");
}

#[test]
fn a_select_needs_two_arms() {
    assert_eq!(code_of_entry(vec![stmt(expr(ExprKind::Select(Chain::Nil)))]), "E1062");
}

#[test]
fn two_uses_of_one_name_are_refused() {
    let line = || UseDecl { path: chain(vec![text("sys"), text("clock")]), span: at(1), name_span: at(1) };
    let mut once = module(vec![], vec![], vec![]);
    once.uses = chain(vec![line()]);
    passes(&once);
    let mut twice = module(vec![], vec![], vec![]);
    twice.uses = chain(vec![line(), line()]);
    assert_eq!(fails(&twice), "E1052");
}

#[test]
fn module_functions_keep_the_first_indices() {
    let f = func("f", vec![], Some("Int"), vec![ret(number(1))]);
    let g = func("g", vec![], Some("Int"), vec![ret(number(2))]);
    let done = passes(&module(vec![class("Box", vec![], vec![])], vec![f, g], vec![]));
    let names: Vec<String> = list(&done.funcs).into_iter().take(2).map(|f| spell(&f.name)).collect();
    assert_eq!(names, vec!["f".to_string(), "g".to_string()]);
}

#[test]
fn a_question_carries_the_class_tables() {
    let source = module(vec![class("Box", vec![], vec![])], vec![], vec![]);
    let double = func("double", vec![param("n", "Int")], Some("Int"), vec![ret(name("n"))]);
    let asking = module(vec![class("Box", vec![], vec![])], vec![double], vec![]);
    let mut answered: Vec<Known> = Vec::new();
    passes(&source);
    loop {
        let known: Vec<Known> = answered.iter().map(|k| Known { query: k.query.clone(), answer: k.answer.clone() }).collect();
        match check_module_with(&asking, &options(known)) {
            Ok(_) => break,
            Err(Halt::Source(Stop::Ask(asked))) => {
                let names: Vec<String> = list(&asked.metas).into_iter().map(|m| spell(&m.name)).collect();
                assert_eq!(names[0], "Int");
                assert_eq!(names[names.len() - 1], "Box");
                assert_eq!(list(&asked.shapes).len(), names.len());
                let arms: Vec<u32> = list(&list(&asked.shapes)[2].arms).into_iter().map(|a| *a).collect();
                assert_eq!(arms, vec![2, 3]);
                assert_eq!(list(&asked.shapes)[2].fields, 1);
                let found = answer(&asked.query);
                answered.push(Known { query: asked.query, answer: found });
            },
            Err(Halt::Core(Stop::Ask(asked))) => {
                let found = answer(&asked.query);
                answered.push(Known { query: asked.query, answer: found });
            },
            Err(_) => panic!("the module does not check"),
        }
    }
}

#[test]
fn a_call_of_a_closure_needs_its_row() {
    let noisy = || {
        let row = chain(vec![RowItem { name: text("Clock.Now"), span: at(1) }]);
        expr(ExprKind::Closure { params: Chain::Nil, ret: None, row: row, body: chain(vec![stmt(sys_call("clock", "now"))]) })
    };
    let body = || vec![assign("f", noisy()), stmt(call("f", vec![]))];
    let silent = func("g", vec![], None, body());
    assert_eq!(code_with_clock(&module(vec![], vec![silent], vec![])), "E1046");
    let unused = func("g", vec![], None, vec![assign("f", noisy())]);
    assert_eq!(code_with_clock(&module(vec![], vec![unused], vec![])), "");
    let mut honest = func("g", vec![], None, body());
    honest.row = chain(vec![RowItem { name: text("Clock.Now"), span: at(1) }]);
    assert_eq!(code_with_clock(&module(vec![], vec![honest], vec![])), "");
}

#[test]
fn a_call_of_a_function_needs_its_row() {
    let clock = || chain(vec![RowItem { name: text("Clock.Now"), span: at(1) }]);
    let noisy = || {
        let mut found = func("noisy", vec![], None, vec![stmt(sys_call("clock", "now"))]);
        found.row = clock();
        found
    };
    let silent = func("g", vec![], None, vec![stmt(call("noisy", vec![]))]);
    assert_eq!(code_with_clock(&module(vec![], vec![noisy(), silent], vec![])), "E1046");
    let mut honest = func("g", vec![], None, vec![stmt(call("noisy", vec![]))]);
    honest.row = clock();
    assert_eq!(code_with_clock(&module(vec![], vec![noisy(), honest], vec![])), "");
}

#[test]
fn a_call_of_a_method_needs_its_row() {
    let clock = || chain(vec![RowItem { name: text("Clock.Now"), span: at(1) }]);
    let timer = || {
        let mut tick = method("tick", vec![], None, vec![stmt(sys_call("clock", "now"))]);
        tick.row = clock();
        class("Timer", vec![], vec![tick])
    };
    let body = || vec![stmt(method_of(call("Timer", vec![]), "tick", vec![]))];
    let silent = func("g", vec![], None, body());
    assert_eq!(code_with_clock(&module(vec![timer()], vec![silent], vec![])), "E1046");
    let mut honest = func("g", vec![], None, body());
    honest.row = clock();
    assert_eq!(code_with_clock(&module(vec![timer()], vec![honest], vec![])), "");
}

#[test]
fn a_constructor_needs_the_row_of_its_initializer() {
    let clock = || chain(vec![RowItem { name: text("Clock.Now"), span: at(1) }]);
    let timer = || {
        let mut made = initializer(vec![stmt(sys_call("clock", "now"))]);
        made.row = clock();
        class("Timer", vec![], vec![made])
    };
    let silent = func("g", vec![], None, vec![stmt(call("Timer", vec![]))]);
    assert_eq!(code_with_clock(&module(vec![timer()], vec![silent], vec![])), "E1046");
    let mut honest = func("g", vec![], None, vec![stmt(call("Timer", vec![]))]);
    honest.row = clock();
    assert_eq!(code_with_clock(&module(vec![timer()], vec![honest], vec![])), "");
}

/// Check a module against a core with one more enum, with or without the
/// prelude.
fn check_with_modes(source: &Module, prelude: bool) -> Result<HirModule, (String, Diag)> {
    answering(|known| {
        let mut chosen = options(known);
        let enums = std::mem::replace(&mut chosen.image.source.enums, Chain::Nil);
        chosen.image.source.enums = Chain::Cons(
            Box::new(EnumDef {
                name: text("FileAccess"),
                name_span: at(1),
                generics: Chain::Nil,
                interfaces: Chain::Nil,
                associated: Chain::Nil,
                arms: chain(vec![arm("ReadOnly", vec![]), arm("Sealed", vec![])]),
                methods: Chain::Nil,
                span: at(1),
            }),
            Box::new(enums),
        );
        chosen.prelude = prelude;
        check_module_with(source, &chosen)
    })
}

#[test]
fn a_prelude_constructor_names_any_core_enum() {
    let source = module(vec![], vec![], vec![stmt(name("ReadOnly"))]);
    match check_with_modes(&source, true) {
        Ok(done) => {
            assert!(matches!(entry_type(&done), Ty::Class(1)));
            assert!(matches!(&*last_value(&done).kind, HKind::Construct { class: 2, .. }));
        },
        Err((code, _)) => panic!("{}", code),
    }
    assert!(check_with_modes(&source, false).is_err());
    let unlisted = module(vec![], vec![], vec![stmt(name("Sealed"))]);
    assert!(check_with_modes(&unlisted, true).is_err());
}

#[test]
fn the_prelude_moves_no_index() {
    let source = module(vec![class("Box", vec![], vec![])], vec![], vec![]);
    let mut chosen = options(vec![]);
    let with = plan_imports(&source, &chosen);
    chosen.prelude = false;
    match (with, plan_imports(&source, &chosen)) {
        (Ok(a), Ok(b)) => {
            assert_eq!((a.class_start, a.interface_start), (5, 2));
            assert_eq!((b.class_start, b.interface_start), (5, 2));
            assert_eq!(a.import_funcs, b.import_funcs);
        },
        _ => panic!("a plan fails"),
    }
}

/// The codes of a check that answers the coverage questions by a rule on
/// the work that is left, and the limits that it was asked with.
fn weigh(source: &Module, spent: u64) -> (String, Vec<u64>) {
    let mut limits: Vec<u64> = Vec::new();
    let mut answered: Vec<(Query, Answer)> = Vec::new();
    loop {
        let known: Vec<Known> = answered.iter().map(|(q, a)| Known { query: q.clone(), answer: a.clone() }).collect();
        match check_module_with(source, &options(known)) {
            Ok(_) => return ("".to_string(), limits),
            Err(Halt::Source(Stop::Ask(asked))) | Err(Halt::Core(Stop::Ask(asked))) => {
                let found = match &asked.query {
                    Query::Useful(rows, _, budget) => {
                        limits.push(*budget);
                        if *budget < spent {
                            Answer::OverBudget
                        } else {
                            Answer::Weighed(!list(rows).into_iter().any(|row| matches!(row, APat::Wild)), budget - spent)
                        }
                    },
                    other => answer(other),
                };
                answered.push((asked.query, found));
            },
            Err(Halt::Source(Stop::Fail(diag))) => return (spell(&diag.problem.code()), limits),
            Err(_) => panic!("the core does not check"),
        }
    }
}

#[test]
fn the_arms_of_a_case_share_one_work_limit() {
    let numbered = |value: i64| CaseArm {
        pattern: Pattern { kind: PatternKind::Int(value), span: at(1) },
        body: chain(vec![stmt(number(value))]),
        span: at(1),
    };
    let rest = CaseArm { pattern: Pattern { kind: PatternKind::Wildcard, span: at(1) }, body: chain(vec![stmt(number(0))]), span: at(1) };
    let case = expr(ExprKind::Case { scrut: number(3), arms: chain(vec![numbered(1), numbered(2), rest]) });
    let source = module(vec![], vec![], vec![stmt(case)]);
    assert_eq!(weigh(&source, 300000), ("".to_string(), vec![1000000, 700000, 400000]));
    assert_eq!(weigh(&source, 400000), ("E1049".to_string(), vec![1000000, 600000, 200000]));
    assert_eq!(weigh(&source, 600000), ("E1049".to_string(), vec![1000000, 400000]));
}

#[test]
fn the_first_field_without_a_value_is_named() {
    let fields = || vec![field("x", "Int", None), field("y", "Int", None), field("z", "Int", None)];
    let wrong = class("Point", fields(), vec![initializer(vec![set_self("x", number(1))])]);
    match check(&module(vec![wrong], vec![], vec![])) {
        Err((code, diag)) => {
            assert_eq!(code, "E1028");
            assert!(is_text(&diag.subject, "y"));
        },
        Ok(_) => panic!("the initializer passes"),
    }
}

#[test]
fn a_missing_super_initializer_comes_before_a_missing_field() {
    let base = class("Base", vec![field("x", "Int", None)], vec![initializer(vec![set_self("x", number(1))])]);
    let mut derived = class("Derived", vec![field("y", "Int", None)], vec![initializer(vec![])]);
    derived.parent = Some(parent_clause("Base"));
    assert_eq!(fails(&module(vec![base, derived], vec![], vec![])), "E1030");
}

#[test]
fn each_field_of_a_class_has_a_default_entry() {
    let base = class("Base", vec![field("a", "Int", Some(number(1))), field("b", "Int", Some(number(2)))], vec![]);
    let mut derived = class("Derived", vec![field("c", "Int", Some(number(3)))], vec![]);
    derived.parent = Some(parent_clause("Base"));
    let done = passes(&module(vec![base, derived], vec![], vec![]));
    let classes = list(&done.classes);
    for found in classes.iter() {
        assert_eq!(list(&found.defaults).len(), list(&found.field_names).len());
    }
    assert_eq!(list(&classes[classes.len() - 2].defaults).len(), 2);
    assert_eq!(list(&classes[classes.len() - 1].defaults).len(), 3);
}

/// Check a module where a change of a walked value has one answer. Gives
/// the code and how many walked values the questions name.
fn guarded(source: &Module, changes: Answer) -> (String, Vec<usize>) {
    let mut walked: Vec<usize> = Vec::new();
    let mut answered: Vec<(Query, Answer)> = Vec::new();
    loop {
        let known: Vec<Known> = answered.iter().map(|(q, a)| Known { query: q.clone(), answer: a.clone() }).collect();
        match check_module_with(source, &options(known)) {
            Ok(_) => return ("".to_string(), walked),
            Err(Halt::Source(Stop::Ask(asked))) | Err(Halt::Core(Stop::Ask(asked))) => {
                let found = match &asked.query {
                    Query::Changes(values, _) => {
                        walked.push(list(values).len());
                        changes.clone()
                    },
                    other => answer(other),
                };
                answered.push((asked.query, found));
            },
            Err(Halt::Source(Stop::Fail(diag))) => return (spell(&diag.problem.code()), walked),
            Err(_) => panic!("the core does not check"),
        }
    }
}

fn walk(label: &str, value: Expr, body: Vec<Stmt>) -> Stmt {
    Stmt {
        kind: StmtKind::For {
            bindings: chain(vec![LoopBinding { name: text(label), span: at(1) }]),
            value: value,
            body: chain(body),
        },
        span: at(1),
    }
}

fn set_x(target: &str) -> Stmt {
    Stmt {
        kind: StmtKind::AssignField { recv: name(target), field: text("x"), field_span: at(3), value: number(2) },
        span: at(3),
    }
}

#[test]
fn a_loop_body_leaves_what_the_loop_walks() {
    let point = || class("Point", vec![field("x", "Int", Some(number(1)))], vec![]);
    let numbers = || expr(ExprKind::ListLit(chain(vec![number(1), number(2)])));
    let source = |body: Vec<Stmt>| {
        let mut target = param("p", "Point");
        target.mutable = true;
        module(vec![point()], vec![func("f", vec![target], Some("Int"), body)], vec![])
    };
    let inside = || source(vec![walk("n", numbers(), vec![set_x("p")]), ret(number(1))]);
    let nested = || source(vec![walk("n", numbers(), vec![walk("m", numbers(), vec![set_x("p")])]), ret(number(1))]);
    let outside = source(vec![walk("n", numbers(), vec![]), set_x("p"), ret(number(1))]);
    assert_eq!(guarded(&inside(), Answer::No), ("".to_string(), vec![1]));
    assert_eq!(guarded(&inside(), Answer::Refused(text("E1120"))), ("E1120".to_string(), vec![1]));
    assert_eq!(guarded(&nested(), Answer::Refused(text("E1120"))), ("E1120".to_string(), vec![2]));
    assert_eq!(guarded(&outside, Answer::Refused(text("E1120"))), ("".to_string(), vec![]));
}

#[test]
fn a_text_is_walked_without_a_character_class() {
    let each = walk("c", expr(ExprKind::Str(text("ab"))), vec![assign("d", name("c"))]);
    let done = passes(&module(vec![], vec![], vec![each]));
    let entry = list(&done.funcs).into_iter().last().map(|found| list(&found.locals).into_iter().filter(|ty| same_ty(ty, &Ty::Int)).count());
    assert!(entry.unwrap_or(0) >= 2);
}

#[test]
fn an_open_type_parameter_is_named() {
    let mut made = func("made", vec![], Some("Int"), vec![ret(number(1))]);
    made.generics = chain(vec![generic("T")]);
    match check(&module(vec![], vec![made], vec![stmt(call("made", vec![]))])) {
        Err((code, diag)) => {
            assert_eq!(code, "E1045");
            assert_eq!(spell(&diag.subject), "made");
            match &diag.problem {
                Problem::CannotInfer { parameter } => assert_eq!(spell(parameter), "T"),
                _ => panic!("another problem"),
            }
        },
        Ok(_) => panic!("the module checks"),
    }
}

#[test]
fn a_long_text_keeps_its_characters() {
    let long: String = "loom".repeat(1500);
    let done = passes(&module(vec![], vec![], vec![stmt(expr(ExprKind::Str(text(&long))))]));
    match &*last_value(&done).kind {
        HKind::Str(found) => assert!(spell(found) == long),
        _ => panic!("another value"),
    }
}
