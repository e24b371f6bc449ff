use lm_hir::abi::{AbiType, Bundle, ControlSlots, GroupDef, OpDef};
use lm_hir::ast::{Expr, ExprKind, Module, Span, Stmt, StmtKind, UseDecl};
use lm_hir::chain::Chain;
use lm_hir::demand::CoreDemand;
use lm_hir::names::{camel_member, core_native_repr, interface_default_binding, is_prelude_type, snake_member, tuple_core_arity};
use lm_hir::context::NativeRepr;
use lm_hir::rows::{add_all, canonical_row};
use lm_hir::state::MapKeyUse;
use lm_hir::text::{text, Text};
use lm_hir::types::RowElem;

fn chain<T>(items: Vec<T>) -> Chain<T> {
    let mut out: Chain<T> = Chain::Nil;
    for item in items.into_iter().rev() {
        out = Chain::Cons(Box::new(item), Box::new(out));
    }
    out
}

fn list<T>(items: &Chain<T>) -> Vec<&T> {
    let mut out: Vec<&T> = Vec::new();
    let mut rest = items;
    while let Chain::Cons(head, tail) = rest {
        out.push(head);
        rest = tail;
    }
    out
}

fn spell(name: &Text) -> String {
    list(name).into_iter().collect()
}

fn at(lo: u32) -> Span {
    Span { lo: lo, hi: lo + 1 }
}

fn no_slots() -> ControlSlots {
    ControlSlots {
        vm_new: 0,
        vm_snapshot_self: 0,
        vm_from_fn: 0,
        vm_snapshot_wait_held: 0,
        vm_drive_for: 0,
        vm_run: 0,
        vm_step: 0,
        vm_drive: 0,
        vm_drive_wait: 0,
        vm_snapshot_held: 0,
        vm_restore: 0,
        vm_table: 0,
        vm_handles: 0,
        vm_resource: 0,
        vm_serve_file: 0,
        vm_answer: 0,
        vm_reject: 0,
        vm_dispatch: 0,
        vm_resource_is_open: 0,
        vm_resource_close: 0,
        vm_resource_kind: 0,
        vm_resource_same: 0,
        wait_wait: 0,
        wait_choose: 0,
        wait_cancel: 0,
        proc_recv: 0,
        proc_recv_wait: 0,
        proc_run: 0,
        proc_spawn: 0,
        proc_send: 0,
        proc_close: 0,
        proc_done: 0,
        proc_snapshot_wait: 0,
        proc_pause: 0,
        proc_resume: 0,
        fs_open: 0,
        fs_read: 0,
        fs_write: 0,
        fs_seek: 0,
        fs_flush: 0,
        fs_close: 0,
    }
}

fn bundle() -> Bundle {
    Bundle {
        groups: chain(vec![GroupDef { surface: text("clock"), name: text("Clock"), row: 10 }]),
        ops: chain(vec![OpDef {
            group: text("Clock"),
            member: text("Now"),
            fixed: true,
            params: Chain::Nil,
            reply: AbiType::Core(text("Instant")),
            row: 11,
        }]),
        intrinsics: Chain::Nil,
        slots: no_slots(),
    }
}

fn expr(kind: ExprKind) -> Expr {
    Expr { kind: Box::new(kind), span: at(1) }
}

fn module(uses: Vec<UseDecl>, entry: Vec<Expr>) -> Module {
    Module {
        uses: chain(uses),
        interfaces: Chain::Nil,
        classes: Chain::Nil,
        enums: Chain::Nil,
        funcs: Chain::Nil,
        entry: chain(entry.into_iter().map(|e| Stmt { kind: StmtKind::Expr(e), span: at(1) }).collect()),
    }
}

fn demanded(demand: &CoreDemand) -> Vec<String> {
    let mut names: Vec<String> = list(&demand.names).into_iter().map(|n| spell(n)).collect();
    names.sort();
    names
}

#[test]
fn every_keyed_map_method_has_one_use() {
    for name in ["has", "at", "get", "put", "remove"] {
        assert!(MapKeyUse::for_method(name).is_some(), "{}", name);
    }
    for name in ["len", "clear", "reserve", "keys_list"] {
        assert!(MapKeyUse::for_method(name).is_none(), "{}", name);
    }
}

#[test]
fn member_names_change_case_and_back() {
    assert_eq!(spell(&camel_member(&text("snapshot_self"))), "SnapshotSelf");
    assert_eq!(spell(&snake_member(&text("SnapshotSelf"))), "snapshot_self");
    assert_eq!(spell(&snake_member(&camel_member(&text("open")))), "open");
}

#[test]
fn tuple_classes_have_an_arity() {
    assert_eq!(tuple_core_arity(&text("Tuple2")), Some(2));
    assert_eq!(tuple_core_arity(&text("Tuple16")), Some(16));
    assert_eq!(tuple_core_arity(&text("Tuple1")), None);
    assert_eq!(tuple_core_arity(&text("Tuple17")), None);
    assert_eq!(tuple_core_arity(&text("List")), None);
}

#[test]
fn core_classes_have_a_representation() {
    assert_eq!(core_native_repr(&text("Int")), Some(NativeRepr::Int));
    assert_eq!(core_native_repr(&text("Tuple3")), Some(NativeRepr::Tuple(3)));
    assert_eq!(core_native_repr(&text("Nothing")), None);
}

#[test]
fn the_prelude_names_types() {
    assert!(is_prelude_type(&text("Option")));
    assert!(!is_prelude_type(&text("Unheard")));
}

#[test]
fn an_interface_default_has_a_hidden_name() {
    let name = spell(&interface_default_binding(&text("Show"), &text("line")));
    assert!(name.contains("Show"));
    assert!(name.contains("line"));
}

#[test]
fn a_canonical_row_is_sorted_and_unique() {
    let row = chain(vec![RowElem::Var(0), RowElem::Op(3), RowElem::Op(1), RowElem::Op(3)]);
    let plain: Vec<RowElem> = list(&canonical_row(&row)).into_iter().map(|e| *e).collect();
    assert_eq!(plain, vec![RowElem::Op(1), RowElem::Op(3), RowElem::Var(0)]);
    let more = chain(vec![RowElem::Op(2)]);
    let both: Vec<RowElem> = list(&add_all(canonical_row(&row), &more)).into_iter().map(|e| *e).collect();
    assert_eq!(both, vec![RowElem::Op(1), RowElem::Op(2), RowElem::Op(3), RowElem::Var(0)]);
}

#[test]
fn an_empty_module_demands_two_interfaces() {
    let demand = CoreDemand::for_module(&module(vec![], vec![]), &bundle());
    assert_eq!(demanded(&demand), vec!["Hashable".to_string(), "PartialEq".to_string()]);
    assert!(list(&demand.methods).is_empty());
    assert!(list(&demand.sys_groups).is_empty());
    assert!(list(&demand.sys_members).is_empty());
}

#[test]
fn a_use_of_the_system_binds_a_name() {
    let line = |parts: Vec<&str>| UseDecl { path: chain(parts.into_iter().map(|p| text(p)).collect()), span: at(1), name_span: at(1) };
    let member = CoreDemand::for_module(&module(vec![line(vec!["sys", "clock", "now"])], vec![]), &bundle());
    let members: Vec<(String, String)> = list(&member.sys_members).into_iter().map(|a| (spell(&a.name), spell(&a.group))).collect();
    assert_eq!(members, vec![("now".to_string(), "Clock".to_string())]);
    assert!(list(&member.sys_groups).is_empty());
    let group = CoreDemand::for_module(&module(vec![line(vec!["sys", "clock"])], vec![]), &bundle());
    let groups: Vec<(String, String)> = list(&group.sys_groups).into_iter().map(|a| (spell(&a.name), spell(&a.group))).collect();
    assert_eq!(groups, vec![("clock".to_string(), "Clock".to_string())]);
    assert!(list(&group.sys_members).is_empty());
}

#[test]
fn an_operator_demands_its_method() {
    let negated = expr(ExprKind::Neg(expr(ExprKind::Int(1))));
    let demand = CoreDemand::for_module(&module(vec![], vec![negated]), &bundle());
    let methods: Vec<String> = list(&demand.methods).into_iter().map(|n| spell(n)).collect();
    assert_eq!(methods, vec!["__neg__".to_string()]);
}

#[test]
fn a_tuple_demands_its_class() {
    let pair = expr(ExprKind::TupleLit(chain(vec![expr(ExprKind::Int(1)), expr(ExprKind::Str(text("a")))])));
    let demand = CoreDemand::for_module(&module(vec![], vec![pair]), &bundle());
    let names = demanded(&demand);
    assert!(names.contains(&"Tuple2".to_string()));
    assert!(names.contains(&"String".to_string()));
    assert!(!names.contains(&"Tuple3".to_string()));
}

#[test]
fn a_bound_member_demands_the_types_of_its_operation() {
    let path = chain(vec![text("sys"), text("clock"), text("now")]);
    let line = UseDecl { path: path, span: at(1), name_span: at(1) };
    let demand = CoreDemand::for_module(&module(vec![line], vec![]), &bundle());
    assert!(demanded(&demand).contains(&"Instant".to_string()));
}

#[test]
fn a_native_method_demands_what_its_result_names() {
    let mut demand = CoreDemand { names: Chain::Nil, methods: Chain::Nil, sys_groups: Chain::Nil, sys_members: Chain::Nil };
    demand.add_native_method_surface(&text("restore"));
    assert_eq!(demanded(&demand), vec!["RestoreError".to_string(), "Result".to_string()]);
    demand.add_native_method_surface(&text("unheard"));
    demand.add_native_method_surface(&text("restore"));
    assert_eq!(demanded(&demand).len(), 2);
    demand.add_tuple(2);
    demand.add_tuple(17);
    demand.add_names(&["Recv", "Result"]);
    assert_eq!(demanded(&demand), vec!["Recv".to_string(), "RestoreError".to_string(), "Result".to_string(), "Tuple2".to_string()]);
}

#[test]
fn the_surfaces_name_their_types() {
    let mut demand = CoreDemand { names: Chain::Nil, methods: Chain::Nil, sys_groups: Chain::Nil, sys_members: Chain::Nil };
    demand.add_proc_surface();
    assert_eq!(demanded(&demand).len(), 7);
    demand.add_vm_surface();
    assert_eq!(demanded(&demand).len(), 32);
}
