//! Where a checked program stands: every slot that it names is a slot of
//! its function, every capture is one of its captures, and the row of its
//! function covers every operation that it performs and the row of every
//! callable that it calls.

use vstd::prelude::*;
use crate::ast::{BinOp, Module, Span};
use crate::chain::{chain_of, Chain};
use crate::context::{BoundMethod, Ctx, InterfaceUse, MethodFound, TyEnv};
use crate::hir::{HArm, HEntry, HExpr, HForKind, HIfArm, HKind, HPart, HPattern, HReflectArm, HStmt, HirFunc, TableAction, TargetKind};
use crate::laws::lists::law_concat;
use crate::laws::rows::elements;
use crate::model::answers::row_included;
use crate::model::assembly::{order_funcs, take_made};
use crate::model::blocks::restart_pass;
use crate::model::bodies::bind_parameters;
use crate::model::branches::{gather_arms, gather_branches, pair_arms, pair_branches, refinement_of};
use crate::model::conform::{associated_bounds, bound_method, bound_method_in, copied_bounds, find_method_owner, lookup_method, premise_bounds, variable_bounds};
use crate::model::exprs::{capture_types, capture_values, local_types, pair_entries, param_locals, param_scope, resolved_items};
use crate::model::keeps::{extends, kept};
use crate::model::lists::{append, concat, cons, count, find_id, find_literal, nth, one, skip, three, two};
use crate::model::lookup::{class_at, class_of, find_arm, find_method, interface_at, meta_at, own_method, sig_at};
use crate::model::modules::{core_source, declare_module, empty_module, first_output};
use crate::model::scope::{bind_name, hexpr, hidden_local, local_mutable, local_ty, lookup_slot, name_expr, self_value, set_slot, slot_in, slot_in_scopes};
use crate::model::rows::{row_has_var, substitute_row};
use crate::model::system::{exact_target, group_target, hook_name};
use crate::problem::Stop;
use crate::program::{CheckOptions, FieldDefault, HirModule};
use crate::state::{ArmOut, BranchOut, Callee, CapSource, CaptureRec, CheckedBody, Checker, CtorState, LocalVar, MadeFunc, NameRes, Refinement, ScopeEntry, Target};
use crate::text::Text;
use crate::types::{Row, RowElem, Ty};

verus! {

/// What a body stands on: the number of slots and captures of its
/// function, and the row that the function declares or collects.
pub struct Room {
    pub cx: Ctx,
    pub locals: nat,
    pub captures: nat,
    pub row: Set<RowElem>,
}

/// What a callable under check gives its body.
#[verifier::opaque]
pub open spec fn room(cx: &Ctx, st: Checker) -> Room {
    Room { cx: *cx, locals: st.locals@.len(), captures: st.captures@.len(), row: elements(st.declared_row) }
}

/// Whether a body that stands on one room stands on another.
#[verifier::opaque]
pub open spec fn widens(a: Room, b: Room) -> bool {
    &&& a.cx == b.cx
    &&& a.locals <= b.locals
    &&& a.captures <= b.captures
    &&& a.row.subset_of(b.row)
}

/// Whether a row covers another: it is known to hold it, or it has all
/// its elements.
pub open spec fn row_covered(cx: &Ctx, needed: Row, row: Row) -> bool {
    ||| row_included(cx, &needed, &row) == Ok::<bool, Stop>(true)
    ||| elements(needed).subset_of(elements(row))
}

/// Whether the row of the function covers another row through a part of
/// its elements.
pub open spec fn row_within(room: Room, part: Row, needed: Row) -> bool {
    elements(part).subset_of(room.row) && row_covered(&room.cx, needed, part)
}

/// Whether the row of the function covers another row.
pub open spec fn row_in(room: Room, needed: Row) -> bool {
    exists|part: Row| #[trigger] row_within(room, part, needed)
}

/// Whether the row of the function covers an operation.
pub open spec fn covered(room: Room, op: u32) -> bool {
    match nth(&room.cx.bundle.ops, op) {
        None => false,
        Some(def) => row_in(room, one(RowElem::Op(def.row))),
    }
}

/// The row of a function type.
pub open spec fn row_of_type(ty: Ty) -> Option<Row> {
    match ty {
        Ty::Fn(_, _, _, row) => Some(row),
        Ty::Callback(_, _, _, row) => Some(row),
        _ => None,
    }
}

/// The operation of an operation type.
pub open spec fn op_of_type(ty: Ty) -> Option<u32> {
    match ty {
        Ty::Op(op, _) => Some(op),
        _ => None,
    }
}

/// Whether the row of the function covers what a call of a value of one
/// type may perform.
pub open spec fn call_covered(room: Room, ty: Ty) -> bool {
    &&& row_of_type(ty) matches Some(row) ==> row_in(room, row)
    &&& op_of_type(ty) matches Some(op) ==> covered(room, op)
}

/// Whether the module names a function by an index.
pub open spec fn named_func(cx: &Ctx, func: u32) -> bool {
    exists|name: Text| #[trigger] find_id(&cx.func_index, &name) == Some(func)
}

/// Whether a class declares a method that has one index and one row.
pub open spec fn has_method(cx: &Ctx, class: u32, name: Text, func: u32, row: Row) -> bool {
    own_method(&class_at(cx, class).methods, &name) matches Some(method) && method.func == func && method.row == row
}

/// Whether a class declares an initializer that has one index and one
/// row.
pub open spec fn has_init(cx: &Ctx, class: u32, func: u32, row: Row) -> bool {
    class_at(cx, class).init matches Some(init) && init.func == func && init.row == row
}

/// Whether a function of the module, a method or an initializer has one
/// index and declares one row.
pub open spec fn declares_row(cx: &Ctx, func: u32, row: Row) -> bool {
    ||| named_func(cx, func) && sig_at(cx, func).row == row
    ||| exists|class: u32, name: Text| has_method(cx, class, name, func, row)
    ||| exists|class: u32| has_init(cx, class, func, row)
}

/// Whether a core class holds the operators of a primitive type.
pub open spec fn primitive_name(name: &str) -> bool {
    name@ == "Int"@ || name@ == "Bool"@ || name@ == "String"@ || name@ == "Bytes"@
}

/// Whether a method name is that of an operator.
pub open spec fn operator_name(name: &str) -> bool {
    ||| exists|op: BinOp| #[trigger] hook_name(op)@ == name@
    ||| name@ == "__neg__"@
    ||| name@ == "__invert__"@
    ||| name@ == "__not__"@
}

/// The index of the method of a core class.
pub open spec fn core_method(cx: &Ctx, class_name: &str, name: &str) -> Option<u32> {
    match find_literal(&cx.core_types, class_name) {
        None => None,
        Some(class) => match own_method(&class_at(cx, class).methods, &chain_of(name@)) {
            None => None,
            Some(method) => Some(method.func),
        },
    }
}

/// Whether an index is that of an operator of a primitive type, which a
/// body calls at no charge.
pub open spec fn is_operator(cx: &Ctx, func: u32) -> bool {
    exists|class_name: &str, name: &str|
        primitive_name(class_name) && operator_name(name) && #[trigger] core_method(cx, class_name, name) == Some(func)
}

/// Whether the row of the function covers the row of a called function,
/// method or initializer, under the effect arguments of the call. The
/// operators of the primitive types are free.
#[verifier::opaque]
pub open spec fn callee_covered(room: Room, func: u32, rowargs: Chain<Row>) -> bool {
    ||| rowargs is Nil && is_operator(&room.cx, func)
    ||| exists|row: Row| #[trigger] declares_row(&room.cx, func, row)
        && (row_in(room, substitute_row(&row, &rowargs)) || (rowargs is Nil && row_in(room, row)))
}

/// Whether the row of the function covers the row of the method that a
/// class answers a name with.
#[verifier::opaque]
pub open spec fn method_covered(room: Room, ty: Ty, name: Text, rowargs: Chain<Row>) -> bool {
    &&& class_of(&room.cx, &ty) matches Some(nominal)
    &&& find_method_owner(&room.cx, nominal.class, &name) matches Some(found)
    &&& row_in(room, substitute_row(&found.sig.row, &rowargs))
}

/// Whether effect arguments end in those of the method itself, behind
/// those of its interface.
pub open spec fn ends_in(rows: Chain<Row>, outer: u32, own: Chain<Row>) -> bool {
    own is Nil || own == skip(rows, outer)
}

/// Whether the row of the function covers the row that an interface
/// requires of a method, under the effect arguments of the interface and
/// of the call.
#[verifier::opaque]
pub open spec fn requirement_covered(room: Room, interface: u32, method: u32, own: Chain<Row>) -> bool {
    let info = interface_at(&room.cx, interface);
    &&& nth(&info.methods, method) matches Some(required)
    &&& (!row_has_var(&required.row) && row_in(room, required.row)) || (exists|rows: Chain<Row>|
        ends_in(rows, count(&info.effect_params), own) && row_in(room, #[trigger] substitute_row(&required.row, &rows)))
}

/// Whether a class is an arm of an enum.
pub open spec fn is_arm(cx: &Ctx, class: u32) -> bool {
    exists|family: u32, name: Text| #[trigger] find_arm(cx, family, &name) == Some(class)
}

/// Whether the row of the function covers the row of the initializer
/// that makes an instance. An arm of an enum has none.
#[verifier::opaque]
pub open spec fn construct_covered(room: Room, class: u32) -> bool {
    ||| is_arm(&room.cx, class)
    ||| class_at(&room.cx, class).init is None
    ||| exists|rows: Chain<Row>| row_in(room, #[trigger] substitute_row(&class_at(&room.cx, class).init->0.row, &rows))
}

/// Whether the manifest names a policy target.
pub open spec fn names_target(cx: &Ctx, target: Target) -> bool {
    ||| exists|name: Text| #[trigger] group_target(&cx.bundle.groups, &name, 0) == Some(target)
    ||| exists|group: Text, member: Text| #[trigger] exact_target(&cx.bundle.ops, &group, &member, 0) == Some(target)
}

/// Whether the row of the function covers a policy target that it grants.
#[verifier::opaque]
pub open spec fn grant_covered(room: Room, kind: TargetKind, slot: u32) -> bool {
    exists|row: u32| #[trigger] names_target(&room.cx, (Target { kind, slot, row })) && row_in(room, one(RowElem::Op(row)))
}

/// Whether the row of the function covers the spawning of a process and
/// the row of its body.
#[verifier::opaque]
pub open spec fn spawn_covered(room: Room, class: u32, body: u32) -> bool {
    &&& covered(room, room.cx.bundle.slots.proc_spawn)
    &&& find_method_owner(&room.cx, class, &chain_of("on_spawn"@)) matches Some(found)
    &&& found.sig.func == body
    &&& row_in(room, found.sig.row)
}

/// Whether a method is the one that the class of a type answers a name
/// with.
pub open spec fn answers(cx: &Ctx, ty: Ty, class: u32, name: Text, found: MethodFound) -> bool {
    &&& class_of(cx, &ty) matches Some(nominal)
    &&& nominal.class == class
    &&& find_method_owner(cx, class, &name) == Some(found)
}

/// Whether a bound or a default answers with a method of its interface.
pub open spec fn of_interface(cx: &Ctx, found: BoundMethod) -> bool {
    nth(&interface_at(cx, found.interface).methods, found.method) == Some(&found.sig)
}

/// Whether a slot is a slot of the function.
pub open spec fn has_slot(room: Room, slot: u32) -> bool {
    slot < room.locals
}

/// Whether a scope names slots of the function.
pub open spec fn scope_in(room: Room, scope: Chain<ScopeEntry>) -> bool {
    scope_ok(scope, room.locals)
}

pub broadcast proof fn lemma_widens_same(a: Room)
    ensures
        #[trigger] widens(a, a),
{
    reveal(widens);
}

pub broadcast proof fn lemma_widens_further(a: Room, b: Room, c: Room)
    requires
        #[trigger] widens(a, b),
        #[trigger] widens(b, c),
    ensures
        widens(a, c),
{
    reveal(widens);
}

pub broadcast proof fn lemma_slot_widens(a: Room, b: Room, slot: u32)
    requires
        #[trigger] widens(a, b),
        #[trigger] has_slot(a, slot),
    ensures
        has_slot(b, slot),
{
    reveal(widens);
}

pub broadcast proof fn lemma_opt_slot_widens(a: Room, b: Room, slot: Option<u32>)
    requires
        #[trigger] widens(a, b),
        #[trigger] slot_ok(a, slot),
    ensures
        slot_ok(b, slot),
{
    reveal(widens);
}

pub broadcast proof fn lemma_scope_widens(a: Room, b: Room, scope: Chain<ScopeEntry>)
    requires
        #[trigger] widens(a, b),
        #[trigger] scope_in(a, scope),
    ensures
        scope_in(b, scope),
{
    reveal(widens);
    lemma_scope_below(scope, a.locals, b.locals);
}

pub broadcast proof fn lemma_name_widens(a: Room, b: Room, found: NameRes)
    requires
        #[trigger] widens(a, b),
        #[trigger] name_ok(a, found),
    ensures
        name_ok(b, found),
{
    reveal(widens);
}

pub broadcast proof fn lemma_refinement_widens(a: Room, b: Room, found: Option<Refinement>)
    requires
        #[trigger] widens(a, b),
        #[trigger] refinement_ok(a, found),
    ensures
        refinement_ok(b, found),
{
    reveal(widens);
}

/// Whether a slot, where there is one, is a slot of the function.
pub open spec fn slot_ok(room: Room, slot: Option<u32>) -> bool {
    match slot {
        None => true,
        Some(found) => found < room.locals,
    }
}

/// Whether every slot of a list is a slot of the function.
pub open spec fn slots_ok(room: Room, slots: Chain<u32>) -> bool
    decreases slots,
{
    match slots {
        Chain::Nil => true,
        Chain::Cons(head, tail) => *head < room.locals && slots_ok(room, *tail),
    }
}

/// Whether every slot that a pattern binds is a slot of the function.
pub open spec fn pattern_ok(room: Room, pattern: HPattern) -> bool
    decreases pattern,
{
    match pattern {
        HPattern::Bind(slot) => slot < room.locals,
        HPattern::Tuple { elems, .. } => patterns_ok(room, elems),
        HPattern::Ctor { args, .. } => patterns_ok(room, args),
        HPattern::Project { inner, .. } => pattern_ok(room, *inner),
        HPattern::And(parts) => patterns_ok(room, parts),
        _ => true,
    }
}

pub open spec fn patterns_ok(room: Room, items: Chain<HPattern>) -> bool
    decreases items,
{
    match items {
        Chain::Nil => true,
        Chain::Cons(head, tail) => pattern_ok(room, *head) && patterns_ok(room, *tail),
    }
}

/// Whether an expression stands on its function.
pub closed spec fn expr_ok(room: Room, expr: HExpr) -> bool
    decreases expr,
{
    match *expr.kind {
        HKind::Local(slot) => slot < room.locals,
        HKind::Capture(at) => at < room.captures,
        HKind::Perform { op, args } => covered(room, op) && exprs_ok(room, args),
        HKind::Interp(parts) => parts_ok(room, parts),
        HKind::MakeClosure { captures, .. } => exprs_ok(room, captures),
        HKind::Call { func, rowargs, args, .. } => callee_covered(room, func, rowargs) && exprs_ok(room, args),
        HKind::CallValue { callee, args } => {
            call_covered(room, callee.ty) && expr_ok(room, callee) && exprs_ok(room, args)
        },
        HKind::MethodCall { recv, selector, own_rowargs, args, .. } => {
            method_covered(room, recv.ty, selector, own_rowargs) && expr_ok(room, recv) && exprs_ok(room, args)
        },
        HKind::InterfaceCall { recv, interface, method, own_rowargs, args, .. } => {
            &&& requirement_covered(room, interface, method, own_rowargs)
            &&& expr_ok(room, recv)
            &&& exprs_ok(room, args)
        },
        HKind::Construct { class, args, .. } => construct_covered(room, class) && exprs_ok(room, args),
        HKind::Native { args, .. } => exprs_ok(room, args),
        HKind::Intrinsic { args, .. } => exprs_ok(room, args),
        HKind::And(left, right) => expr_ok(room, left) && expr_ok(room, right),
        HKind::Or(left, right) => expr_ok(room, left) && expr_ok(room, right),
        HKind::Binary { left, right, .. } => expr_ok(room, left) && expr_ok(room, right),
        HKind::IsType { value, .. } => expr_ok(room, value),
        HKind::CastType { value, .. } => expr_ok(room, value),
        HKind::FieldGet { recv, .. } => expr_ok(room, recv),
        HKind::TupleLit(items) => exprs_ok(room, items),
        HKind::ListLit(items) => exprs_ok(room, items),
        HKind::MapLit(entries) => entries_ok(room, entries),
        HKind::TupleGet { tuple, .. } => expr_ok(room, tuple),
        HKind::If { branches, else_body } => {
            branches_ok(room, branches) && (else_body matches Some(body) ==> stmts_ok(room, body))
        },
        HKind::Case { scrut, scrut_slot, arms } => {
            expr_ok(room, scrut) && scrut_slot < room.locals && arms_ok(room, arms)
        },
        HKind::ReflectCase { scrut, scrut_slot, refined, fallback } => {
            expr_ok(room, scrut) && scrut_slot < room.locals && refined_ok(room, refined) && stmts_ok(room, fallback)
        },
        HKind::Loop { body, result_slot } => stmts_ok(room, body) && slot_ok(room, result_slot),
        HKind::TableEdit { action, target, entry, table, mock } => {
            &&& action == TableAction::Pass ==> grant_covered(room, target, entry)
            &&& expr_ok(room, table)
            &&& mock matches Some(value) ==> expr_ok(room, value)
        },
        HKind::CallArgs(value) => expr_ok(room, value),
        HKind::RequestOpName(value) => expr_ok(room, value),
        HKind::FaultCodeGet(value) => expr_ok(room, value),
        HKind::FaultDenied(value) => expr_ok(room, value),
        HKind::Spawn { class, body, args, .. } => spawn_covered(room, class, body) && exprs_ok(room, args),
        _ => true,
    }
}

pub open spec fn opt_expr_ok(room: Room, item: Option<HExpr>) -> bool {
    match item {
        None => true,
        Some(found) => expr_ok(room, found),
    }
}

pub closed spec fn exprs_ok(room: Room, items: Chain<HExpr>) -> bool
    decreases items,
{
    match items {
        Chain::Nil => true,
        Chain::Cons(head, tail) => expr_ok(room, *head) && exprs_ok(room, *tail),
    }
}

pub closed spec fn parts_ok(room: Room, items: Chain<HPart>) -> bool
    decreases items,
{
    match items {
        Chain::Nil => true,
        Chain::Cons(head, tail) => (*head matches HPart::Value(value) ==> expr_ok(room, value)) && parts_ok(room, *tail),
    }
}

pub closed spec fn entries_ok(room: Room, items: Chain<HEntry>) -> bool
    decreases items,
{
    match items {
        Chain::Nil => true,
        Chain::Cons(head, tail) => expr_ok(room, head.key) && expr_ok(room, head.value) && entries_ok(room, *tail),
    }
}

pub closed spec fn branches_ok(room: Room, items: Chain<HIfArm>) -> bool
    decreases items,
{
    match items {
        Chain::Nil => true,
        Chain::Cons(head, tail) => expr_ok(room, head.cond) && stmts_ok(room, head.body) && branches_ok(room, *tail),
    }
}

pub closed spec fn arms_ok(room: Room, items: Chain<HArm>) -> bool
    decreases items,
{
    match items {
        Chain::Nil => true,
        Chain::Cons(head, tail) => pattern_ok(room, head.pattern) && stmts_ok(room, head.body) && arms_ok(room, *tail),
    }
}

pub closed spec fn refined_ok(room: Room, items: Chain<HReflectArm>) -> bool
    decreases items,
{
    match items {
        Chain::Nil => true,
        Chain::Cons(head, tail) => slot_ok(room, head.binding) && stmts_ok(room, head.body) && refined_ok(room, *tail),
    }
}

pub closed spec fn stmts_ok(room: Room, items: Chain<HStmt>) -> bool
    decreases items,
{
    match items {
        Chain::Nil => true,
        Chain::Cons(head, tail) => stmt_ok(room, *head) && stmts_ok(room, *tail),
    }
}

/// Whether a statement stands on its function.
pub closed spec fn stmt_ok(room: Room, stmt: HStmt) -> bool
    decreases stmt,
{
    match stmt {
        HStmt::Assign { slot, value } => slot < room.locals && expr_ok(room, value),
        HStmt::AssignField { recv, value, .. } => expr_ok(room, recv) && expr_ok(room, value),
        HStmt::While { cond, body } => expr_ok(room, cond) && stmts_ok(room, body),
        HStmt::For { source, bindings, kind, body } => {
            expr_ok(room, source) && slots_ok(room, bindings) && kind_ok(room, kind) && stmts_ok(room, body)
        },
        HStmt::Return(value) => value matches Some(found) ==> expr_ok(room, found),
        HStmt::Break(value) => value matches Some(found) ==> expr_ok(room, found),
        HStmt::Continue => true,
        HStmt::Expr(value) => expr_ok(room, value),
    }
}

pub closed spec fn kind_ok(room: Room, kind: HForKind) -> bool
    decreases kind,
{
    match kind {
        HForKind::List { source_slot, index_slot, epoch_slot, .. } => {
            source_slot < room.locals && index_slot < room.locals && epoch_slot < room.locals
        },
        HForKind::Entries { source_slot, index_slot, epoch_slot, .. } => {
            source_slot < room.locals && index_slot < room.locals && epoch_slot < room.locals
        },
        HForKind::Chars { source_slot, cursor_slot, .. } => source_slot < room.locals && cursor_slot < room.locals,
        HForKind::Range { source_slot, cursor_slot, stop_slot } => {
            source_slot < room.locals && cursor_slot < room.locals && stop_slot < room.locals
        },
        HForKind::Generic { source_slot, iterator_slot, option_slot, item_slot, iterator, next, .. } => {
            &&& source_slot < room.locals
            &&& iterator_slot < room.locals
            &&& option_slot < room.locals
            &&& slot_ok(room, item_slot)
            &&& expr_ok(room, iterator)
            &&& expr_ok(room, next)
        },
    }
}

pub broadcast proof fn lemma_row_widens(a: Room, b: Room, needed: Row)
    requires
        #[trigger] widens(a, b),
        #[trigger] row_in(a, needed),
    ensures
        row_in(b, needed),
{
    reveal(widens);
    let part = choose|part: Row| #[trigger] row_within(a, part, needed);
    assert(row_within(b, part, needed));
}

pub broadcast proof fn lemma_covered_widens(a: Room, b: Room, op: u32)
    requires
        #[trigger] widens(a, b),
        #[trigger] covered(a, op),
    ensures
        covered(b, op),
{
    reveal(widens);
    match nth(&a.cx.bundle.ops, op) {
        Some(def) => lemma_row_widens(a, b, one(RowElem::Op(def.row))),
        None => {},
    }
}

pub broadcast proof fn lemma_room_tables(cx: &Ctx, st: Checker)
    ensures
        (#[trigger] room(cx, st)).cx == *cx,
{
    reveal(room);
}

proof fn lemma_callee_widens(a: Room, b: Room, func: u32, rowargs: Chain<Row>)
    requires
        widens(a, b),
        callee_covered(a, func, rowargs),
    ensures
        callee_covered(b, func, rowargs),
{
    reveal(widens);
    reveal(callee_covered);
    if !(rowargs is Nil && is_operator(&a.cx, func)) {
        let row = choose|row: Row| #[trigger] declares_row(&a.cx, func, row)
            && (row_in(a, substitute_row(&row, &rowargs)) || (rowargs is Nil && row_in(a, row)));
        if row_in(a, substitute_row(&row, &rowargs)) {
            lemma_row_widens(a, b, substitute_row(&row, &rowargs));
        } else {
            lemma_row_widens(a, b, row);
        }
        assert(declares_row(&b.cx, func, row));
    }
}

proof fn lemma_method_widens(a: Room, b: Room, ty: Ty, name: Text, rowargs: Chain<Row>)
    requires
        widens(a, b),
        method_covered(a, ty, name, rowargs),
    ensures
        method_covered(b, ty, name, rowargs),
{
    reveal(widens);
    reveal(method_covered);
    let nominal = class_of(&a.cx, &ty)->0;
    let found = find_method_owner(&a.cx, nominal.class, &name)->0;
    lemma_row_widens(a, b, substitute_row(&found.sig.row, &rowargs));
}

proof fn lemma_requirement_widens(a: Room, b: Room, interface: u32, method: u32, own: Chain<Row>)
    requires
        widens(a, b),
        requirement_covered(a, interface, method, own),
    ensures
        requirement_covered(b, interface, method, own),
{
    reveal(widens);
    reveal(requirement_covered);
    let info = interface_at(&a.cx, interface);
    let required = nth(&info.methods, method)->0;
    if !row_has_var(&required.row) && row_in(a, required.row) {
        lemma_row_widens(a, b, required.row);
    } else {
        let rows = choose|rows: Chain<Row>|
            ends_in(rows, count(&info.effect_params), own) && row_in(a, #[trigger] substitute_row(&required.row, &rows));
        lemma_row_widens(a, b, substitute_row(&required.row, &rows));
    }
}

proof fn lemma_construct_widens(a: Room, b: Room, class: u32)
    requires
        widens(a, b),
        construct_covered(a, class),
    ensures
        construct_covered(b, class),
{
    reveal(widens);
    reveal(construct_covered);
    if !is_arm(&a.cx, class) && class_at(&a.cx, class).init is Some {
        let row = class_at(&a.cx, class).init->0.row;
        let rows = choose|rows: Chain<Row>| row_in(a, #[trigger] substitute_row(&row, &rows));
        lemma_row_widens(a, b, substitute_row(&row, &rows));
    }
}

proof fn lemma_grant_widens(a: Room, b: Room, kind: TargetKind, slot: u32)
    requires
        widens(a, b),
        grant_covered(a, kind, slot),
    ensures
        grant_covered(b, kind, slot),
{
    reveal(widens);
    reveal(grant_covered);
    let row = choose|row: u32|
        #[trigger] names_target(&a.cx, (Target { kind, slot, row })) && row_in(a, one(RowElem::Op(row)));
    lemma_row_widens(a, b, one(RowElem::Op(row)));
    assert(names_target(&b.cx, (Target { kind, slot, row })));
}

proof fn lemma_spawn_widens(a: Room, b: Room, class: u32, body: u32)
    requires
        widens(a, b),
        spawn_covered(a, class, body),
    ensures
        spawn_covered(b, class, body),
{
    reveal(widens);
    reveal(spawn_covered);
    lemma_covered_widens(a, b, a.cx.bundle.slots.proc_spawn);
    lemma_row_widens(a, b, find_method_owner(&a.cx, class, &chain_of("on_spawn"@))->0.sig.row);
}

/// What a class chain answers a name with has the index and the row of
/// the declaration.
pub proof fn lemma_lookup_row(cx: &Ctx, start: u32, args: Chain<Ty>, arity: u32, name: Text)
    ensures
        lookup_method(cx, start, args, arity, &name) matches Some(found)
            ==> declares_row(cx, found.sig.func, found.sig.row),
    decreases start,
{
    match own_method(&class_at(cx, start).methods, &name) {
        Some(sig) => {
            assert(has_method(cx, start, name, sig.func, sig.row));
        },
        None => {
            match meta_at(cx, start).parent {
                None => {},
                Some(parent) => {
                    if parent < start {
                        lemma_lookup_row(cx, parent, meta_at(cx, start).parent_args, arity, name);
                    }
                },
            }
        },
    }
}

proof fn lemma_bound_in(cx: &Ctx, applications: Chain<InterfaceUse>, found: Option<BoundMethod>, name: Text, span: Span)
    requires
        found matches Some(first) ==> of_interface(cx, first),
    ensures
        bound_method_in(cx, &applications, found, &name, span) matches Ok(Some(last)) ==> of_interface(cx, last),
    decreases applications,
{
    match applications {
        Chain::Nil => {},
        Chain::Cons(head, tail) => {
            let contract = interface_at(cx, head.interface);
            lemma_bound_in(cx, *tail, found, name, span);
            if let Some(method) = find_method(&contract.methods, &name) {
                if let Some(requirement) = nth(&contract.methods, method) {
                    let candidate = BoundMethod { application: *head, interface: head.interface, method, sig: *requirement };
                    lemma_bound_in(cx, *tail, Some(candidate), name, span);
                }
            }
        },
    }
}

/// A bound answers a name with a method of its interface.
pub proof fn lemma_bound_method(cx: &Ctx, env: TyEnv, ty: Ty, name: Text, span: Span)
    ensures
        bound_method(cx, &env, &ty, &name, span) matches Ok(Some(found)) ==> of_interface(cx, found),
{
    match ty {
        Ty::Var(index) => {
            let applications = concat(copied_bounds(variable_bounds(&env, index)), premise_bounds(&env.extra_bounds, &ty));
            lemma_bound_in(cx, applications, None, name, span);
        },
        Ty::Projection(_, interface, assoc) => {
            let applications = concat(copied_bounds(associated_bounds(cx, interface, assoc)), premise_bounds(&env.extra_bounds, &ty));
            lemma_bound_in(cx, applications, None, name, span);
        },
        _ => {},
    }
}

pub broadcast proof fn lemma_call_widens(a: Room, b: Room, ty: Ty)
    requires
        #[trigger] widens(a, b),
        #[trigger] call_covered(a, ty),
    ensures
        call_covered(b, ty),
{
    reveal(widens);
    match ty {
        Ty::Fn(_, _, _, row) => lemma_row_widens(a, b, row),
        Ty::Callback(_, _, _, row) => lemma_row_widens(a, b, row),
        Ty::Op(op, _) => lemma_covered_widens(a, b, op),
        _ => {},
    }
}

pub broadcast proof fn lemma_slots_widens(a: Room, b: Room, slots: Chain<u32>)
    requires
        #[trigger] widens(a, b),
        #[trigger] slots_ok(a, slots),
    ensures
        slots_ok(b, slots),
    decreases slots,
{
    reveal(widens);
    match slots {
        Chain::Nil => {},
        Chain::Cons(_, tail) => lemma_slots_widens(a, b, *tail),
    }
}

pub broadcast proof fn lemma_pattern_widens(a: Room, b: Room, pattern: HPattern)
    requires
        #[trigger] widens(a, b),
        #[trigger] pattern_ok(a, pattern),
    ensures
        pattern_ok(b, pattern),
    decreases pattern,
{
    reveal(widens);
    match pattern {
        HPattern::Tuple { elems, .. } => lemma_patterns_widens(a, b, elems),
        HPattern::Ctor { args, .. } => lemma_patterns_widens(a, b, args),
        HPattern::Project { inner, .. } => lemma_pattern_widens(a, b, *inner),
        HPattern::And(parts) => lemma_patterns_widens(a, b, parts),
        _ => {},
    }
}

pub broadcast proof fn lemma_patterns_widens(a: Room, b: Room, items: Chain<HPattern>)
    requires
        #[trigger] widens(a, b),
        #[trigger] patterns_ok(a, items),
    ensures
        patterns_ok(b, items),
    decreases items,
{
    reveal(widens);
    match items {
        Chain::Nil => {},
        Chain::Cons(head, tail) => {
            lemma_pattern_widens(a, b, *head);
            lemma_patterns_widens(a, b, *tail);
        },
    }
}

pub broadcast proof fn lemma_expr_widens(a: Room, b: Room, expr: HExpr)
    requires
        #[trigger] widens(a, b),
        #[trigger] expr_ok(a, expr),
    ensures
        expr_ok(b, expr),
    decreases expr,
{
    reveal(widens);
    match *expr.kind {
        HKind::Perform { op, args } => {
            lemma_covered_widens(a, b, op);
            lemma_exprs_widens(a, b, args);
        },
        HKind::Interp(parts) => lemma_parts_widens(a, b, parts),
        HKind::MakeClosure { captures, .. } => lemma_exprs_widens(a, b, captures),
        HKind::Call { func, rowargs, args, .. } => {
            lemma_callee_widens(a, b, func, rowargs);
            lemma_exprs_widens(a, b, args);
        },
        HKind::CallValue { callee, args } => {
            lemma_call_widens(a, b, callee.ty);
            lemma_expr_widens(a, b, callee);
            lemma_exprs_widens(a, b, args);
        },
        HKind::MethodCall { recv, selector, own_rowargs, args, .. } => {
            lemma_method_widens(a, b, recv.ty, selector, own_rowargs);
            lemma_expr_widens(a, b, recv);
            lemma_exprs_widens(a, b, args);
        },
        HKind::InterfaceCall { recv, interface, method, own_rowargs, args, .. } => {
            lemma_requirement_widens(a, b, interface, method, own_rowargs);
            lemma_expr_widens(a, b, recv);
            lemma_exprs_widens(a, b, args);
        },
        HKind::Construct { class, args, .. } => {
            lemma_construct_widens(a, b, class);
            lemma_exprs_widens(a, b, args);
        },
        HKind::Native { args, .. } => lemma_exprs_widens(a, b, args),
        HKind::Intrinsic { args, .. } => lemma_exprs_widens(a, b, args),
        HKind::And(left, right) => {
            lemma_expr_widens(a, b, left);
            lemma_expr_widens(a, b, right);
        },
        HKind::Or(left, right) => {
            lemma_expr_widens(a, b, left);
            lemma_expr_widens(a, b, right);
        },
        HKind::Binary { left, right, .. } => {
            lemma_expr_widens(a, b, left);
            lemma_expr_widens(a, b, right);
        },
        HKind::IsType { value, .. } => lemma_expr_widens(a, b, value),
        HKind::CastType { value, .. } => lemma_expr_widens(a, b, value),
        HKind::FieldGet { recv, .. } => lemma_expr_widens(a, b, recv),
        HKind::TupleLit(items) => lemma_exprs_widens(a, b, items),
        HKind::ListLit(items) => lemma_exprs_widens(a, b, items),
        HKind::MapLit(entries) => lemma_entries_widens(a, b, entries),
        HKind::TupleGet { tuple, .. } => lemma_expr_widens(a, b, tuple),
        HKind::If { branches, else_body } => {
            lemma_branches_widens(a, b, branches);
            match else_body {
                Some(body) => lemma_stmts_widens(a, b, body),
                None => {},
            }
        },
        HKind::Case { scrut, arms, .. } => {
            lemma_expr_widens(a, b, scrut);
            lemma_arms_widens(a, b, arms);
        },
        HKind::ReflectCase { scrut, refined, fallback, .. } => {
            lemma_expr_widens(a, b, scrut);
            lemma_refined_widens(a, b, refined);
            lemma_stmts_widens(a, b, fallback);
        },
        HKind::Loop { body, .. } => lemma_stmts_widens(a, b, body),
        HKind::TableEdit { action, target, entry, table, mock } => {
            if action == TableAction::Pass {
                lemma_grant_widens(a, b, target, entry);
            }
            lemma_expr_widens(a, b, table);
            match mock {
                Some(value) => lemma_expr_widens(a, b, value),
                None => {},
            }
        },
        HKind::CallArgs(value) => lemma_expr_widens(a, b, value),
        HKind::RequestOpName(value) => lemma_expr_widens(a, b, value),
        HKind::FaultCodeGet(value) => lemma_expr_widens(a, b, value),
        HKind::FaultDenied(value) => lemma_expr_widens(a, b, value),
        HKind::Spawn { class, body, args, .. } => {
            lemma_spawn_widens(a, b, class, body);
            lemma_exprs_widens(a, b, args);
        },
        _ => {},
    }
}


pub broadcast proof fn lemma_exprs_widens(a: Room, b: Room, items: Chain<HExpr>)
    requires
        #[trigger] widens(a, b),
        #[trigger] exprs_ok(a, items),
    ensures
        exprs_ok(b, items),
    decreases items,
{
    reveal(widens);
    match items {
        Chain::Nil => {},
        Chain::Cons(head, tail) => {
            lemma_expr_widens(a, b, *head);
            lemma_exprs_widens(a, b, *tail);
        },
    }
}

pub broadcast proof fn lemma_parts_widens(a: Room, b: Room, items: Chain<HPart>)
    requires
        #[trigger] widens(a, b),
        #[trigger] parts_ok(a, items),
    ensures
        parts_ok(b, items),
    decreases items,
{
    reveal(widens);
    match items {
        Chain::Nil => {},
        Chain::Cons(head, tail) => {
            match *head {
                HPart::Value(value) => lemma_expr_widens(a, b, value),
                _ => {},
            }
            lemma_parts_widens(a, b, *tail);
        },
    }
}

pub broadcast proof fn lemma_entries_widens(a: Room, b: Room, items: Chain<HEntry>)
    requires
        #[trigger] widens(a, b),
        #[trigger] entries_ok(a, items),
    ensures
        entries_ok(b, items),
    decreases items,
{
    reveal(widens);
    match items {
        Chain::Nil => {},
        Chain::Cons(head, tail) => {
            lemma_expr_widens(a, b, head.key);
            lemma_expr_widens(a, b, head.value);
            lemma_entries_widens(a, b, *tail);
        },
    }
}

pub broadcast proof fn lemma_branches_widens(a: Room, b: Room, items: Chain<HIfArm>)
    requires
        #[trigger] widens(a, b),
        #[trigger] branches_ok(a, items),
    ensures
        branches_ok(b, items),
    decreases items,
{
    reveal(widens);
    match items {
        Chain::Nil => {},
        Chain::Cons(head, tail) => {
            lemma_expr_widens(a, b, head.cond);
            lemma_stmts_widens(a, b, head.body);
            lemma_branches_widens(a, b, *tail);
        },
    }
}

pub broadcast proof fn lemma_arms_widens(a: Room, b: Room, items: Chain<HArm>)
    requires
        #[trigger] widens(a, b),
        #[trigger] arms_ok(a, items),
    ensures
        arms_ok(b, items),
    decreases items,
{
    reveal(widens);
    match items {
        Chain::Nil => {},
        Chain::Cons(head, tail) => {
            lemma_pattern_widens(a, b, head.pattern);
            lemma_stmts_widens(a, b, head.body);
            lemma_arms_widens(a, b, *tail);
        },
    }
}

pub broadcast proof fn lemma_refined_widens(a: Room, b: Room, items: Chain<HReflectArm>)
    requires
        #[trigger] widens(a, b),
        #[trigger] refined_ok(a, items),
    ensures
        refined_ok(b, items),
    decreases items,
{
    reveal(widens);
    match items {
        Chain::Nil => {},
        Chain::Cons(head, tail) => {
            lemma_stmts_widens(a, b, head.body);
            lemma_refined_widens(a, b, *tail);
        },
    }
}

pub broadcast proof fn lemma_stmts_widens(a: Room, b: Room, items: Chain<HStmt>)
    requires
        #[trigger] widens(a, b),
        #[trigger] stmts_ok(a, items),
    ensures
        stmts_ok(b, items),
    decreases items,
{
    reveal(widens);
    match items {
        Chain::Nil => {},
        Chain::Cons(head, tail) => {
            lemma_stmt_widens(a, b, *head);
            lemma_stmts_widens(a, b, *tail);
        },
    }
}

pub broadcast proof fn lemma_stmt_widens(a: Room, b: Room, stmt: HStmt)
    requires
        #[trigger] widens(a, b),
        #[trigger] stmt_ok(a, stmt),
    ensures
        stmt_ok(b, stmt),
    decreases stmt,
{
    reveal(widens);
    match stmt {
        HStmt::Assign { value, .. } => lemma_expr_widens(a, b, value),
        HStmt::AssignField { recv, value, .. } => {
            lemma_expr_widens(a, b, recv);
            lemma_expr_widens(a, b, value);
        },
        HStmt::While { cond, body } => {
            lemma_expr_widens(a, b, cond);
            lemma_stmts_widens(a, b, body);
        },
        HStmt::For { source, bindings, kind, body } => {
            lemma_expr_widens(a, b, source);
            lemma_slots_widens(a, b, bindings);
            lemma_kind_widens(a, b, kind);
            lemma_stmts_widens(a, b, body);
        },
        HStmt::Return(Some(value)) => lemma_expr_widens(a, b, value),
        HStmt::Break(Some(value)) => lemma_expr_widens(a, b, value),
        HStmt::Expr(value) => lemma_expr_widens(a, b, value),
        _ => {},
    }
}

pub broadcast proof fn lemma_kind_widens(a: Room, b: Room, kind: HForKind)
    requires
        #[trigger] widens(a, b),
        #[trigger] kind_ok(a, kind),
    ensures
        kind_ok(b, kind),
    decreases kind,
{
    reveal(widens);
    match kind {
        HForKind::Generic { iterator, next, .. } => {
            lemma_expr_widens(a, b, iterator);
            lemma_expr_widens(a, b, next);
        },
        _ => {},
    }
}

pub broadcast proof fn lemma_exprs_none(room: Room)
    ensures
        #[trigger] exprs_ok(room, Chain::Nil),
{
}

pub broadcast proof fn lemma_exprs_cons(room: Room, x: HExpr, items: Chain<HExpr>)
    ensures
        #[trigger] exprs_ok(room, cons(x, items)) == (expr_ok(room, x) && exprs_ok(room, items)),
{
}

pub broadcast proof fn lemma_parts_none(room: Room)
    ensures
        #[trigger] parts_ok(room, Chain::Nil),
{
}

pub broadcast proof fn lemma_parts_cons(room: Room, x: HPart, items: Chain<HPart>)
    ensures
        #[trigger] parts_ok(room, cons(x, items)) == ((x matches HPart::Value(value) ==> expr_ok(room, value)) && parts_ok(room, items)),
{
}

pub broadcast proof fn lemma_entries_none(room: Room)
    ensures
        #[trigger] entries_ok(room, Chain::Nil),
{
}

pub broadcast proof fn lemma_entries_cons(room: Room, x: HEntry, items: Chain<HEntry>)
    ensures
        #[trigger] entries_ok(room, cons(x, items)) == (expr_ok(room, x.key) && expr_ok(room, x.value) && entries_ok(room, items)),
{
}

pub broadcast proof fn lemma_branches_none(room: Room)
    ensures
        #[trigger] branches_ok(room, Chain::Nil),
{
}

pub broadcast proof fn lemma_branches_cons(room: Room, x: HIfArm, items: Chain<HIfArm>)
    ensures
        #[trigger] branches_ok(room, cons(x, items)) == (expr_ok(room, x.cond) && stmts_ok(room, x.body) && branches_ok(room, items)),
{
}

pub broadcast proof fn lemma_arms_none(room: Room)
    ensures
        #[trigger] arms_ok(room, Chain::Nil),
{
}

pub broadcast proof fn lemma_arms_cons(room: Room, x: HArm, items: Chain<HArm>)
    ensures
        #[trigger] arms_ok(room, cons(x, items)) == (pattern_ok(room, x.pattern) && stmts_ok(room, x.body) && arms_ok(room, items)),
{
}

pub broadcast proof fn lemma_refined_none(room: Room)
    ensures
        #[trigger] refined_ok(room, Chain::Nil),
{
}

pub broadcast proof fn lemma_refined_cons(room: Room, x: HReflectArm, items: Chain<HReflectArm>)
    ensures
        #[trigger] refined_ok(room, cons(x, items)) == (slot_ok(room, x.binding) && stmts_ok(room, x.body) && refined_ok(room, items)),
{
}

pub broadcast proof fn lemma_stmts_none(room: Room)
    ensures
        #[trigger] stmts_ok(room, Chain::Nil),
{
}

pub broadcast proof fn lemma_stmts_cons(room: Room, x: HStmt, items: Chain<HStmt>)
    ensures
        #[trigger] stmts_ok(room, cons(x, items)) == (stmt_ok(room, x) && stmts_ok(room, items)),
{
}

pub broadcast proof fn lemma_exprs_one(room: Room, x: HExpr)
    ensures
        #[trigger] exprs_ok(room, one(x)) == expr_ok(room, x),
{
    reveal_with_fuel(exprs_ok, 2);
    lemma_exprs_cons(room, x, Chain::Nil);
    lemma_exprs_none(room);
}

pub broadcast proof fn lemma_stmts_one(room: Room, x: HStmt)
    ensures
        #[trigger] stmts_ok(room, one(x)) == stmt_ok(room, x),
{
    reveal_with_fuel(stmts_ok, 2);
    lemma_stmts_cons(room, x, Chain::Nil);
    lemma_stmts_none(room);
}

pub broadcast proof fn lemma_exprs_two(room: Room, x: HExpr, y: HExpr)
    ensures
        #[trigger] exprs_ok(room, two(x, y)) == (expr_ok(room, x) && expr_ok(room, y)),
{
    lemma_exprs_cons(room, x, one(y));
    lemma_exprs_one(room, y);
}

pub broadcast proof fn lemma_exprs_three(room: Room, x: HExpr, y: HExpr, z: HExpr)
    ensures
        #[trigger] exprs_ok(room, three(x, y, z)) == (expr_ok(room, x) && expr_ok(room, y) && expr_ok(room, z)),
{
    lemma_exprs_cons(room, x, two(y, z));
    lemma_exprs_two(room, y, z);
}

/// What an expression of one form needs of its function.
pub open spec fn form_ok(room: Room, kind: HKind) -> bool {
    match kind {
        HKind::Local(slot) => slot < room.locals,
        HKind::Capture(at) => at < room.captures,
        HKind::Perform { op, args } => covered(room, op) && exprs_ok(room, args),
        HKind::Interp(parts) => parts_ok(room, parts),
        HKind::MakeClosure { captures, .. } => exprs_ok(room, captures),
        HKind::Call { func, rowargs, args, .. } => callee_covered(room, func, rowargs) && exprs_ok(room, args),
        HKind::CallValue { callee, args } => {
            call_covered(room, callee.ty) && expr_ok(room, callee) && exprs_ok(room, args)
        },
        HKind::MethodCall { recv, selector, own_rowargs, args, .. } => {
            method_covered(room, recv.ty, selector, own_rowargs) && expr_ok(room, recv) && exprs_ok(room, args)
        },
        HKind::InterfaceCall { recv, interface, method, own_rowargs, args, .. } => {
            &&& requirement_covered(room, interface, method, own_rowargs)
            &&& expr_ok(room, recv)
            &&& exprs_ok(room, args)
        },
        HKind::Construct { class, args, .. } => construct_covered(room, class) && exprs_ok(room, args),
        HKind::Native { args, .. } => exprs_ok(room, args),
        HKind::Intrinsic { args, .. } => exprs_ok(room, args),
        HKind::And(left, right) => expr_ok(room, left) && expr_ok(room, right),
        HKind::Or(left, right) => expr_ok(room, left) && expr_ok(room, right),
        HKind::Binary { left, right, .. } => expr_ok(room, left) && expr_ok(room, right),
        HKind::IsType { value, .. } => expr_ok(room, value),
        HKind::CastType { value, .. } => expr_ok(room, value),
        HKind::FieldGet { recv, .. } => expr_ok(room, recv),
        HKind::TupleLit(items) => exprs_ok(room, items),
        HKind::ListLit(items) => exprs_ok(room, items),
        HKind::MapLit(entries) => entries_ok(room, entries),
        HKind::TupleGet { tuple, .. } => expr_ok(room, tuple),
        HKind::If { branches, else_body } => {
            branches_ok(room, branches) && (else_body matches Some(body) ==> stmts_ok(room, body))
        },
        HKind::Case { scrut, scrut_slot, arms } => {
            expr_ok(room, scrut) && scrut_slot < room.locals && arms_ok(room, arms)
        },
        HKind::ReflectCase { scrut, scrut_slot, refined, fallback } => {
            expr_ok(room, scrut) && scrut_slot < room.locals && refined_ok(room, refined) && stmts_ok(room, fallback)
        },
        HKind::Loop { body, result_slot } => stmts_ok(room, body) && slot_ok(room, result_slot),
        HKind::TableEdit { action, target, entry, table, mock } => {
            &&& action == TableAction::Pass ==> grant_covered(room, target, entry)
            &&& expr_ok(room, table)
            &&& mock matches Some(value) ==> expr_ok(room, value)
        },
        HKind::CallArgs(value) => expr_ok(room, value),
        HKind::RequestOpName(value) => expr_ok(room, value),
        HKind::FaultCodeGet(value) => expr_ok(room, value),
        HKind::FaultDenied(value) => expr_ok(room, value),
        HKind::Spawn { class, body, args, .. } => spawn_covered(room, class, body) && exprs_ok(room, args),
        _ => true,
    }
}

pub broadcast proof fn lemma_form_ok(room: Room, ty: Ty, mutable: bool, kind: HKind)
    ensures
        #[trigger] expr_ok(room, hexpr(ty, mutable, kind)) == form_ok(room, kind),
{
}

pub broadcast proof fn lemma_assign_ok(room: Room, slot: u32, value: HExpr)
    ensures
        #[trigger] stmt_ok(room, HStmt::Assign { slot, value }) == (slot < room.locals && expr_ok(room, value)),
{
}

pub broadcast proof fn lemma_assign_field_ok(room: Room, recv: HExpr, field: u32, value: HExpr)
    ensures
        #[trigger] stmt_ok(room, HStmt::AssignField { recv, field, value }) == (expr_ok(room, recv) && expr_ok(room, value)),
{
}

pub broadcast proof fn lemma_while_ok(room: Room, cond: HExpr, body: Chain<HStmt>)
    ensures
        #[trigger] stmt_ok(room, HStmt::While { cond, body }) == (expr_ok(room, cond) && stmts_ok(room, body)),
{
}

pub broadcast proof fn lemma_for_ok(room: Room, source: HExpr, bindings: Chain<u32>, kind: HForKind, body: Chain<HStmt>)
    ensures
        #[trigger] stmt_ok(room, HStmt::For { source, bindings, kind, body }) == (expr_ok(room, source) && slots_ok(room, bindings) && kind_ok(room, kind) && stmts_ok(room, body)),
{
}

pub broadcast proof fn lemma_return_ok(room: Room, value: Option<HExpr>)
    ensures
        #[trigger] stmt_ok(room, HStmt::Return(value)) == opt_expr_ok(room, value),
{
}

pub broadcast proof fn lemma_break_ok(room: Room, value: Option<HExpr>)
    ensures
        #[trigger] stmt_ok(room, HStmt::Break(value)) == opt_expr_ok(room, value),
{
}

pub broadcast proof fn lemma_continue_ok(room: Room)
    ensures
        #[trigger] stmt_ok(room, HStmt::Continue),
{
}

pub broadcast proof fn lemma_expr_stmt_ok(room: Room, value: HExpr)
    ensures
        #[trigger] stmt_ok(room, HStmt::Expr(value)) == expr_ok(room, value),
{
}

pub broadcast proof fn lemma_list_walk_ok(room: Room, source_slot: u32, index_slot: u32, epoch_slot: u32, element: Ty)
    ensures
        #[trigger] kind_ok(room, HForKind::List { source_slot, index_slot, epoch_slot, element }) == (source_slot < room.locals && index_slot < room.locals && epoch_slot < room.locals),
{
}

pub broadcast proof fn lemma_entries_walk_ok(room: Room, source_slot: u32, index_slot: u32, epoch_slot: u32, key: Ty, value: Ty, pair: Ty)
    ensures
        #[trigger] kind_ok(room, HForKind::Entries { source_slot, index_slot, epoch_slot, key, value, pair }) == (source_slot < room.locals && index_slot < room.locals && epoch_slot < room.locals),
{
}

pub broadcast proof fn lemma_chars_walk_ok(room: Room, source_slot: u32, cursor_slot: u32, item: Ty)
    ensures
        #[trigger] kind_ok(room, HForKind::Chars { source_slot, cursor_slot, item }) == (source_slot < room.locals && cursor_slot < room.locals),
{
}

pub broadcast proof fn lemma_range_walk_ok(room: Room, source_slot: u32, cursor_slot: u32, stop_slot: u32)
    ensures
        #[trigger] kind_ok(room, HForKind::Range { source_slot, cursor_slot, stop_slot }) == (source_slot < room.locals && cursor_slot < room.locals && stop_slot < room.locals),
{
}

pub broadcast proof fn lemma_generic_walk_ok(room: Room, source_slot: u32, iterator_slot: u32, option_slot: u32, item_slot: Option<u32>, iterator: HExpr, next: HExpr, some_ty: Ty, item: Ty)
    ensures
        #[trigger] kind_ok(room, HForKind::Generic { source_slot, iterator_slot, option_slot, item_slot, iterator, next, some_ty, item }) == (source_slot < room.locals && iterator_slot < room.locals && option_slot < room.locals && slot_ok(room, item_slot) && expr_ok(room, iterator) && expr_ok(room, next)),
{
}

/// Whether every slot of a scope is below a bound.
pub open spec fn scope_ok(scope: Chain<ScopeEntry>, bound: nat) -> bool
    decreases scope,
{
    match scope {
        Chain::Nil => true,
        Chain::Cons(head, tail) => head.slot < bound && scope_ok(*tail, bound),
    }
}

pub open spec fn scopes_ok(scopes: Chain<Chain<ScopeEntry>>, bound: nat) -> bool
    decreases scopes,
{
    match scopes {
        Chain::Nil => true,
        Chain::Cons(head, tail) => scope_ok(*head, bound) && scopes_ok(*tail, bound),
    }
}

/// Whether a value comes from a slot or a capture of a callable.
pub open spec fn source_ok(st: Checker, source: CapSource) -> bool {
    match source {
        CapSource::Local(slot) => slot < st.locals@.len(),
        CapSource::Capture(at) => at < st.captures@.len(),
    }
}

/// Whether every captured value comes from the callable around a closure.
pub open spec fn sources_ok(around: Checker, captures: Chain<CaptureRec>) -> bool
    decreases captures,
{
    match captures {
        Chain::Nil => true,
        Chain::Cons(head, tail) => source_ok(around, head.source) && sources_ok(around, *tail),
    }
}

/// Whether the names of a callable stand for its slots, and its captures
/// for values of the callable around it. A method has its `self`.
pub open spec fn here_ok(st: Checker) -> bool {
    &&& scopes_ok(st.scopes, st.locals@.len())
    &&& st.outer matches Some(around) ==> sources_ok(*around, st.captures)
    &&& st.self_class is Some || st.ctor is Some ==> st.locals@.len() > 0
}

pub open spec fn outer_ok(outer: Option<Box<Checker>>) -> bool
    decreases outer,
{
    match outer {
        None => true,
        Some(around) => here_ok(*around) && outer_ok(around.outer),
    }
}

/// What a finished function gives its body.
pub open spec fn func_room(cx: &Ctx, func: HirFunc) -> Room {
    Room { cx: *cx, locals: func.locals@.len(), captures: func.captures@.len(), row: elements(func.row) }
}

/// Whether the body of a function stands on it.
pub open spec fn func_ok(cx: &Ctx, func: HirFunc) -> bool {
    stmts_ok(func_room(cx, func), func.body)
}

/// Whether the body of every made function stands on it.
pub open spec fn made_ok(cx: &Ctx, made: Chain<MadeFunc>) -> bool
    decreases made,
{
    match made {
        Chain::Nil => true,
        Chain::Cons(head, tail) => func_ok(cx, head.func) && made_ok(cx, *tail),
    }
}

/// Whether a callable under check is in order: its names, the callables
/// around it, and the functions made so far.
#[verifier::opaque]
pub open spec fn ready(cx: &Ctx, st: Checker) -> bool {
    &&& here_ok(st)
    &&& outer_ok(st.outer)
    &&& made_ok(cx, st.out.made)
}

/// What holds between a checker before and after looking up a name.
pub open spec fn name_step(a: Checker, b: Checker, found: Result<Option<NameRes>, Stop>) -> bool {
    &&& a.out == b.out
    &&& a.declared_row == b.declared_row
    &&& a.locals@.len() <= b.locals@.len()
    &&& a.captures@.len() <= b.captures@.len()
    &&& here_ok(a) && outer_ok(a.outer) ==> {
        &&& here_ok(b)
        &&& outer_ok(b.outer)
        &&& found matches Ok(Some(name)) ==> source_ok(b, name.source)
    }
}

/// What holds between a checker before and after one step: the room
/// widens, and a checker in order stays in order and gives what it
/// should, where the step is given what it needs.
pub open spec fn step(cx: &Ctx, a: Checker, b: Checker, given: bool, gives: bool) -> bool {
    &&& widens(room(cx, a), room(cx, b))
    &&& ready(cx, a) && given ==> ready(cx, b) && gives
}

pub open spec fn name_ok(room: Room, found: NameRes) -> bool {
    match found.source {
        CapSource::Local(slot) => slot < room.locals,
        CapSource::Capture(at) => at < room.captures,
    }
}

pub open spec fn opt_name_ok(room: Room, found: Option<NameRes>) -> bool {
    found matches Some(name) ==> name_ok(room, name)
}

pub open spec fn opt_stmt_ok(room: Room, stmt: Option<HStmt>) -> bool {
    stmt matches Some(found) ==> stmt_ok(room, found)
}

pub open spec fn tried_ok(room: Room, items: Chain<Option<HExpr>>) -> bool
    decreases items,
{
    match items {
        Chain::Nil => true,
        Chain::Cons(head, tail) => opt_expr_ok(room, *head) && tried_ok(room, *tail),
    }
}

pub open spec fn refinement_ok(room: Room, found: Option<Refinement>) -> bool {
    found matches Some(refinement) ==> refinement.slot < room.locals
}

pub open spec fn refinements_ok(room: Room, items: Chain<Option<Refinement>>) -> bool
    decreases items,
{
    match items {
        Chain::Nil => true,
        Chain::Cons(head, tail) => refinement_ok(room, *head) && refinements_ok(room, *tail),
    }
}

pub open spec fn outs_ok(room: Room, items: Chain<Option<BranchOut>>) -> bool
    decreases items,
{
    match items {
        Chain::Nil => true,
        Chain::Cons(head, tail) => {
            (*head matches Some(out) ==> stmts_ok(room, out.block.body)) && outs_ok(room, *tail)
        },
    }
}

pub open spec fn arm_out_ok(room: Room, out: ArmOut) -> bool {
    pattern_ok(room, out.pattern) && stmts_ok(room, out.block.body)
}

pub open spec fn arm_outs_ok(room: Room, items: Chain<Option<ArmOut>>) -> bool
    decreases items,
{
    match items {
        Chain::Nil => true,
        Chain::Cons(head, tail) => {
            (*head matches Some(out) ==> arm_out_ok(room, out)) && arm_outs_ok(room, *tail)
        },
    }
}

pub open spec fn reflect_ok(room: Room, arm: HReflectArm) -> bool {
    slot_ok(room, arm.binding) && stmts_ok(room, arm.body)
}

pub open spec fn bodies_ok(room: Room, items: Chain<Chain<HStmt>>) -> bool
    decreases items,
{
    match items {
        Chain::Nil => true,
        Chain::Cons(head, tail) => stmts_ok(room, *head) && bodies_ok(room, *tail),
    }
}

pub open spec fn callee_ok(room: Room, callee: Callee) -> bool {
    match callee {
        Callee::Value(value) => expr_ok(room, value),
        Callee::Func(func) => named_func(&room.cx, func),
        Callee::Ctor(arm) => is_arm(&room.cx, arm),
        _ => true,
    }
}

pub open spec fn body_ok(room: Room, body: CheckedBody) -> bool {
    stmts_ok(room, body.body) && body.locals@.len() == room.locals
}

pub broadcast proof fn lemma_elements_concat(a: Row, b: Row)
    ensures
        #[trigger] elements(concat(a, b)) == elements(a).union(elements(b)),
{
    law_concat(a, b);
    let both = a@ + b@;
    assert forall|e: RowElem| both.contains(e) == (a@.contains(e) || b@.contains(e)) by {
        if a@.contains(e) {
            let i = choose|i: int| 0 <= i < a@.len() && a@[i] == e;
            assert(both[i] == e);
        }
        if b@.contains(e) {
            let i = choose|i: int| 0 <= i < b@.len() && b@[i] == e;
            assert(both[a@.len() + i] == e);
        }
    }
    assert(elements(concat(a, b)) =~= elements(a).union(elements(b)));
}

pub broadcast proof fn lemma_nth_len<T>(items: Chain<T>, at: u32)
    ensures
        #[trigger] nth(&items, at) is Some ==> at < items@.len(),
    decreases items,
{
    match items {
        Chain::Nil => {},
        Chain::Cons(_, tail) => {
            if at > 0 {
                lemma_nth_len(*tail, (at - 1) as u32);
            }
        },
    }
}

pub broadcast proof fn lemma_append_len<T>(items: Chain<T>, item: T)
    ensures
        #[trigger] append(items, item)@.len() == items@.len() + 1,
    decreases items,
{
    match items {
        Chain::Nil => {
            reveal_with_fuel(Chain::items, 2);
        },
        Chain::Cons(_, tail) => lemma_append_len(*tail, item),
    }
}

pub broadcast proof fn lemma_count_len<T>(items: Chain<T>)
    ensures
        #[trigger] count(&items) <= items@.len(),
    decreases items,
{
    match items {
        Chain::Nil => {},
        Chain::Cons(_, tail) => lemma_count_len(*tail),
    }
}

pub broadcast proof fn lemma_scope_below(scope: Chain<ScopeEntry>, a: nat, b: nat)
    requires
        #[trigger] scope_ok(scope, a),
        a <= b,
    ensures
        #[trigger] scope_ok(scope, b),
    decreases scope,
{
    match scope {
        Chain::Nil => {},
        Chain::Cons(_, tail) => lemma_scope_below(*tail, a, b),
    }
}

pub broadcast proof fn lemma_scopes_below(scopes: Chain<Chain<ScopeEntry>>, a: nat, b: nat)
    requires
        #[trigger] scopes_ok(scopes, a),
        a <= b,
    ensures
        #[trigger] scopes_ok(scopes, b),
    decreases scopes,
{
    match scopes {
        Chain::Nil => {},
        Chain::Cons(head, tail) => {
            lemma_scope_below(*head, a, b);
            lemma_scopes_below(*tail, a, b);
        },
    }
}

pub broadcast proof fn lemma_set_slot_ok(scope: Chain<ScopeEntry>, name: Text, slot: u32, bound: nat)
    requires
        scope_ok(scope, bound),
        slot < bound,
    ensures
        #[trigger] scope_ok(set_slot(scope, &name, slot), bound),
    decreases scope,
{
    match scope {
        Chain::Nil => {
            reveal_with_fuel(scope_ok, 2);
        },
        Chain::Cons(head, tail) => {
            if head.name != name {
                lemma_set_slot_ok(*tail, name, slot, bound);
            }
        },
    }
}

proof fn lemma_slot_in(scope: Chain<ScopeEntry>, name: Text, bound: nat)
    requires
        scope_ok(scope, bound),
    ensures
        slot_in(&scope, &name) matches Some(slot) ==> slot < bound,
    decreases scope,
{
    match scope {
        Chain::Nil => {},
        Chain::Cons(head, tail) => {
            if head.name != name {
                lemma_slot_in(*tail, name, bound);
            }
        },
    }
}

pub broadcast proof fn lemma_slot_in_scopes(scopes: Chain<Chain<ScopeEntry>>, name: Text, bound: nat)
    requires
        #[trigger] scopes_ok(scopes, bound),
    ensures
        #[trigger] slot_in_scopes(&scopes, &name) matches Some(slot) ==> slot < bound,
    decreases scopes,
{
    match scopes {
        Chain::Nil => {},
        Chain::Cons(head, tail) => {
            lemma_slot_in(*head, name, bound);
            lemma_slot_in_scopes(*tail, name, bound);
        },
    }
}

pub broadcast proof fn lemma_sources_wider(a: Checker, b: Checker, captures: Chain<CaptureRec>)
    requires
        #[trigger] sources_ok(a, captures),
        a.locals@.len() <= b.locals@.len(),
        a.captures@.len() <= b.captures@.len(),
    ensures
        #[trigger] sources_ok(b, captures),
    decreases captures,
{
    match captures {
        Chain::Nil => {},
        Chain::Cons(_, tail) => lemma_sources_wider(a, b, *tail),
    }
}

pub broadcast proof fn lemma_sources_append(around: Checker, captures: Chain<CaptureRec>, item: CaptureRec)
    requires
        sources_ok(around, captures),
        source_ok(around, item.source),
    ensures
        #[trigger] sources_ok(around, append(captures, item)),
    decreases captures,
{
    match captures {
        Chain::Nil => {
            reveal_with_fuel(sources_ok, 2);
        },
        Chain::Cons(_, tail) => lemma_sources_append(around, *tail, item),
    }
}

pub broadcast proof fn lemma_capture_values_ok(cx: &Ctx, around: Checker, captures: Chain<CaptureRec>)
    requires
        sources_ok(around, captures),
    ensures
        #[trigger] exprs_ok(room(cx, around), capture_values(&captures)),
    decreases captures,
{
    reveal(room);
    match captures {
        Chain::Nil => {},
        Chain::Cons(head, tail) => {
            lemma_capture_values_ok(cx, around, *tail);
            let value = name_expr(NameRes { source: head.source, ty: head.ty, mutable: head.mutable });
            lemma_exprs_cons(room(cx, around), value, capture_values(&*tail));
        },
    }
}

pub broadcast proof fn lemma_local_types_len(locals: Chain<LocalVar>)
    ensures
        #[trigger] local_types(&locals)@.len() == locals@.len(),
    decreases locals,
{
    match locals {
        Chain::Nil => {},
        Chain::Cons(_, tail) => lemma_local_types_len(*tail),
    }
}

pub broadcast proof fn lemma_capture_types_len(captures: Chain<CaptureRec>)
    ensures
        #[trigger] capture_types(&captures)@.len() == captures@.len(),
    decreases captures,
{
    match captures {
        Chain::Nil => {},
        Chain::Cons(_, tail) => lemma_capture_types_len(*tail),
    }
}

pub broadcast proof fn lemma_param_scope_ok(names: Chain<Text>, slot: u32, bound: nat)
    requires
        slot + names@.len() <= bound,
    ensures
        #[trigger] scope_ok(param_scope(&names, slot), bound),
    decreases names,
{
    match names {
        Chain::Nil => {},
        Chain::Cons(_, tail) => lemma_param_scope_ok(*tail, slot.wrapping_add(1), bound),
    }
}

pub broadcast proof fn lemma_param_locals_len(types: Chain<Ty>, muts: Chain<bool>)
    requires
        types@.len() == muts@.len(),
    ensures
        #[trigger] param_locals(&types, &muts)@.len() == types@.len(),
    decreases types,
{
    match (types, muts) {
        (Chain::Cons(_, types_rest), Chain::Cons(_, muts_rest)) => lemma_param_locals_len(*types_rest, *muts_rest),
        _ => {},
    }
}

pub broadcast proof fn lemma_made_append(cx: &Ctx, made: Chain<MadeFunc>, item: MadeFunc)
    requires
        made_ok(cx, made),
        func_ok(cx, item.func),
    ensures
        #[trigger] made_ok(cx, append(made, item)),
    decreases made,
{
    match made {
        Chain::Nil => {
            reveal_with_fuel(made_ok, 2);
        },
        Chain::Cons(_, tail) => lemma_made_append(cx, *tail, item),
    }
}

pub broadcast proof fn lemma_made_concat(cx: &Ctx, made: Chain<MadeFunc>, more: Chain<MadeFunc>)
    requires
        made_ok(cx, made),
        made_ok(cx, more),
    ensures
        #[trigger] made_ok(cx, concat(made, more)),
    decreases made,
{
    match made {
        Chain::Nil => {},
        Chain::Cons(_, tail) => lemma_made_concat(cx, *tail, more),
    }
}

/// The entries of a map literal stand where its keys and values do.
pub broadcast proof fn lemma_pair_entries_ok(room: Room, keys: Chain<HExpr>, values: Chain<HExpr>)
    requires
        exprs_ok(room, keys),
        exprs_ok(room, values),
    ensures
        #[trigger] entries_ok(room, pair_entries(keys, values)),
    decreases keys,
{
    match (keys, values) {
        (Chain::Cons(_, keys_rest), Chain::Cons(_, values_rest)) => lemma_pair_entries_ok(room, *keys_rest, *values_rest),
        _ => {},
    }
}

pub broadcast proof fn lemma_resolved_items_ok(room: Room, found: Chain<Option<HExpr>>)
    requires
        tried_ok(room, found),
    ensures
        #[trigger] exprs_ok(room, resolved_items(found)),
    decreases found,
{
    match found {
        Chain::Nil => {},
        Chain::Cons(_, tail) => lemma_resolved_items_ok(room, *tail),
    }
}

pub broadcast proof fn lemma_refinement_of_ok(room: Room, cx: &Ctx, st: Checker, cond: HExpr)
    requires
        #[trigger] expr_ok(room, cond),
    ensures
        #[trigger] refinement_of(cx, &st, &cond) matches Ok(found) ==> refinement_ok(room, found),
{
    reveal_with_fuel(expr_ok, 2);
}

pub broadcast proof fn lemma_pair_branches_ok(room: Room, conds: Chain<HExpr>, bodies: Chain<Chain<HStmt>>)
    requires
        #[trigger] exprs_ok(room, conds),
        bodies_ok(room, bodies),
    ensures
        branches_ok(room, (#[trigger] pair_branches(conds, bodies)).0),
        bodies_ok(room, pair_branches(conds, bodies).1),
    decreases conds,
{
    match (conds, bodies) {
        (Chain::Cons(_, conds_rest), Chain::Cons(_, bodies_rest)) => lemma_pair_branches_ok(room, *conds_rest, *bodies_rest),
        _ => {},
    }
}

pub broadcast proof fn lemma_gather_branches_ok(room: Room, found: Chain<Option<BranchOut>>)
    requires
        #[trigger] outs_ok(room, found),
    ensures
        bodies_ok(room, (#[trigger] gather_branches(found)).bodies),
    decreases found,
{
    match found {
        Chain::Nil => {},
        Chain::Cons(_, tail) => lemma_gather_branches_ok(room, *tail),
    }
}

pub broadcast proof fn lemma_gather_arms_ok(room: Room, found: Chain<Option<ArmOut>>)
    requires
        #[trigger] arm_outs_ok(room, found),
    ensures
        bodies_ok(room, (#[trigger] gather_arms(found)).bodies),
        patterns_ok(room, gather_arms(found).patterns),
    decreases found,
{
    match found {
        Chain::Nil => {},
        Chain::Cons(_, tail) => lemma_gather_arms_ok(room, *tail),
    }
}

pub broadcast proof fn lemma_pair_arms_ok(room: Room, patterns: Chain<HPattern>, bodies: Chain<Chain<HStmt>>)
    requires
        patterns_ok(room, patterns),
        bodies_ok(room, bodies),
    ensures
        #[trigger] arms_ok(room, pair_arms(patterns, bodies)),
    decreases patterns,
{
    match (patterns, bodies) {
        (Chain::Cons(_, patterns_rest), Chain::Cons(_, bodies_rest)) => lemma_pair_arms_ok(room, *patterns_rest, *bodies_rest),
        _ => {},
    }
}

/// A method reads its `self` in its first slot.
pub broadcast proof fn lemma_self_ok(cx: &Ctx, st: Checker)
    requires
        #[trigger] ready(cx, st),
        st.self_class is Some || st.ctor is Some,
    ensures
        expr_ok(room(cx, st), #[trigger] self_value(&st)),
{
    reveal(ready);
    reveal(room);
    lemma_form_ok(room(cx, st), local_ty(&st, 0), local_mutable(&st, 0), HKind::Local(0));
}

/// A second pass over a loop starts in order where the first did.
pub proof fn lemma_restart_ok(cx: &Ctx, first: Checker, passed: Checker, next_func: u32, state: Option<CtorState>)
    requires
        kept(first, passed),
        passed.scopes == first.scopes,
        widens(room(cx, first), room(cx, passed)),
    ensures
        ready(cx, first) && ready(cx, passed) ==> ready(cx, restart_pass(passed, first.locals, next_func, &state)),
        widens(room(cx, first), room(cx, restart_pass(passed, first.locals, next_func, &state))),
{
    reveal(ready);
    reveal(room);
    reveal(widens);
}

/// Whether a callable is in order before its parameters are bound.
pub open spec fn bare_ok(cx: &Ctx, st: Checker) -> bool {
    &&& st.outer is None
    &&& scopes_ok(st.scopes, st.locals@.len())
    &&& made_ok(cx, st.out.made)
}

/// Whether the body of every function of a list stands on it.
pub open spec fn funcs_ok(cx: &Ctx, funcs: Chain<HirFunc>) -> bool
    decreases funcs,
{
    match funcs {
        Chain::Nil => true,
        Chain::Cons(head, tail) => func_ok(cx, *head) && funcs_ok(cx, *tail),
    }
}

/// Whether a field default stands on its own slots, captures nothing and
/// performs nothing.
pub open spec fn default_ok(cx: &Ctx, default: FieldDefault) -> bool {
    let room = Room { cx: *cx, locals: default.locals@.len(), captures: 0, row: elements(Chain::Nil) };
    opt_expr_ok(room, default.value)
}

/// Whether every function of a checked module stands on its slots, its
/// captures and its row, where the functions that it takes from other
/// modules do.
pub open spec fn module_ok(module: Module, options: CheckOptions, done: HirModule) -> bool {
    match declare_module(&module, core_source(&options, &empty_module()), &options) {
        Err(_) => false,
        Ok(declared) => {
            made_ok(&declared.cx, first_output(&declared, &options).made) ==> funcs_ok(&declared.cx, done.funcs)
        },
    }
}

/// A function with the slots, captures and row of its checker gives its
/// checked body the same room.
pub broadcast proof fn lemma_recorded_ok(cx: &Ctx, done: Checker, body: CheckedBody, func: HirFunc)
    requires
        #[trigger] body_ok(room(cx, done), body),
        func.body == body.body,
        func.locals == body.locals,
        func.captures@.len() == done.captures@.len(),
        func.row == done.declared_row,
    ensures
        #[trigger] func_ok(cx, func),
{
    reveal(room);
}

pub broadcast proof fn lemma_bind_parameters_ok(cx: &Ctx, st: Checker, unique: bool, names: Chain<Text>, tys: Chain<Ty>, muts: Chain<bool>, spans: Chain<Span>)
    requires
        #[trigger] bare_ok(cx, st),
    ensures
        bare_ok(cx, (#[trigger] bind_parameters(st, unique, &names, &tys, &muts, &spans)).0),
    decreases names,
{
    match (names, tys, muts, spans) {
        (Chain::Cons(name, names_rest), Chain::Cons(ty, tys_rest), Chain::Cons(mutable, muts_rest), Chain::Cons(_, spans_rest)) => {
            if !(unique && lookup_slot(&st, &*name).is_some()) {
                let (more, slot) = hidden_local(st, *ty, *mutable);
                let bound = bind_name(more, &*name, slot);
                lemma_append_len(st.locals, LocalVar { ty: *ty, mutable: *mutable });
                lemma_count_len(st.locals);
                lemma_scopes_below(st.scopes, st.locals@.len(), more.locals@.len());
                match st.scopes {
                    Chain::Nil => {
                        lemma_set_slot_ok(Chain::Nil, *name, slot, more.locals@.len());
                        reveal_with_fuel(scopes_ok, 2);
                    },
                    Chain::Cons(head, _) => lemma_set_slot_ok(*head, *name, slot, more.locals@.len()),
                }
                assert(bare_ok(cx, bound));
                lemma_bind_parameters_ok(cx, bound, unique, *names_rest, *tys_rest, *muts_rest, *spans_rest);
            }
        },
        _ => {},
    }
}

pub broadcast proof fn lemma_take_made_ok(cx: &Ctx, made: Chain<MadeFunc>, index: u32)
    requires
        #[trigger] made_ok(cx, made),
    ensures
        made_ok(cx, (#[trigger] take_made(made, index)).0),
        take_made(made, index).1 matches Some(found) ==> func_ok(cx, found),
    decreases made,
{
    match made {
        Chain::Nil => {},
        Chain::Cons(head, tail) => {
            if head.index != index {
                lemma_take_made_ok(cx, *tail, index);
            }
        },
    }
}

pub broadcast proof fn lemma_order_funcs_ok(cx: &Ctx, made: Chain<MadeFunc>, at: u32, total: u32)
    requires
        #[trigger] made_ok(cx, made),
    ensures
        #[trigger] order_funcs(made, at, total) matches Ok(found) ==> funcs_ok(cx, found),
    decreases total - at,
{
    if at < total {
        lemma_take_made_ok(cx, made, at);
        let (rest, found) = take_made(made, at);
        if found is Some {
            lemma_order_funcs_ok(cx, rest, (at + 1) as u32, total);
        }
    }
}

proof fn lemma_extends_len<T>(a: Chain<T>, b: Chain<T>)
    requires
        extends(a, b),
    ensures
        a@.len() <= b@.len(),
    decreases a,
{
    match (a, b) {
        (Chain::Cons(_, xs), Chain::Cons(_, ys)) => lemma_extends_len(*xs, *ys),
        _ => {},
    }
}

/// The callable around a closure gains room while the closure is checked.
pub proof fn lemma_closure_widens(cx: &Ctx, a: Checker, b: Checker)
    requires
        kept(a, b),
    ensures
        a.outer matches Some(x) ==> b.outer matches Some(y) && widens(room(cx, *x), room(cx, *y)),
{
    reveal(room);
    reveal(widens);
    match (a.outer, b.outer) {
        (Some(x), Some(y)) => {
            lemma_extends_len(x.locals, y.locals);
            lemma_extends_len(x.captures, y.captures);
        },
        _ => {},
    }
}

/// A function with the slots, captures and row of its checker gives its
/// body the same room.
pub proof fn lemma_finished_ok(cx: &Ctx, st: Checker, func: HirFunc)
    requires
        func.locals == local_types(&st.locals),
        func.captures == capture_types(&st.captures),
        func.row == st.declared_row,
    ensures
        stmts_ok(room(cx, st), func.body) ==> func_ok(cx, func),
{
    reveal(room);
    lemma_local_types_len(st.locals);
    lemma_capture_types_len(st.captures);
}

pub broadcast proof fn lemma_tried_widens(a: Room, b: Room, items: Chain<Option<HExpr>>)
    requires
        #[trigger] widens(a, b),
        #[trigger] tried_ok(a, items),
    ensures
        tried_ok(b, items),
    decreases items,
{
    reveal(widens);
    match items {
        Chain::Nil => {},
        Chain::Cons(head, tail) => {
            match *head {
                Some(found) => lemma_expr_widens(a, b, found),
                None => {},
            }
            lemma_tried_widens(a, b, *tail);
        },
    }
}

pub broadcast proof fn lemma_refinements_widens(a: Room, b: Room, items: Chain<Option<Refinement>>)
    requires
        #[trigger] widens(a, b),
        #[trigger] refinements_ok(a, items),
    ensures
        refinements_ok(b, items),
    decreases items,
{
    reveal(widens);
    match items {
        Chain::Nil => {},
        Chain::Cons(head, tail) => {
            lemma_refinements_widens(a, b, *tail);
        },
    }
}

pub broadcast proof fn lemma_outs_widens(a: Room, b: Room, items: Chain<Option<BranchOut>>)
    requires
        #[trigger] widens(a, b),
        #[trigger] outs_ok(a, items),
    ensures
        outs_ok(b, items),
    decreases items,
{
    reveal(widens);
    match items {
        Chain::Nil => {},
        Chain::Cons(head, tail) => {
            match *head {
                Some(out) => lemma_stmts_widens(a, b, out.block.body),
                None => {},
            }
            lemma_outs_widens(a, b, *tail);
        },
    }
}

pub broadcast proof fn lemma_arm_outs_widens(a: Room, b: Room, items: Chain<Option<ArmOut>>)
    requires
        #[trigger] widens(a, b),
        #[trigger] arm_outs_ok(a, items),
    ensures
        arm_outs_ok(b, items),
    decreases items,
{
    reveal(widens);
    match items {
        Chain::Nil => {},
        Chain::Cons(head, tail) => {
            match *head {
                Some(out) => {
                    lemma_pattern_widens(a, b, out.pattern);
                    lemma_stmts_widens(a, b, out.block.body);
                },
                None => {},
            }
            lemma_arm_outs_widens(a, b, *tail);
        },
    }
}

pub broadcast proof fn lemma_bodies_widens(a: Room, b: Room, items: Chain<Chain<HStmt>>)
    requires
        #[trigger] widens(a, b),
        #[trigger] bodies_ok(a, items),
    ensures
        bodies_ok(b, items),
    decreases items,
{
    reveal(widens);
    match items {
        Chain::Nil => {},
        Chain::Cons(head, tail) => {
            lemma_stmts_widens(a, b, *head);
            lemma_bodies_widens(a, b, *tail);
        },
    }
}

pub broadcast group group_sound {
    lemma_widens_same,
    lemma_widens_further,
    lemma_slot_widens,
    lemma_opt_slot_widens,
    lemma_scope_widens,
    lemma_name_widens,
    lemma_refinement_widens,
    lemma_row_widens,
    lemma_covered_widens,
    lemma_room_tables,
    lemma_call_widens,
    lemma_slots_widens,
    lemma_pattern_widens,
    lemma_patterns_widens,
    lemma_expr_widens,
    lemma_exprs_widens,
    lemma_parts_widens,
    lemma_entries_widens,
    lemma_branches_widens,
    lemma_arms_widens,
    lemma_refined_widens,
    lemma_stmts_widens,
    lemma_stmt_widens,
    lemma_kind_widens,
    lemma_exprs_none,
    lemma_exprs_cons,
    lemma_parts_none,
    lemma_parts_cons,
    lemma_entries_none,
    lemma_entries_cons,
    lemma_branches_none,
    lemma_branches_cons,
    lemma_arms_none,
    lemma_arms_cons,
    lemma_refined_none,
    lemma_refined_cons,
    lemma_stmts_none,
    lemma_stmts_cons,
    lemma_exprs_one,
    lemma_stmts_one,
    lemma_exprs_two,
    lemma_exprs_three,
    lemma_form_ok,
    lemma_assign_ok,
    lemma_assign_field_ok,
    lemma_while_ok,
    lemma_for_ok,
    lemma_return_ok,
    lemma_break_ok,
    lemma_continue_ok,
    lemma_expr_stmt_ok,
    lemma_list_walk_ok,
    lemma_entries_walk_ok,
    lemma_chars_walk_ok,
    lemma_range_walk_ok,
    lemma_generic_walk_ok,
    lemma_elements_concat,
    lemma_nth_len,
    lemma_append_len,
    lemma_count_len,
    lemma_scope_below,
    lemma_scopes_below,
    lemma_set_slot_ok,
    lemma_slot_in_scopes,
    lemma_sources_wider,
    lemma_sources_append,
    lemma_capture_values_ok,
    lemma_local_types_len,
    lemma_capture_types_len,
    lemma_param_scope_ok,
    lemma_param_locals_len,
    lemma_made_append,
    lemma_made_concat,
    lemma_pair_entries_ok,
    lemma_resolved_items_ok,
    lemma_refinement_of_ok,
    lemma_pair_branches_ok,
    lemma_gather_branches_ok,
    lemma_gather_arms_ok,
    lemma_pair_arms_ok,
    lemma_self_ok,
    lemma_recorded_ok,
    lemma_bind_parameters_ok,
    lemma_take_made_ok,
    lemma_order_funcs_ok,
    lemma_tried_widens,
    lemma_refinements_widens,
    lemma_outs_widens,
    lemma_arm_outs_widens,
    lemma_bodies_widens,
}

} // verus!
