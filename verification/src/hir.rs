//! The checked program: expressions, statements, patterns and functions.

use vstd::prelude::*;
use crate::ast::{BinOp, Span};
use crate::chain::{Chain, copy_chain};
use crate::context::{InterfaceUse, clone_interface_use_lists, clone_opt_span, clone_opt_u32, clone_rows, clone_texts, same_rows};
use crate::text::{Text, same_text};
use crate::types::{Row, Ty, clone_tys, same_ty, same_tys};

verus! {

/// The native methods.
#[derive(Clone, Copy, PartialEq, Eq, Structural, Debug)]
pub enum NativeOp {
    ListLen,
    ListAt,
    ListPush,
    ListGet,
    MapLen,
    MapHas,
    MapAt,
    MapPut,
    MapGet,
    BytesNew,
    Freeze,
    Digest,
}

/// The edits of a policy table.
#[derive(Clone, Copy, PartialEq, Eq, Structural, Debug)]
pub enum TableAction {
    Pass,
    Block,
    Mock,
    Clear,
}

/// What a policy target names.
#[derive(Clone, Copy, PartialEq, Eq, Structural, Debug)]
pub enum TargetKind {
    Group,
    Exact,
}

/// What a reflection arm matches.
#[derive(Clone, Copy, PartialEq, Eq, Structural, Debug)]
pub enum ReflectKind {
    Class,
    Function,
    Method,
    Constant,
    Code,
    ClassDescriptor,
}

/// What a pattern reads out of its scrutinee.
#[derive(Clone, Copy, PartialEq, Eq, Structural, Debug)]
pub enum Projection {
    /// The call of one operation.
    AsCall(u32),
    CallArgs,
}

/// One checked expression: its type, its capability and its form.
pub struct HExpr {
    pub ty: Ty,
    pub mutable: bool,
    pub kind: Box<HKind>,
}

/// The forms of a checked expression.
#[allow(inconsistent_fields)]
pub enum HKind {
    Unit,
    Int(i64),
    /// A floating-point value, by its bit pattern.
    Float(u64),
    Str(Text),
    Bytes(Chain<u8>),
    Bool(bool),
    Interp(Chain<HPart>),
    Local(u32),
    Capture(u32),
    MakeClosure { func: u32, captures: Chain<HExpr> },
    Call { func: u32, targs: Chain<Ty>, rowargs: Chain<Row>, args: Chain<HExpr> },
    CallValue { callee: HExpr, args: Chain<HExpr> },
    MethodCall { recv: HExpr, selector: Text, generic_owner: bool, own_targs: Chain<Ty>, own_rowargs: Chain<Row>, args: Chain<HExpr> },
    InterfaceCall { recv: HExpr, interface: u32, method: u32, selector: Text, own_targs: Chain<Ty>, own_rowargs: Chain<Row>, args: Chain<HExpr> },
    Construct { class: u32, targs: Chain<Ty>, args: Chain<HExpr> },
    Native { op: NativeOp, args: Chain<HExpr> },
    Intrinsic { slot: u32, args: Chain<HExpr> },
    Perform { op: u32, args: Chain<HExpr> },
    And(HExpr, HExpr),
    Or(HExpr, HExpr),
    Binary { op: BinOp, operand_ty: Ty, left: HExpr, right: HExpr },
    IsType { value: HExpr, ty: Ty },
    CastType { value: HExpr, ty: Ty },
    FieldGet { recv: HExpr, field: u32 },
    TupleLit(Chain<HExpr>),
    ListLit(Chain<HExpr>),
    MapLit(Chain<HEntry>),
    TupleGet { tuple: HExpr, index: u32 },
    If { branches: Chain<HIfArm>, else_body: Option<Chain<HStmt>> },
    Case { scrut: HExpr, scrut_slot: u32, arms: Chain<HArm> },
    ReflectCase { scrut: HExpr, scrut_slot: u32, refined: Chain<HReflectArm>, fallback: Chain<HStmt> },
    Loop { body: Chain<HStmt>, result_slot: Option<u32> },
    OpConst(u32),
    TableEdit { action: TableAction, target: TargetKind, entry: u32, table: HExpr, mock: Option<HExpr> },
    CallArgs(HExpr),
    RequestOpName(HExpr),
    FaultCodeGet(HExpr),
    FaultDenied(HExpr),
    Spawn { class: u32, body: u32, ctor_ty: Ty, body_ty: Ty, args: Chain<HExpr> },
}

/// One checked part of an interpolated string.
pub enum HPart {
    Lit(Text),
    Value(HExpr),
}

/// One checked entry of a map literal.
pub struct HEntry {
    pub key: HExpr,
    pub value: HExpr,
}

/// One checked conditional branch.
pub struct HIfArm {
    pub cond: HExpr,
    pub body: Chain<HStmt>,
}

/// One checked case arm.
pub struct HArm {
    pub pattern: HPattern,
    pub body: Chain<HStmt>,
}

/// One checked reflection arm.
pub struct HReflectArm {
    pub kind: ReflectKind,
    pub pattern: u32,
    pub type_base: u32,
    pub effect_base: u32,
    pub binding: Option<u32>,
    pub body: Chain<HStmt>,
}

/// One checked statement.
pub enum HStmt {
    Assign { slot: u32, value: HExpr },
    AssignField { recv: HExpr, field: u32, value: HExpr },
    While { cond: HExpr, body: Chain<HStmt> },
    For { source: HExpr, bindings: Chain<u32>, kind: HForKind, body: Chain<HStmt> },
    Return(Option<HExpr>),
    Break(Option<HExpr>),
    Continue,
    Expr(HExpr),
}

/// How a loop walks its source.
pub enum HForKind {
    List { source_slot: u32, index_slot: u32, epoch_slot: u32, element: Ty },
    Entries { source_slot: u32, index_slot: u32, epoch_slot: u32, key: Ty, value: Ty, pair: Ty },
    Chars { source_slot: u32, cursor_slot: u32, item: Ty },
    Range { source_slot: u32, cursor_slot: u32, stop_slot: u32 },
    Generic { source_slot: u32, iterator_slot: u32, option_slot: u32, item_slot: Option<u32>, iterator: HExpr, next: HExpr, some_ty: Ty, item: Ty },
}

/// One checked pattern.
pub enum HPattern {
    Wildcard,
    Bind(u32),
    Int(i64),
    Bool(bool),
    Str(Text),
    Tuple { elems: Chain<HPattern>, elem_tys: Chain<Ty> },
    Ctor { class: u32, ty: Ty, args: Chain<HPattern>, field_tys: Chain<Ty> },
    Project { projection: Projection, ty: Ty, inner: Box<HPattern> },
    And(Chain<HPattern>),
}

/// One checked function.
pub struct HirFunc {
    pub imported: bool,
    pub core: bool,
    pub source_span: Option<Span>,
    pub name: Text,
    pub type_params: u32,
    pub type_bounds: Chain<Chain<InterfaceUse>>,
    pub effect_params: u32,
    pub params: Chain<Ty>,
    pub param_muts: Chain<bool>,
    pub param_names: Chain<Text>,
    pub ret: Ty,
    pub row: Row,
    pub captures: Chain<Ty>,
    pub locals: Chain<Ty>,
    pub body: Chain<HStmt>,
}

impl Clone for HExpr {
    fn clone(&self) -> (r: HExpr)
        ensures
            r == *self,
        decreases self,
    {
        HExpr {
            ty: (self.ty).clone(),
            mutable: self.mutable,
            kind: Box::new((*self.kind).clone()),
        }
    }
}

impl Clone for HKind {
    fn clone(&self) -> (r: HKind)
        ensures
            r == *self,
        decreases self,
    {
        match self {
            HKind::Unit => HKind::Unit,
            HKind::Int(x) => HKind::Int(*x),
            HKind::Float(x) => HKind::Float(*x),
            HKind::Str(x) => HKind::Str(copy_chain(&*x)),
            HKind::Bytes(x) => HKind::Bytes(copy_chain(&*x)),
            HKind::Bool(x) => HKind::Bool(*x),
            HKind::Interp(x) => HKind::Interp(clone_h_parts(&*x)),
            HKind::Local(x) => HKind::Local(*x),
            HKind::Capture(x) => HKind::Capture(*x),
            HKind::MakeClosure { func, captures } => HKind::MakeClosure { func: *func, captures: clone_h_exprs(&*captures) },
            HKind::Call { func, targs, rowargs, args } => HKind::Call { func: *func, targs: clone_tys(&*targs), rowargs: clone_rows(&*rowargs), args: clone_h_exprs(&*args) },
            HKind::CallValue { callee, args } => HKind::CallValue { callee: (*callee).clone(), args: clone_h_exprs(&*args) },
            HKind::MethodCall { recv, selector, generic_owner, own_targs, own_rowargs, args } => HKind::MethodCall { recv: (*recv).clone(), selector: copy_chain(&*selector), generic_owner: *generic_owner, own_targs: clone_tys(&*own_targs), own_rowargs: clone_rows(&*own_rowargs), args: clone_h_exprs(&*args) },
            HKind::InterfaceCall { recv, interface, method, selector, own_targs, own_rowargs, args } => HKind::InterfaceCall { recv: (*recv).clone(), interface: *interface, method: *method, selector: copy_chain(&*selector), own_targs: clone_tys(&*own_targs), own_rowargs: clone_rows(&*own_rowargs), args: clone_h_exprs(&*args) },
            HKind::Construct { class, targs, args } => HKind::Construct { class: *class, targs: clone_tys(&*targs), args: clone_h_exprs(&*args) },
            HKind::Native { op, args } => HKind::Native { op: *op, args: clone_h_exprs(&*args) },
            HKind::Intrinsic { slot, args } => HKind::Intrinsic { slot: *slot, args: clone_h_exprs(&*args) },
            HKind::Perform { op, args } => HKind::Perform { op: *op, args: clone_h_exprs(&*args) },
            HKind::And(x0, x1) => HKind::And((*x0).clone(), (*x1).clone()),
            HKind::Or(x0, x1) => HKind::Or((*x0).clone(), (*x1).clone()),
            HKind::Binary { op, operand_ty, left, right } => HKind::Binary { op: *op, operand_ty: (*operand_ty).clone(), left: (*left).clone(), right: (*right).clone() },
            HKind::IsType { value, ty } => HKind::IsType { value: (*value).clone(), ty: (*ty).clone() },
            HKind::CastType { value, ty } => HKind::CastType { value: (*value).clone(), ty: (*ty).clone() },
            HKind::FieldGet { recv, field } => HKind::FieldGet { recv: (*recv).clone(), field: *field },
            HKind::TupleLit(x) => HKind::TupleLit(clone_h_exprs(&*x)),
            HKind::ListLit(x) => HKind::ListLit(clone_h_exprs(&*x)),
            HKind::MapLit(x) => HKind::MapLit(clone_h_entries(&*x)),
            HKind::TupleGet { tuple, index } => HKind::TupleGet { tuple: (*tuple).clone(), index: *index },
            HKind::If { branches, else_body } => HKind::If { branches: clone_h_if_arms(&*branches), else_body: clone_opt_h_stmt_list(&*else_body) },
            HKind::Case { scrut, scrut_slot, arms } => HKind::Case { scrut: (*scrut).clone(), scrut_slot: *scrut_slot, arms: clone_h_arms(&*arms) },
            HKind::ReflectCase { scrut, scrut_slot, refined, fallback } => HKind::ReflectCase { scrut: (*scrut).clone(), scrut_slot: *scrut_slot, refined: clone_h_reflect_arms(&*refined), fallback: clone_h_stmts(&*fallback) },
            HKind::Loop { body, result_slot } => HKind::Loop { body: clone_h_stmts(&*body), result_slot: clone_opt_u32(&*result_slot) },
            HKind::OpConst(x) => HKind::OpConst(*x),
            HKind::TableEdit { action, target, entry, table, mock } => HKind::TableEdit { action: *action, target: *target, entry: *entry, table: (*table).clone(), mock: clone_opt_h_expr(&*mock) },
            HKind::CallArgs(x) => HKind::CallArgs((*x).clone()),
            HKind::RequestOpName(x) => HKind::RequestOpName((*x).clone()),
            HKind::FaultCodeGet(x) => HKind::FaultCodeGet((*x).clone()),
            HKind::FaultDenied(x) => HKind::FaultDenied((*x).clone()),
            HKind::Spawn { class, body, ctor_ty, body_ty, args } => HKind::Spawn { class: *class, body: *body, ctor_ty: (*ctor_ty).clone(), body_ty: (*body_ty).clone(), args: clone_h_exprs(&*args) },
        }
    }
}

impl Clone for HPart {
    fn clone(&self) -> (r: HPart)
        ensures
            r == *self,
        decreases self,
    {
        match self {
            HPart::Lit(x) => HPart::Lit(copy_chain(&*x)),
            HPart::Value(x) => HPart::Value((*x).clone()),
        }
    }
}

impl Clone for HEntry {
    fn clone(&self) -> (r: HEntry)
        ensures
            r == *self,
        decreases self,
    {
        HEntry {
            key: (self.key).clone(),
            value: (self.value).clone(),
        }
    }
}

impl Clone for HIfArm {
    fn clone(&self) -> (r: HIfArm)
        ensures
            r == *self,
        decreases self,
    {
        HIfArm {
            cond: (self.cond).clone(),
            body: clone_h_stmts(&self.body),
        }
    }
}

impl Clone for HArm {
    fn clone(&self) -> (r: HArm)
        ensures
            r == *self,
        decreases self,
    {
        HArm {
            pattern: (self.pattern).clone(),
            body: clone_h_stmts(&self.body),
        }
    }
}

impl Clone for HReflectArm {
    fn clone(&self) -> (r: HReflectArm)
        ensures
            r == *self,
        decreases self,
    {
        HReflectArm {
            kind: self.kind,
            pattern: self.pattern,
            type_base: self.type_base,
            effect_base: self.effect_base,
            binding: clone_opt_u32(&self.binding),
            body: clone_h_stmts(&self.body),
        }
    }
}

impl Clone for HStmt {
    fn clone(&self) -> (r: HStmt)
        ensures
            r == *self,
        decreases self,
    {
        match self {
            HStmt::Assign { slot, value } => HStmt::Assign { slot: *slot, value: (*value).clone() },
            HStmt::AssignField { recv, field, value } => HStmt::AssignField { recv: (*recv).clone(), field: *field, value: (*value).clone() },
            HStmt::While { cond, body } => HStmt::While { cond: (*cond).clone(), body: clone_h_stmts(&*body) },
            HStmt::For { source, bindings, kind, body } => HStmt::For { source: (*source).clone(), bindings: copy_chain(&*bindings), kind: (*kind).clone(), body: clone_h_stmts(&*body) },
            HStmt::Return(x) => HStmt::Return(clone_opt_h_expr(&*x)),
            HStmt::Break(x) => HStmt::Break(clone_opt_h_expr(&*x)),
            HStmt::Continue => HStmt::Continue,
            HStmt::Expr(x) => HStmt::Expr((*x).clone()),
        }
    }
}

impl Clone for HForKind {
    fn clone(&self) -> (r: HForKind)
        ensures
            r == *self,
        decreases self,
    {
        match self {
            HForKind::List { source_slot, index_slot, epoch_slot, element } => HForKind::List { source_slot: *source_slot, index_slot: *index_slot, epoch_slot: *epoch_slot, element: (*element).clone() },
            HForKind::Entries { source_slot, index_slot, epoch_slot, key, value, pair } => HForKind::Entries { source_slot: *source_slot, index_slot: *index_slot, epoch_slot: *epoch_slot, key: (*key).clone(), value: (*value).clone(), pair: (*pair).clone() },
            HForKind::Chars { source_slot, cursor_slot, item } => HForKind::Chars { source_slot: *source_slot, cursor_slot: *cursor_slot, item: (*item).clone() },
            HForKind::Range { source_slot, cursor_slot, stop_slot } => HForKind::Range { source_slot: *source_slot, cursor_slot: *cursor_slot, stop_slot: *stop_slot },
            HForKind::Generic { source_slot, iterator_slot, option_slot, item_slot, iterator, next, some_ty, item } => HForKind::Generic { source_slot: *source_slot, iterator_slot: *iterator_slot, option_slot: *option_slot, item_slot: clone_opt_u32(&*item_slot), iterator: (*iterator).clone(), next: (*next).clone(), some_ty: (*some_ty).clone(), item: (*item).clone() },
        }
    }
}

impl Clone for HPattern {
    fn clone(&self) -> (r: HPattern)
        ensures
            r == *self,
        decreases self,
    {
        match self {
            HPattern::Wildcard => HPattern::Wildcard,
            HPattern::Bind(x) => HPattern::Bind(*x),
            HPattern::Int(x) => HPattern::Int(*x),
            HPattern::Bool(x) => HPattern::Bool(*x),
            HPattern::Str(x) => HPattern::Str(copy_chain(&*x)),
            HPattern::Tuple { elems, elem_tys } => HPattern::Tuple { elems: clone_h_patterns(&*elems), elem_tys: clone_tys(&*elem_tys) },
            HPattern::Ctor { class, ty, args, field_tys } => HPattern::Ctor { class: *class, ty: (*ty).clone(), args: clone_h_patterns(&*args), field_tys: clone_tys(&*field_tys) },
            HPattern::Project { projection, ty, inner } => HPattern::Project { projection: *projection, ty: (*ty).clone(), inner: Box::new((**inner).clone()) },
            HPattern::And(x) => HPattern::And(clone_h_patterns(&*x)),
        }
    }
}

impl Clone for HirFunc {
    fn clone(&self) -> (r: HirFunc)
        ensures
            r == *self,
        decreases self,
    {
        HirFunc {
            imported: self.imported,
            core: self.core,
            source_span: clone_opt_span(&self.source_span),
            name: copy_chain(&self.name),
            type_params: self.type_params,
            type_bounds: clone_interface_use_lists(&self.type_bounds),
            effect_params: self.effect_params,
            params: clone_tys(&self.params),
            param_muts: copy_chain(&self.param_muts),
            param_names: clone_texts(&self.param_names),
            ret: (self.ret).clone(),
            row: copy_chain(&self.row),
            captures: clone_tys(&self.captures),
            locals: clone_tys(&self.locals),
            body: clone_h_stmts(&self.body),
        }
    }
}

pub fn clone_h_parts(items: &Chain<HPart>) -> (r: Chain<HPart>)
    ensures
        r == *items,
    decreases items,
{
    match items {
        Chain::Nil => Chain::Nil,
        Chain::Cons(head, tail) => Chain::Cons(
            Box::new((**head).clone()),
            Box::new(clone_h_parts(tail)),
        ),
    }
}

pub fn clone_h_exprs(items: &Chain<HExpr>) -> (r: Chain<HExpr>)
    ensures
        r == *items,
    decreases items,
{
    match items {
        Chain::Nil => Chain::Nil,
        Chain::Cons(head, tail) => Chain::Cons(
            Box::new((**head).clone()),
            Box::new(clone_h_exprs(tail)),
        ),
    }
}

pub fn clone_h_entries(items: &Chain<HEntry>) -> (r: Chain<HEntry>)
    ensures
        r == *items,
    decreases items,
{
    match items {
        Chain::Nil => Chain::Nil,
        Chain::Cons(head, tail) => Chain::Cons(
            Box::new((**head).clone()),
            Box::new(clone_h_entries(tail)),
        ),
    }
}

pub fn clone_h_if_arms(items: &Chain<HIfArm>) -> (r: Chain<HIfArm>)
    ensures
        r == *items,
    decreases items,
{
    match items {
        Chain::Nil => Chain::Nil,
        Chain::Cons(head, tail) => Chain::Cons(
            Box::new((**head).clone()),
            Box::new(clone_h_if_arms(tail)),
        ),
    }
}

pub fn clone_opt_h_stmt_list(item: &Option<Chain<HStmt>>) -> (r: Option<Chain<HStmt>>)
    ensures
        r == *item,
    decreases item,
{
    match item {
        Some(x) => Some(clone_h_stmts(&*x)),
        None => None,
    }
}

pub fn clone_h_arms(items: &Chain<HArm>) -> (r: Chain<HArm>)
    ensures
        r == *items,
    decreases items,
{
    match items {
        Chain::Nil => Chain::Nil,
        Chain::Cons(head, tail) => Chain::Cons(
            Box::new((**head).clone()),
            Box::new(clone_h_arms(tail)),
        ),
    }
}

pub fn clone_h_reflect_arms(items: &Chain<HReflectArm>) -> (r: Chain<HReflectArm>)
    ensures
        r == *items,
    decreases items,
{
    match items {
        Chain::Nil => Chain::Nil,
        Chain::Cons(head, tail) => Chain::Cons(
            Box::new((**head).clone()),
            Box::new(clone_h_reflect_arms(tail)),
        ),
    }
}

pub fn clone_h_stmts(items: &Chain<HStmt>) -> (r: Chain<HStmt>)
    ensures
        r == *items,
    decreases items,
{
    match items {
        Chain::Nil => Chain::Nil,
        Chain::Cons(head, tail) => Chain::Cons(
            Box::new((**head).clone()),
            Box::new(clone_h_stmts(tail)),
        ),
    }
}

pub fn clone_opt_h_expr(item: &Option<HExpr>) -> (r: Option<HExpr>)
    ensures
        r == *item,
    decreases item,
{
    match item {
        Some(x) => Some((*x).clone()),
        None => None,
    }
}

pub fn clone_h_patterns(items: &Chain<HPattern>) -> (r: Chain<HPattern>)
    ensures
        r == *items,
    decreases items,
{
    match items {
        Chain::Nil => Chain::Nil,
        Chain::Cons(head, tail) => Chain::Cons(
            Box::new((**head).clone()),
            Box::new(clone_h_patterns(tail)),
        ),
    }
}

/// Compare two values.
pub fn same_h_expr(a: &HExpr, b: &HExpr) -> (r: bool)
    ensures
        r == (*a == *b),
    decreases a,
{
    same_ty(&a.ty, &b.ty)
        && a.mutable == b.mutable
        && same_h_kind(&*a.kind, &*b.kind)
}

/// Compare two values.
pub fn same_h_kind(a: &HKind, b: &HKind) -> (r: bool)
    ensures
        r == (*a == *b),
    decreases a,
{
    match (a, b) {
        (HKind::Unit, HKind::Unit) => true,
        (HKind::Int(x0), HKind::Int(y0)) => *x0 == *y0,
        (HKind::Float(x0), HKind::Float(y0)) => *x0 == *y0,
        (HKind::Str(x0), HKind::Str(y0)) => same_text(&*x0, &*y0),
        (HKind::Bytes(x0), HKind::Bytes(y0)) => same_u8s(&*x0, &*y0),
        (HKind::Bool(x0), HKind::Bool(y0)) => *x0 == *y0,
        (HKind::Interp(x0), HKind::Interp(y0)) => same_h_parts(&*x0, &*y0),
        (HKind::Local(x0), HKind::Local(y0)) => *x0 == *y0,
        (HKind::Capture(x0), HKind::Capture(y0)) => *x0 == *y0,
        (HKind::MakeClosure { func: x_func, captures: x_captures }, HKind::MakeClosure { func: y_func, captures: y_captures }) => *x_func == *y_func && same_h_exprs(&*x_captures, &*y_captures),
        (HKind::Call { func: x_func, targs: x_targs, rowargs: x_rowargs, args: x_args }, HKind::Call { func: y_func, targs: y_targs, rowargs: y_rowargs, args: y_args }) => *x_func == *y_func && same_tys(&*x_targs, &*y_targs) && same_rows(&*x_rowargs, &*y_rowargs) && same_h_exprs(&*x_args, &*y_args),
        (HKind::CallValue { callee: x_callee, args: x_args }, HKind::CallValue { callee: y_callee, args: y_args }) => same_h_expr(&*x_callee, &*y_callee) && same_h_exprs(&*x_args, &*y_args),
        (HKind::MethodCall { recv: x_recv, selector: x_selector, generic_owner: x_generic_owner, own_targs: x_own_targs, own_rowargs: x_own_rowargs, args: x_args }, HKind::MethodCall { recv: y_recv, selector: y_selector, generic_owner: y_generic_owner, own_targs: y_own_targs, own_rowargs: y_own_rowargs, args: y_args }) => same_h_expr(&*x_recv, &*y_recv) && same_text(&*x_selector, &*y_selector) && *x_generic_owner == *y_generic_owner && same_tys(&*x_own_targs, &*y_own_targs) && same_rows(&*x_own_rowargs, &*y_own_rowargs) && same_h_exprs(&*x_args, &*y_args),
        (HKind::InterfaceCall { recv: x_recv, interface: x_interface, method: x_method, selector: x_selector, own_targs: x_own_targs, own_rowargs: x_own_rowargs, args: x_args }, HKind::InterfaceCall { recv: y_recv, interface: y_interface, method: y_method, selector: y_selector, own_targs: y_own_targs, own_rowargs: y_own_rowargs, args: y_args }) => same_h_expr(&*x_recv, &*y_recv) && *x_interface == *y_interface && *x_method == *y_method && same_text(&*x_selector, &*y_selector) && same_tys(&*x_own_targs, &*y_own_targs) && same_rows(&*x_own_rowargs, &*y_own_rowargs) && same_h_exprs(&*x_args, &*y_args),
        (HKind::Construct { class: x_class, targs: x_targs, args: x_args }, HKind::Construct { class: y_class, targs: y_targs, args: y_args }) => *x_class == *y_class && same_tys(&*x_targs, &*y_targs) && same_h_exprs(&*x_args, &*y_args),
        (HKind::Native { op: x_op, args: x_args }, HKind::Native { op: y_op, args: y_args }) => *x_op == *y_op && same_h_exprs(&*x_args, &*y_args),
        (HKind::Intrinsic { slot: x_slot, args: x_args }, HKind::Intrinsic { slot: y_slot, args: y_args }) => *x_slot == *y_slot && same_h_exprs(&*x_args, &*y_args),
        (HKind::Perform { op: x_op, args: x_args }, HKind::Perform { op: y_op, args: y_args }) => *x_op == *y_op && same_h_exprs(&*x_args, &*y_args),
        (HKind::And(x0, x1), HKind::And(y0, y1)) => same_h_expr(&*x0, &*y0) && same_h_expr(&*x1, &*y1),
        (HKind::Or(x0, x1), HKind::Or(y0, y1)) => same_h_expr(&*x0, &*y0) && same_h_expr(&*x1, &*y1),
        (HKind::Binary { op: x_op, operand_ty: x_operand_ty, left: x_left, right: x_right }, HKind::Binary { op: y_op, operand_ty: y_operand_ty, left: y_left, right: y_right }) => *x_op == *y_op && same_ty(&*x_operand_ty, &*y_operand_ty) && same_h_expr(&*x_left, &*y_left) && same_h_expr(&*x_right, &*y_right),
        (HKind::IsType { value: x_value, ty: x_ty }, HKind::IsType { value: y_value, ty: y_ty }) => same_h_expr(&*x_value, &*y_value) && same_ty(&*x_ty, &*y_ty),
        (HKind::CastType { value: x_value, ty: x_ty }, HKind::CastType { value: y_value, ty: y_ty }) => same_h_expr(&*x_value, &*y_value) && same_ty(&*x_ty, &*y_ty),
        (HKind::FieldGet { recv: x_recv, field: x_field }, HKind::FieldGet { recv: y_recv, field: y_field }) => same_h_expr(&*x_recv, &*y_recv) && *x_field == *y_field,
        (HKind::TupleLit(x0), HKind::TupleLit(y0)) => same_h_exprs(&*x0, &*y0),
        (HKind::ListLit(x0), HKind::ListLit(y0)) => same_h_exprs(&*x0, &*y0),
        (HKind::MapLit(x0), HKind::MapLit(y0)) => same_h_entries(&*x0, &*y0),
        (HKind::TupleGet { tuple: x_tuple, index: x_index }, HKind::TupleGet { tuple: y_tuple, index: y_index }) => same_h_expr(&*x_tuple, &*y_tuple) && *x_index == *y_index,
        (HKind::If { branches: x_branches, else_body: x_else_body }, HKind::If { branches: y_branches, else_body: y_else_body }) => same_h_if_arms(&*x_branches, &*y_branches) && same_opt_h_stmt_list(&*x_else_body, &*y_else_body),
        (HKind::Case { scrut: x_scrut, scrut_slot: x_scrut_slot, arms: x_arms }, HKind::Case { scrut: y_scrut, scrut_slot: y_scrut_slot, arms: y_arms }) => same_h_expr(&*x_scrut, &*y_scrut) && *x_scrut_slot == *y_scrut_slot && same_h_arms(&*x_arms, &*y_arms),
        (HKind::ReflectCase { scrut: x_scrut, scrut_slot: x_scrut_slot, refined: x_refined, fallback: x_fallback }, HKind::ReflectCase { scrut: y_scrut, scrut_slot: y_scrut_slot, refined: y_refined, fallback: y_fallback }) => same_h_expr(&*x_scrut, &*y_scrut) && *x_scrut_slot == *y_scrut_slot && same_h_reflect_arms(&*x_refined, &*y_refined) && same_h_stmts(&*x_fallback, &*y_fallback),
        (HKind::Loop { body: x_body, result_slot: x_result_slot }, HKind::Loop { body: y_body, result_slot: y_result_slot }) => same_h_stmts(&*x_body, &*y_body) && same_opt_u32(&*x_result_slot, &*y_result_slot),
        (HKind::OpConst(x0), HKind::OpConst(y0)) => *x0 == *y0,
        (HKind::TableEdit { action: x_action, target: x_target, entry: x_entry, table: x_table, mock: x_mock }, HKind::TableEdit { action: y_action, target: y_target, entry: y_entry, table: y_table, mock: y_mock }) => *x_action == *y_action && *x_target == *y_target && *x_entry == *y_entry && same_h_expr(&*x_table, &*y_table) && same_opt_h_expr(&*x_mock, &*y_mock),
        (HKind::CallArgs(x0), HKind::CallArgs(y0)) => same_h_expr(&*x0, &*y0),
        (HKind::RequestOpName(x0), HKind::RequestOpName(y0)) => same_h_expr(&*x0, &*y0),
        (HKind::FaultCodeGet(x0), HKind::FaultCodeGet(y0)) => same_h_expr(&*x0, &*y0),
        (HKind::FaultDenied(x0), HKind::FaultDenied(y0)) => same_h_expr(&*x0, &*y0),
        (HKind::Spawn { class: x_class, body: x_body, ctor_ty: x_ctor_ty, body_ty: x_body_ty, args: x_args }, HKind::Spawn { class: y_class, body: y_body, ctor_ty: y_ctor_ty, body_ty: y_body_ty, args: y_args }) => *x_class == *y_class && *x_body == *y_body && same_ty(&*x_ctor_ty, &*y_ctor_ty) && same_ty(&*x_body_ty, &*y_body_ty) && same_h_exprs(&*x_args, &*y_args),
        _ => false,
    }
}

pub fn same_u8s(a: &Chain<u8>, b: &Chain<u8>) -> (r: bool)
    ensures
        r == (*a == *b),
    decreases a,
{
    match (a, b) {
        (Chain::Nil, Chain::Nil) => true,
        (Chain::Cons(x, xs), Chain::Cons(y, ys)) => **x == **y && same_u8s(xs, ys),
        _ => false,
    }
}

pub fn same_h_parts(a: &Chain<HPart>, b: &Chain<HPart>) -> (r: bool)
    ensures
        r == (*a == *b),
    decreases a,
{
    match (a, b) {
        (Chain::Nil, Chain::Nil) => true,
        (Chain::Cons(x, xs), Chain::Cons(y, ys)) => same_h_part(&**x, &**y) && same_h_parts(xs, ys),
        _ => false,
    }
}

pub fn same_h_exprs(a: &Chain<HExpr>, b: &Chain<HExpr>) -> (r: bool)
    ensures
        r == (*a == *b),
    decreases a,
{
    match (a, b) {
        (Chain::Nil, Chain::Nil) => true,
        (Chain::Cons(x, xs), Chain::Cons(y, ys)) => same_h_expr(&**x, &**y) && same_h_exprs(xs, ys),
        _ => false,
    }
}

pub fn same_h_entries(a: &Chain<HEntry>, b: &Chain<HEntry>) -> (r: bool)
    ensures
        r == (*a == *b),
    decreases a,
{
    match (a, b) {
        (Chain::Nil, Chain::Nil) => true,
        (Chain::Cons(x, xs), Chain::Cons(y, ys)) => same_h_entry(&**x, &**y) && same_h_entries(xs, ys),
        _ => false,
    }
}

pub fn same_h_if_arms(a: &Chain<HIfArm>, b: &Chain<HIfArm>) -> (r: bool)
    ensures
        r == (*a == *b),
    decreases a,
{
    match (a, b) {
        (Chain::Nil, Chain::Nil) => true,
        (Chain::Cons(x, xs), Chain::Cons(y, ys)) => same_h_if_arm(&**x, &**y) && same_h_if_arms(xs, ys),
        _ => false,
    }
}

pub fn same_opt_h_stmt_list(a: &Option<Chain<HStmt>>, b: &Option<Chain<HStmt>>) -> (r: bool)
    ensures
        r == (*a == *b),
    decreases a,
{
    match (a, b) {
        (None, None) => true,
        (Some(x), Some(y)) => same_h_stmts(&*x, &*y),
        _ => false,
    }
}

pub fn same_h_arms(a: &Chain<HArm>, b: &Chain<HArm>) -> (r: bool)
    ensures
        r == (*a == *b),
    decreases a,
{
    match (a, b) {
        (Chain::Nil, Chain::Nil) => true,
        (Chain::Cons(x, xs), Chain::Cons(y, ys)) => same_h_arm(&**x, &**y) && same_h_arms(xs, ys),
        _ => false,
    }
}

pub fn same_h_reflect_arms(a: &Chain<HReflectArm>, b: &Chain<HReflectArm>) -> (r: bool)
    ensures
        r == (*a == *b),
    decreases a,
{
    match (a, b) {
        (Chain::Nil, Chain::Nil) => true,
        (Chain::Cons(x, xs), Chain::Cons(y, ys)) => same_h_reflect_arm(&**x, &**y) && same_h_reflect_arms(xs, ys),
        _ => false,
    }
}

pub fn same_h_stmts(a: &Chain<HStmt>, b: &Chain<HStmt>) -> (r: bool)
    ensures
        r == (*a == *b),
    decreases a,
{
    match (a, b) {
        (Chain::Nil, Chain::Nil) => true,
        (Chain::Cons(x, xs), Chain::Cons(y, ys)) => same_h_stmt(&**x, &**y) && same_h_stmts(xs, ys),
        _ => false,
    }
}

pub fn same_opt_u32(a: &Option<u32>, b: &Option<u32>) -> (r: bool)
    ensures
        r == (*a == *b),
    decreases a,
{
    match (a, b) {
        (None, None) => true,
        (Some(x), Some(y)) => *x == *y,
        _ => false,
    }
}

pub fn same_opt_h_expr(a: &Option<HExpr>, b: &Option<HExpr>) -> (r: bool)
    ensures
        r == (*a == *b),
    decreases a,
{
    match (a, b) {
        (None, None) => true,
        (Some(x), Some(y)) => same_h_expr(&*x, &*y),
        _ => false,
    }
}

/// Compare two values.
pub fn same_h_part(a: &HPart, b: &HPart) -> (r: bool)
    ensures
        r == (*a == *b),
    decreases a,
{
    match (a, b) {
        (HPart::Lit(x0), HPart::Lit(y0)) => same_text(&*x0, &*y0),
        (HPart::Value(x0), HPart::Value(y0)) => same_h_expr(&*x0, &*y0),
        _ => false,
    }
}

/// Compare two values.
pub fn same_h_entry(a: &HEntry, b: &HEntry) -> (r: bool)
    ensures
        r == (*a == *b),
    decreases a,
{
    same_h_expr(&a.key, &b.key)
        && same_h_expr(&a.value, &b.value)
}

/// Compare two values.
pub fn same_h_if_arm(a: &HIfArm, b: &HIfArm) -> (r: bool)
    ensures
        r == (*a == *b),
    decreases a,
{
    same_h_expr(&a.cond, &b.cond)
        && same_h_stmts(&a.body, &b.body)
}

/// Compare two values.
pub fn same_h_arm(a: &HArm, b: &HArm) -> (r: bool)
    ensures
        r == (*a == *b),
    decreases a,
{
    same_h_pattern(&a.pattern, &b.pattern)
        && same_h_stmts(&a.body, &b.body)
}

/// Compare two values.
pub fn same_h_reflect_arm(a: &HReflectArm, b: &HReflectArm) -> (r: bool)
    ensures
        r == (*a == *b),
    decreases a,
{
    a.kind == b.kind
        && a.pattern == b.pattern
        && a.type_base == b.type_base
        && a.effect_base == b.effect_base
        && same_opt_u32(&a.binding, &b.binding)
        && same_h_stmts(&a.body, &b.body)
}

/// Compare two values.
pub fn same_h_stmt(a: &HStmt, b: &HStmt) -> (r: bool)
    ensures
        r == (*a == *b),
    decreases a,
{
    match (a, b) {
        (HStmt::Assign { slot: x_slot, value: x_value }, HStmt::Assign { slot: y_slot, value: y_value }) => *x_slot == *y_slot && same_h_expr(&*x_value, &*y_value),
        (HStmt::AssignField { recv: x_recv, field: x_field, value: x_value }, HStmt::AssignField { recv: y_recv, field: y_field, value: y_value }) => same_h_expr(&*x_recv, &*y_recv) && *x_field == *y_field && same_h_expr(&*x_value, &*y_value),
        (HStmt::While { cond: x_cond, body: x_body }, HStmt::While { cond: y_cond, body: y_body }) => same_h_expr(&*x_cond, &*y_cond) && same_h_stmts(&*x_body, &*y_body),
        (HStmt::For { source: x_source, bindings: x_bindings, kind: x_kind, body: x_body }, HStmt::For { source: y_source, bindings: y_bindings, kind: y_kind, body: y_body }) => same_h_expr(&*x_source, &*y_source) && same_u32s(&*x_bindings, &*y_bindings) && same_h_for_kind(&*x_kind, &*y_kind) && same_h_stmts(&*x_body, &*y_body),
        (HStmt::Return(x0), HStmt::Return(y0)) => same_opt_h_expr(&*x0, &*y0),
        (HStmt::Break(x0), HStmt::Break(y0)) => same_opt_h_expr(&*x0, &*y0),
        (HStmt::Continue, HStmt::Continue) => true,
        (HStmt::Expr(x0), HStmt::Expr(y0)) => same_h_expr(&*x0, &*y0),
        _ => false,
    }
}

/// Compare two values.
pub fn same_h_pattern(a: &HPattern, b: &HPattern) -> (r: bool)
    ensures
        r == (*a == *b),
    decreases a,
{
    match (a, b) {
        (HPattern::Wildcard, HPattern::Wildcard) => true,
        (HPattern::Bind(x0), HPattern::Bind(y0)) => *x0 == *y0,
        (HPattern::Int(x0), HPattern::Int(y0)) => *x0 == *y0,
        (HPattern::Bool(x0), HPattern::Bool(y0)) => *x0 == *y0,
        (HPattern::Str(x0), HPattern::Str(y0)) => same_text(&*x0, &*y0),
        (HPattern::Tuple { elems: x_elems, elem_tys: x_elem_tys }, HPattern::Tuple { elems: y_elems, elem_tys: y_elem_tys }) => same_h_patterns(&*x_elems, &*y_elems) && same_tys(&*x_elem_tys, &*y_elem_tys),
        (HPattern::Ctor { class: x_class, ty: x_ty, args: x_args, field_tys: x_field_tys }, HPattern::Ctor { class: y_class, ty: y_ty, args: y_args, field_tys: y_field_tys }) => *x_class == *y_class && same_ty(&*x_ty, &*y_ty) && same_h_patterns(&*x_args, &*y_args) && same_tys(&*x_field_tys, &*y_field_tys),
        (HPattern::Project { projection: x_projection, ty: x_ty, inner: x_inner }, HPattern::Project { projection: y_projection, ty: y_ty, inner: y_inner }) => *x_projection == *y_projection && same_ty(&*x_ty, &*y_ty) && same_h_pattern(&**x_inner, &**y_inner),
        (HPattern::And(x0), HPattern::And(y0)) => same_h_patterns(&*x0, &*y0),
        _ => false,
    }
}

pub fn same_u32s(a: &Chain<u32>, b: &Chain<u32>) -> (r: bool)
    ensures
        r == (*a == *b),
    decreases a,
{
    match (a, b) {
        (Chain::Nil, Chain::Nil) => true,
        (Chain::Cons(x, xs), Chain::Cons(y, ys)) => **x == **y && same_u32s(xs, ys),
        _ => false,
    }
}

/// Compare two values.
pub fn same_h_for_kind(a: &HForKind, b: &HForKind) -> (r: bool)
    ensures
        r == (*a == *b),
    decreases a,
{
    match (a, b) {
        (HForKind::List { source_slot: x_source_slot, index_slot: x_index_slot, epoch_slot: x_epoch_slot, element: x_element }, HForKind::List { source_slot: y_source_slot, index_slot: y_index_slot, epoch_slot: y_epoch_slot, element: y_element }) => *x_source_slot == *y_source_slot && *x_index_slot == *y_index_slot && *x_epoch_slot == *y_epoch_slot && same_ty(&*x_element, &*y_element),
        (HForKind::Entries { source_slot: x_source_slot, index_slot: x_index_slot, epoch_slot: x_epoch_slot, key: x_key, value: x_value, pair: x_pair }, HForKind::Entries { source_slot: y_source_slot, index_slot: y_index_slot, epoch_slot: y_epoch_slot, key: y_key, value: y_value, pair: y_pair }) => *x_source_slot == *y_source_slot && *x_index_slot == *y_index_slot && *x_epoch_slot == *y_epoch_slot && same_ty(&*x_key, &*y_key) && same_ty(&*x_value, &*y_value) && same_ty(&*x_pair, &*y_pair),
        (HForKind::Chars { source_slot: x_source_slot, cursor_slot: x_cursor_slot, item: x_item }, HForKind::Chars { source_slot: y_source_slot, cursor_slot: y_cursor_slot, item: y_item }) => *x_source_slot == *y_source_slot && *x_cursor_slot == *y_cursor_slot && same_ty(&*x_item, &*y_item),
        (HForKind::Range { source_slot: x_source_slot, cursor_slot: x_cursor_slot, stop_slot: x_stop_slot }, HForKind::Range { source_slot: y_source_slot, cursor_slot: y_cursor_slot, stop_slot: y_stop_slot }) => *x_source_slot == *y_source_slot && *x_cursor_slot == *y_cursor_slot && *x_stop_slot == *y_stop_slot,
        (HForKind::Generic { source_slot: x_source_slot, iterator_slot: x_iterator_slot, option_slot: x_option_slot, item_slot: x_item_slot, iterator: x_iterator, next: x_next, some_ty: x_some_ty, item: x_item }, HForKind::Generic { source_slot: y_source_slot, iterator_slot: y_iterator_slot, option_slot: y_option_slot, item_slot: y_item_slot, iterator: y_iterator, next: y_next, some_ty: y_some_ty, item: y_item }) => *x_source_slot == *y_source_slot && *x_iterator_slot == *y_iterator_slot && *x_option_slot == *y_option_slot && same_opt_u32(&*x_item_slot, &*y_item_slot) && same_h_expr(&*x_iterator, &*y_iterator) && same_h_expr(&*x_next, &*y_next) && same_ty(&*x_some_ty, &*y_some_ty) && same_ty(&*x_item, &*y_item),
        _ => false,
    }
}

pub fn same_h_patterns(a: &Chain<HPattern>, b: &Chain<HPattern>) -> (r: bool)
    ensures
        r == (*a == *b),
    decreases a,
{
    match (a, b) {
        (Chain::Nil, Chain::Nil) => true,
        (Chain::Cons(x, xs), Chain::Cons(y, ys)) => same_h_pattern(&**x, &**y) && same_h_patterns(xs, ys),
        _ => false,
    }
}

} // verus!
