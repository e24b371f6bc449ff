//! The syntax trees that the checker reads.

use vstd::prelude::*;
use crate::chain::{Chain, copy_chain};
use crate::text::Text;

verus! {

/// A source range, by byte offsets.
#[derive(Clone, Copy, PartialEq, Eq, Structural, Debug)]
pub struct Span {
    pub lo: u32,
    pub hi: u32,
}

/// The span from the start of one range to the end of another.
pub open spec fn spec_joined(a: Span, b: Span) -> Span {
    Span { lo: a.lo, hi: b.hi }
}

#[verifier::when_used_as_spec(spec_joined)]
pub fn joined(a: Span, b: Span) -> (r: Span)
    ensures
        r == spec_joined(a, b),
{
    Span { lo: a.lo, hi: b.hi }
}

/// The empty span, for a problem without a place.
pub open spec fn spec_nowhere() -> Span {
    Span { lo: 0, hi: 0 }
}

#[verifier::when_used_as_spec(spec_nowhere)]
pub fn nowhere() -> (r: Span)
    ensures
        r == spec_nowhere(),
{
    Span { lo: 0, hi: 0 }
}

/// One reference to an interface, with its arguments.
pub struct InterfaceRef {
    pub name: Text,
    pub type_args: Chain<TypeExpr>,
    pub row_args: Chain<RowArg>,
    pub span: Span,
}

/// One written effect-row argument.
pub struct RowArg {
    pub row: Chain<RowItem>,
}

/// One written effect-row element.
pub struct RowItem {
    pub name: Text,
    pub span: Span,
}

/// One written type.
pub struct TypeExpr {
    pub kind: TypeExprKind,
    pub span: Span,
}

/// The forms of a written type.
pub enum TypeExprKind {
    Unit,
    Name(Text),
    /// A generic type with its arguments.
    Apply(Text, Chain<TypeExpr>),
    /// `[T]`
    ListShort(Box<TypeExpr>),
    /// `{K: V}`
    MapShort(Box<TypeExpr>, Box<TypeExpr>),
    Tuple(Chain<TypeExpr>),
    /// Parameters, `mut` markers, result and row.
    Fn(Chain<TypeExpr>, Chain<bool>, Box<TypeExpr>, Chain<RowItem>),
}

/// One generic parameter with its bounds.
pub struct GenericParam {
    pub name: Text,
    pub is_effect: bool,
    pub bounds: Chain<InterfaceRef>,
    pub span: Span,
}

/// One declared parameter.
pub struct Param {
    pub name: Text,
    pub ty: TypeExpr,
    pub mutable: bool,
    pub escaping: bool,
    pub span: Span,
}

/// One expression.
pub struct Expr {
    pub kind: Box<ExprKind>,
    pub span: Span,
}

/// The forms of an expression.
pub enum ExprKind {
    Unit,
    Int(i64),
    /// A floating-point literal, by its bit pattern.
    Float(u64),
    Str(Text),
    Bytes(Chain<u8>),
    Bool(bool),
    Interp(Chain<InterpPart>),
    SelfRef,
    Name(Text),
    Not(Expr),
    Neg(Expr),
    Invert(Expr),
    Binary { op: BinOp, left: Expr, right: Expr },
    And(Expr, Expr),
    Or(Expr, Expr),
    Is { value: Expr, ty: TypeExpr },
    Cast { value: Expr, ty: TypeExpr },
    Call { name: Text, name_span: Span, type_args: Chain<TypeExpr>, args: Chain<Expr> },
    CallExpr { callee: Expr, args: Chain<Expr> },
    Field { recv: Expr, name: Text, name_span: Span },
    MethodCall { recv: Expr, name: Text, name_span: Span, type_args: Chain<TypeExpr>, args: Chain<Expr> },
    SuperCall { name: Text, name_span: Span, args: Chain<Expr> },
    Index { recv: Expr, index: Expr },
    /// Postfix `?`.
    Propagate(Expr),
    TupleLit(Chain<Expr>),
    ListLit(Chain<Expr>),
    MapLit(Chain<MapEntry>),
    Closure { params: Chain<Param>, ret: Option<TypeExpr>, row: Chain<RowItem>, body: Chain<Stmt> },
    If { branches: Chain<IfArm>, else_body: Option<Chain<Stmt>> },
    Case { scrut: Expr, arms: Chain<CaseArm> },
    Select(Chain<SelectArm>),
    Loop(Chain<Stmt>),
    Labeled { label: Text, value: Expr },
}

/// The binary operators.
#[derive(Clone, Copy, PartialEq, Eq, Structural, Debug)]
pub enum BinOp {
    Add,
    Sub,
    Mul,
    Div,
    Rem,
    Eq,
    Ne,
    Lt,
    Le,
    Gt,
    Ge,
    BitAnd,
    BitOr,
    BitXor,
    Shl,
    Shr,
    Ushr,
}

/// One part of an interpolated string.
pub enum InterpPart {
    Lit(Text),
    Value(Expr),
}

/// One entry of a map literal.
pub struct MapEntry {
    pub key: Expr,
    pub value: Expr,
}

/// One conditional branch.
pub struct IfArm {
    pub cond: Expr,
    pub body: Chain<Stmt>,
}

/// One arm of a case expression.
pub struct CaseArm {
    pub pattern: Pattern,
    pub body: Chain<Stmt>,
    pub span: Span,
}

/// One arm of a select expression.
pub struct SelectArm {
    pub wait: Expr,
    pub binding: Text,
    pub binding_span: Span,
    pub body: Chain<Stmt>,
    pub span: Span,
}

/// One statement.
pub struct Stmt {
    pub kind: StmtKind,
    pub span: Span,
}

/// The forms of a statement.
pub enum StmtKind {
    Assign { name: Text, name_span: Span, ty: Option<TypeExpr>, value: Expr },
    AssignField { recv: Expr, field: Text, field_span: Span, value: Expr },
    While { cond: Expr, body: Chain<Stmt> },
    For { bindings: Chain<LoopBinding>, value: Expr, body: Chain<Stmt> },
    Return(Option<Expr>),
    Break(Option<Expr>),
    Continue,
    Expr(Expr),
}

/// One name bound by a loop.
pub struct LoopBinding {
    pub name: Text,
    pub span: Span,
}

/// One pattern.
pub struct Pattern {
    pub kind: PatternKind,
    pub span: Span,
}

/// The forms of a pattern.
pub enum PatternKind {
    Wildcard,
    Int(i64),
    Bool(bool),
    Str(Text),
    Name(Text),
    Tuple(Chain<Pattern>),
    Ctor { qualifier: Option<Text>, name: Text, args: Chain<Pattern>, has_parens: bool },
    Reflect { kind: Text, generics: Chain<GenericParam>, signature: Option<TypeExpr>, binding: Box<Pattern> },
}

impl Clone for InterfaceRef {
    fn clone(&self) -> (r: InterfaceRef)
        ensures
            r == *self,
        decreases self,
    {
        InterfaceRef {
            name: copy_chain(&self.name),
            type_args: clone_type_exprs(&self.type_args),
            row_args: clone_row_args(&self.row_args),
            span: self.span,
        }
    }
}

impl Clone for RowArg {
    fn clone(&self) -> (r: RowArg)
        ensures
            r == *self,
        decreases self,
    {
        RowArg {
            row: clone_row_items(&self.row),
        }
    }
}

impl Clone for RowItem {
    fn clone(&self) -> (r: RowItem)
        ensures
            r == *self,
        decreases self,
    {
        RowItem {
            name: copy_chain(&self.name),
            span: self.span,
        }
    }
}

impl Clone for TypeExpr {
    fn clone(&self) -> (r: TypeExpr)
        ensures
            r == *self,
        decreases self,
    {
        TypeExpr {
            kind: (self.kind).clone(),
            span: self.span,
        }
    }
}

impl Clone for TypeExprKind {
    fn clone(&self) -> (r: TypeExprKind)
        ensures
            r == *self,
        decreases self,
    {
        match self {
            TypeExprKind::Unit => TypeExprKind::Unit,
            TypeExprKind::Name(x) => TypeExprKind::Name(copy_chain(&*x)),
            TypeExprKind::Apply(x0, x1) => TypeExprKind::Apply(copy_chain(&*x0), clone_type_exprs(&*x1)),
            TypeExprKind::ListShort(x) => TypeExprKind::ListShort(Box::new((**x).clone())),
            TypeExprKind::MapShort(x0, x1) => TypeExprKind::MapShort(Box::new((**x0).clone()), Box::new((**x1).clone())),
            TypeExprKind::Tuple(x) => TypeExprKind::Tuple(clone_type_exprs(&*x)),
            TypeExprKind::Fn(x0, x1, x2, x3) => TypeExprKind::Fn(clone_type_exprs(&*x0), copy_chain(&*x1), Box::new((**x2).clone()), clone_row_items(&*x3)),
        }
    }
}

impl Clone for GenericParam {
    fn clone(&self) -> (r: GenericParam)
        ensures
            r == *self,
        decreases self,
    {
        GenericParam {
            name: copy_chain(&self.name),
            is_effect: self.is_effect,
            bounds: clone_interface_refs(&self.bounds),
            span: self.span,
        }
    }
}

impl Clone for Param {
    fn clone(&self) -> (r: Param)
        ensures
            r == *self,
        decreases self,
    {
        Param {
            name: copy_chain(&self.name),
            ty: (self.ty).clone(),
            mutable: self.mutable,
            escaping: self.escaping,
            span: self.span,
        }
    }
}

impl Clone for Expr {
    fn clone(&self) -> (r: Expr)
        ensures
            r == *self,
        decreases self,
    {
        Expr {
            kind: Box::new((*self.kind).clone()),
            span: self.span,
        }
    }
}

impl Clone for ExprKind {
    fn clone(&self) -> (r: ExprKind)
        ensures
            r == *self,
        decreases self,
    {
        match self {
            ExprKind::Unit => ExprKind::Unit,
            ExprKind::Int(x) => ExprKind::Int(*x),
            ExprKind::Float(x) => ExprKind::Float(*x),
            ExprKind::Str(x) => ExprKind::Str(copy_chain(&*x)),
            ExprKind::Bytes(x) => ExprKind::Bytes(copy_chain(&*x)),
            ExprKind::Bool(x) => ExprKind::Bool(*x),
            ExprKind::Interp(x) => ExprKind::Interp(clone_interp_parts(&*x)),
            ExprKind::SelfRef => ExprKind::SelfRef,
            ExprKind::Name(x) => ExprKind::Name(copy_chain(&*x)),
            ExprKind::Not(x) => ExprKind::Not((*x).clone()),
            ExprKind::Neg(x) => ExprKind::Neg((*x).clone()),
            ExprKind::Invert(x) => ExprKind::Invert((*x).clone()),
            ExprKind::Binary { op, left, right } => ExprKind::Binary { op: *op, left: (*left).clone(), right: (*right).clone() },
            ExprKind::And(x0, x1) => ExprKind::And((*x0).clone(), (*x1).clone()),
            ExprKind::Or(x0, x1) => ExprKind::Or((*x0).clone(), (*x1).clone()),
            ExprKind::Is { value, ty } => ExprKind::Is { value: (*value).clone(), ty: (*ty).clone() },
            ExprKind::Cast { value, ty } => ExprKind::Cast { value: (*value).clone(), ty: (*ty).clone() },
            ExprKind::Call { name, name_span, type_args, args } => ExprKind::Call { name: copy_chain(&*name), name_span: *name_span, type_args: clone_type_exprs(&*type_args), args: clone_exprs(&*args) },
            ExprKind::CallExpr { callee, args } => ExprKind::CallExpr { callee: (*callee).clone(), args: clone_exprs(&*args) },
            ExprKind::Field { recv, name, name_span } => ExprKind::Field { recv: (*recv).clone(), name: copy_chain(&*name), name_span: *name_span },
            ExprKind::MethodCall { recv, name, name_span, type_args, args } => ExprKind::MethodCall { recv: (*recv).clone(), name: copy_chain(&*name), name_span: *name_span, type_args: clone_type_exprs(&*type_args), args: clone_exprs(&*args) },
            ExprKind::SuperCall { name, name_span, args } => ExprKind::SuperCall { name: copy_chain(&*name), name_span: *name_span, args: clone_exprs(&*args) },
            ExprKind::Index { recv, index } => ExprKind::Index { recv: (*recv).clone(), index: (*index).clone() },
            ExprKind::Propagate(x) => ExprKind::Propagate((*x).clone()),
            ExprKind::TupleLit(x) => ExprKind::TupleLit(clone_exprs(&*x)),
            ExprKind::ListLit(x) => ExprKind::ListLit(clone_exprs(&*x)),
            ExprKind::MapLit(x) => ExprKind::MapLit(clone_map_entries(&*x)),
            ExprKind::Closure { params, ret, row, body } => ExprKind::Closure { params: clone_params(&*params), ret: clone_opt_type_expr(&*ret), row: clone_row_items(&*row), body: clone_stmts(&*body) },
            ExprKind::If { branches, else_body } => ExprKind::If { branches: clone_if_arms(&*branches), else_body: clone_opt_stmt_list(&*else_body) },
            ExprKind::Case { scrut, arms } => ExprKind::Case { scrut: (*scrut).clone(), arms: clone_case_arms(&*arms) },
            ExprKind::Select(x) => ExprKind::Select(clone_select_arms(&*x)),
            ExprKind::Loop(x) => ExprKind::Loop(clone_stmts(&*x)),
            ExprKind::Labeled { label, value } => ExprKind::Labeled { label: copy_chain(&*label), value: (*value).clone() },
        }
    }
}

impl Clone for InterpPart {
    fn clone(&self) -> (r: InterpPart)
        ensures
            r == *self,
        decreases self,
    {
        match self {
            InterpPart::Lit(x) => InterpPart::Lit(copy_chain(&*x)),
            InterpPart::Value(x) => InterpPart::Value((*x).clone()),
        }
    }
}

impl Clone for MapEntry {
    fn clone(&self) -> (r: MapEntry)
        ensures
            r == *self,
        decreases self,
    {
        MapEntry {
            key: (self.key).clone(),
            value: (self.value).clone(),
        }
    }
}

impl Clone for IfArm {
    fn clone(&self) -> (r: IfArm)
        ensures
            r == *self,
        decreases self,
    {
        IfArm {
            cond: (self.cond).clone(),
            body: clone_stmts(&self.body),
        }
    }
}

impl Clone for CaseArm {
    fn clone(&self) -> (r: CaseArm)
        ensures
            r == *self,
        decreases self,
    {
        CaseArm {
            pattern: (self.pattern).clone(),
            body: clone_stmts(&self.body),
            span: self.span,
        }
    }
}

impl Clone for SelectArm {
    fn clone(&self) -> (r: SelectArm)
        ensures
            r == *self,
        decreases self,
    {
        SelectArm {
            wait: (self.wait).clone(),
            binding: copy_chain(&self.binding),
            binding_span: self.binding_span,
            body: clone_stmts(&self.body),
            span: self.span,
        }
    }
}

impl Clone for Stmt {
    fn clone(&self) -> (r: Stmt)
        ensures
            r == *self,
        decreases self,
    {
        Stmt {
            kind: (self.kind).clone(),
            span: self.span,
        }
    }
}

impl Clone for StmtKind {
    fn clone(&self) -> (r: StmtKind)
        ensures
            r == *self,
        decreases self,
    {
        match self {
            StmtKind::Assign { name, name_span, ty, value } => StmtKind::Assign { name: copy_chain(&*name), name_span: *name_span, ty: clone_opt_type_expr(&*ty), value: (*value).clone() },
            StmtKind::AssignField { recv, field, field_span, value } => StmtKind::AssignField { recv: (*recv).clone(), field: copy_chain(&*field), field_span: *field_span, value: (*value).clone() },
            StmtKind::While { cond, body } => StmtKind::While { cond: (*cond).clone(), body: clone_stmts(&*body) },
            StmtKind::For { bindings, value, body } => StmtKind::For { bindings: clone_loop_bindings(&*bindings), value: (*value).clone(), body: clone_stmts(&*body) },
            StmtKind::Return(x) => StmtKind::Return(clone_opt_expr(&*x)),
            StmtKind::Break(x) => StmtKind::Break(clone_opt_expr(&*x)),
            StmtKind::Continue => StmtKind::Continue,
            StmtKind::Expr(x) => StmtKind::Expr((*x).clone()),
        }
    }
}

impl Clone for LoopBinding {
    fn clone(&self) -> (r: LoopBinding)
        ensures
            r == *self,
        decreases self,
    {
        LoopBinding {
            name: copy_chain(&self.name),
            span: self.span,
        }
    }
}

impl Clone for Pattern {
    fn clone(&self) -> (r: Pattern)
        ensures
            r == *self,
        decreases self,
    {
        Pattern {
            kind: (self.kind).clone(),
            span: self.span,
        }
    }
}

impl Clone for PatternKind {
    fn clone(&self) -> (r: PatternKind)
        ensures
            r == *self,
        decreases self,
    {
        match self {
            PatternKind::Wildcard => PatternKind::Wildcard,
            PatternKind::Int(x) => PatternKind::Int(*x),
            PatternKind::Bool(x) => PatternKind::Bool(*x),
            PatternKind::Str(x) => PatternKind::Str(copy_chain(&*x)),
            PatternKind::Name(x) => PatternKind::Name(copy_chain(&*x)),
            PatternKind::Tuple(x) => PatternKind::Tuple(clone_patterns(&*x)),
            PatternKind::Ctor { qualifier, name, args, has_parens } => PatternKind::Ctor { qualifier: clone_opt_text(&*qualifier), name: copy_chain(&*name), args: clone_patterns(&*args), has_parens: *has_parens },
            PatternKind::Reflect { kind, generics, signature, binding } => PatternKind::Reflect { kind: copy_chain(&*kind), generics: clone_generic_params(&*generics), signature: clone_opt_type_expr(&*signature), binding: Box::new((**binding).clone()) },
        }
    }
}

pub fn clone_type_exprs(items: &Chain<TypeExpr>) -> (r: Chain<TypeExpr>)
    ensures
        r == *items,
    decreases items,
{
    match items {
        Chain::Nil => Chain::Nil,
        Chain::Cons(head, tail) => Chain::Cons(
            Box::new((**head).clone()),
            Box::new(clone_type_exprs(tail)),
        ),
    }
}

pub fn clone_row_args(items: &Chain<RowArg>) -> (r: Chain<RowArg>)
    ensures
        r == *items,
    decreases items,
{
    match items {
        Chain::Nil => Chain::Nil,
        Chain::Cons(head, tail) => Chain::Cons(
            Box::new((**head).clone()),
            Box::new(clone_row_args(tail)),
        ),
    }
}

pub fn clone_row_items(items: &Chain<RowItem>) -> (r: Chain<RowItem>)
    ensures
        r == *items,
    decreases items,
{
    match items {
        Chain::Nil => Chain::Nil,
        Chain::Cons(head, tail) => Chain::Cons(
            Box::new((**head).clone()),
            Box::new(clone_row_items(tail)),
        ),
    }
}

pub fn clone_interface_refs(items: &Chain<InterfaceRef>) -> (r: Chain<InterfaceRef>)
    ensures
        r == *items,
    decreases items,
{
    match items {
        Chain::Nil => Chain::Nil,
        Chain::Cons(head, tail) => Chain::Cons(
            Box::new((**head).clone()),
            Box::new(clone_interface_refs(tail)),
        ),
    }
}

pub fn clone_interp_parts(items: &Chain<InterpPart>) -> (r: Chain<InterpPart>)
    ensures
        r == *items,
    decreases items,
{
    match items {
        Chain::Nil => Chain::Nil,
        Chain::Cons(head, tail) => Chain::Cons(
            Box::new((**head).clone()),
            Box::new(clone_interp_parts(tail)),
        ),
    }
}

pub fn clone_exprs(items: &Chain<Expr>) -> (r: Chain<Expr>)
    ensures
        r == *items,
    decreases items,
{
    match items {
        Chain::Nil => Chain::Nil,
        Chain::Cons(head, tail) => Chain::Cons(
            Box::new((**head).clone()),
            Box::new(clone_exprs(tail)),
        ),
    }
}

pub fn clone_map_entries(items: &Chain<MapEntry>) -> (r: Chain<MapEntry>)
    ensures
        r == *items,
    decreases items,
{
    match items {
        Chain::Nil => Chain::Nil,
        Chain::Cons(head, tail) => Chain::Cons(
            Box::new((**head).clone()),
            Box::new(clone_map_entries(tail)),
        ),
    }
}

pub fn clone_params(items: &Chain<Param>) -> (r: Chain<Param>)
    ensures
        r == *items,
    decreases items,
{
    match items {
        Chain::Nil => Chain::Nil,
        Chain::Cons(head, tail) => Chain::Cons(
            Box::new((**head).clone()),
            Box::new(clone_params(tail)),
        ),
    }
}

pub fn clone_opt_type_expr(item: &Option<TypeExpr>) -> (r: Option<TypeExpr>)
    ensures
        r == *item,
    decreases item,
{
    match item {
        Some(x) => Some((*x).clone()),
        None => None,
    }
}

pub fn clone_stmts(items: &Chain<Stmt>) -> (r: Chain<Stmt>)
    ensures
        r == *items,
    decreases items,
{
    match items {
        Chain::Nil => Chain::Nil,
        Chain::Cons(head, tail) => Chain::Cons(
            Box::new((**head).clone()),
            Box::new(clone_stmts(tail)),
        ),
    }
}

pub fn clone_if_arms(items: &Chain<IfArm>) -> (r: Chain<IfArm>)
    ensures
        r == *items,
    decreases items,
{
    match items {
        Chain::Nil => Chain::Nil,
        Chain::Cons(head, tail) => Chain::Cons(
            Box::new((**head).clone()),
            Box::new(clone_if_arms(tail)),
        ),
    }
}

pub fn clone_opt_stmt_list(item: &Option<Chain<Stmt>>) -> (r: Option<Chain<Stmt>>)
    ensures
        r == *item,
    decreases item,
{
    match item {
        Some(x) => Some(clone_stmts(&*x)),
        None => None,
    }
}

pub fn clone_case_arms(items: &Chain<CaseArm>) -> (r: Chain<CaseArm>)
    ensures
        r == *items,
    decreases items,
{
    match items {
        Chain::Nil => Chain::Nil,
        Chain::Cons(head, tail) => Chain::Cons(
            Box::new((**head).clone()),
            Box::new(clone_case_arms(tail)),
        ),
    }
}

pub fn clone_select_arms(items: &Chain<SelectArm>) -> (r: Chain<SelectArm>)
    ensures
        r == *items,
    decreases items,
{
    match items {
        Chain::Nil => Chain::Nil,
        Chain::Cons(head, tail) => Chain::Cons(
            Box::new((**head).clone()),
            Box::new(clone_select_arms(tail)),
        ),
    }
}

pub fn clone_loop_bindings(items: &Chain<LoopBinding>) -> (r: Chain<LoopBinding>)
    ensures
        r == *items,
    decreases items,
{
    match items {
        Chain::Nil => Chain::Nil,
        Chain::Cons(head, tail) => Chain::Cons(
            Box::new((**head).clone()),
            Box::new(clone_loop_bindings(tail)),
        ),
    }
}

pub fn clone_opt_expr(item: &Option<Expr>) -> (r: Option<Expr>)
    ensures
        r == *item,
    decreases item,
{
    match item {
        Some(x) => Some((*x).clone()),
        None => None,
    }
}

pub fn clone_patterns(items: &Chain<Pattern>) -> (r: Chain<Pattern>)
    ensures
        r == *items,
    decreases items,
{
    match items {
        Chain::Nil => Chain::Nil,
        Chain::Cons(head, tail) => Chain::Cons(
            Box::new((**head).clone()),
            Box::new(clone_patterns(tail)),
        ),
    }
}

pub fn clone_opt_text(item: &Option<Text>) -> (r: Option<Text>)
    ensures
        r == *item,
    decreases item,
{
    match item {
        Some(x) => Some(copy_chain(&*x)),
        None => None,
    }
}

pub fn clone_generic_params(items: &Chain<GenericParam>) -> (r: Chain<GenericParam>)
    ensures
        r == *items,
    decreases items,
{
    match items {
        Chain::Nil => Chain::Nil,
        Chain::Cons(head, tail) => Chain::Cons(
            Box::new((**head).clone()),
            Box::new(clone_generic_params(tail)),
        ),
    }
}

/// One import line.
pub struct UseDecl {
    pub path: Chain<Text>,
    pub span: Span,
    pub name_span: Span,
}

/// One associated type: bounds in an interface, a value in a class.
pub struct AssociatedType {
    pub name: Text,
    pub name_span: Span,
    pub bounds: Chain<InterfaceRef>,
    pub value: Option<TypeExpr>,
    pub span: Span,
}

/// One declared conformance with its premises.
pub struct ConformanceRef {
    pub application: InterfaceRef,
    pub premises: Chain<GenericParam>,
    pub span: Span,
}

/// One premise of an interface method.
pub struct PremiseDef {
    pub subject: TypeExpr,
    pub bounds: Chain<InterfaceRef>,
    pub span: Span,
}

/// One method requirement of an interface.
pub struct InterfaceMethod {
    pub name: Text,
    pub name_span: Span,
    pub generics: Chain<GenericParam>,
    pub premises: Chain<PremiseDef>,
    pub params: Chain<Param>,
    pub ret: Option<TypeExpr>,
    pub row: Chain<RowItem>,
    pub mut_self: bool,
    pub body: Option<Chain<Stmt>>,
    pub span: Span,
}

/// One interface declaration.
pub struct InterfaceDef {
    pub name: Text,
    pub name_span: Span,
    pub generics: Chain<GenericParam>,
    pub parents: Chain<InterfaceRef>,
    pub associated: Chain<AssociatedType>,
    pub methods: Chain<InterfaceMethod>,
    pub span: Span,
}

/// The parent of a class.
pub struct ParentClause {
    pub name: Text,
    pub args: Chain<TypeExpr>,
    pub span: Span,
}

/// One declared field.
pub struct FieldDef {
    pub name: Text,
    pub ty: TypeExpr,
    pub default: Option<Expr>,
    pub span: Span,
}

/// One declared method.
pub struct MethodDef {
    pub name: Text,
    pub name_span: Span,
    pub generics: Chain<GenericParam>,
    pub premises: Chain<GenericParam>,
    pub params: Chain<Param>,
    pub ret: Option<TypeExpr>,
    pub row: Chain<RowItem>,
    pub mut_self: bool,
    pub body: Chain<Stmt>,
    pub span: Span,
}

/// One class declaration.
pub struct ClassDef {
    pub name: Text,
    pub name_span: Span,
    pub is_final: bool,
    pub is_frozen: bool,
    pub generics: Chain<GenericParam>,
    pub parent: Option<ParentClause>,
    pub interfaces: Chain<ConformanceRef>,
    pub associated: Chain<AssociatedType>,
    pub fields: Chain<FieldDef>,
    pub methods: Chain<MethodDef>,
    pub span: Span,
}

/// One field of an enum arm.
pub struct ArmField {
    pub name: Text,
    pub ty: TypeExpr,
}

/// One enum arm.
pub struct ArmDef {
    pub name: Text,
    pub name_span: Span,
    pub fields: Chain<ArmField>,
}

/// One enum declaration.
pub struct EnumDef {
    pub name: Text,
    pub name_span: Span,
    pub generics: Chain<GenericParam>,
    pub interfaces: Chain<ConformanceRef>,
    pub associated: Chain<AssociatedType>,
    pub arms: Chain<ArmDef>,
    pub methods: Chain<MethodDef>,
    pub span: Span,
}

/// One function declaration.
pub struct FuncDef {
    pub name: Text,
    pub name_span: Span,
    pub generics: Chain<GenericParam>,
    pub params: Chain<Param>,
    pub ret: Option<TypeExpr>,
    pub row: Chain<RowItem>,
    pub body: Chain<Stmt>,
    pub span: Span,
}

/// One source module.
pub struct Module {
    pub uses: Chain<UseDecl>,
    pub interfaces: Chain<InterfaceDef>,
    pub classes: Chain<ClassDef>,
    pub enums: Chain<EnumDef>,
    pub funcs: Chain<FuncDef>,
    pub entry: Chain<Stmt>,
}

} // verus!
