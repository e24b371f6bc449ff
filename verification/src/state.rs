//! The state of a callable under check.

use vstd::prelude::*;
use crate::ast::Span;
use crate::chain::{Chain, copy_chain};
use crate::context::{InterfaceUse, MethodFound, TyEnv, clone_interface_use_lists, clone_opt_ty, clone_texts};
use crate::hir::{HExpr, HForKind, HPattern, HReflectArm, HStmt, HirFunc, NativeOp, ReflectKind, TargetKind};
use crate::problem::Diag;
use crate::text::Text;
use crate::types::{Row, Ty, clone_tys};

verus! {

/// Where the value of a name comes from.
#[derive(Clone, Copy, PartialEq, Eq, Structural, Debug)]
pub enum CapSource {
    /// A local slot.
    Local(u32),
    /// A capture of the closure.
    Capture(u32),
}

/// One local slot: its type and its capability.
pub struct LocalVar {
    pub ty: Ty,
    pub mutable: bool,
}

/// One name of a scope.
pub struct ScopeEntry {
    pub name: Text,
    pub slot: u32,
}

/// One captured name.
pub struct CaptureRec {
    pub name: Text,
    pub ty: Ty,
    pub mutable: bool,
    pub source: CapSource,
}

/// One resolved name.
pub struct NameRes {
    pub source: CapSource,
    pub ty: Ty,
    pub mutable: bool,
}

/// What a loop does with the values of its breaks.
pub enum LoopMode {
    /// A `while` or `for` loop: no value.
    UnitOnly,
    /// The loop value is discarded.
    Discard,
    /// Every break gives a value of one type.
    Value(Ty),
    /// The breaks decide the type.
    Synth,
}

/// The result type of the checked callable.
pub enum RetKind {
    /// The module entry: `return` is invalid.
    Entry,
    /// A closure without a declared result: `return` is invalid.
    ClosureInfer,
    /// A declared result type.
    Known(Ty),
}

/// The definite-initialization state inside one constructor path.
pub struct CtorState {
    pub inited: Chain<bool>,
    pub super_done: bool,
}

/// The initializer under check.
pub struct CtorCtx {
    pub class: u32,
    pub needs_super: bool,
    pub state: CtorState,
}

/// How a block result is used.
pub enum BlockMode {
    /// The block value is discarded.
    Discard,
    /// The block must give a value of the type.
    Value(Ty),
    /// The block type comes from its final expression.
    Synth,
}

/// A narrowed local: its slot, its name and its type inside a branch.
pub struct Refinement {
    pub slot: u32,
    pub name: Text,
    pub ty: Ty,
}

/// One branch result: its type, its capability and its place.
pub struct BranchType {
    pub ty: Ty,
    pub mutable: bool,
    pub span: Span,
}

/// The initialization state behind one branch.
pub struct BranchState {
    pub state: CtorState,
    pub diverged: bool,
}

/// The type and effect arguments that inference has found.
pub struct Solution {
    pub types: Chain<Option<Ty>>,
    pub rows: Chain<Option<Row>>,
}

/// How one map operation uses its key argument.
#[derive(Clone, Copy, PartialEq, Eq, Structural, Debug)]
pub enum MapKeyUse {
    /// The operation compares a key but does not store it.
    Lookup,
    /// The operation can store the key after a miss.
    Insert,
}

/// One compiler-defined borrowed-key relation.
#[derive(Clone, Copy, PartialEq, Eq, Structural, Debug)]
pub enum BorrowedKeyRelation {
    /// Compare texts by visible content.
    TextContent,
}

/// The accepted parameter type of a key and its optional relation.
pub struct MapKeyParameter {
    pub ty: Ty,
    pub relation: Option<BorrowedKeyRelation>,
}

/// A callable that a call resolves to, with its generic parameters.
pub struct Signature {
    pub type_names: Chain<Text>,
    pub type_bounds: Chain<Chain<InterfaceUse>>,
    pub effects: u32,
    pub params: Chain<Ty>,
    pub muts: Chain<bool>,
    pub names: Chain<Text>,
    pub ret: Ty,
    pub row: Row,
}

impl Clone for LocalVar {
    fn clone(&self) -> (r: LocalVar)
        ensures
            r == *self,
        decreases self,
    {
        LocalVar {
            ty: (self.ty).clone(),
            mutable: self.mutable,
        }
    }
}

impl Clone for ScopeEntry {
    fn clone(&self) -> (r: ScopeEntry)
        ensures
            r == *self,
        decreases self,
    {
        ScopeEntry {
            name: copy_chain(&self.name),
            slot: self.slot,
        }
    }
}

impl Clone for CaptureRec {
    fn clone(&self) -> (r: CaptureRec)
        ensures
            r == *self,
        decreases self,
    {
        CaptureRec {
            name: copy_chain(&self.name),
            ty: (self.ty).clone(),
            mutable: self.mutable,
            source: self.source,
        }
    }
}

impl Clone for NameRes {
    fn clone(&self) -> (r: NameRes)
        ensures
            r == *self,
        decreases self,
    {
        NameRes {
            source: self.source,
            ty: (self.ty).clone(),
            mutable: self.mutable,
        }
    }
}

impl Clone for LoopMode {
    fn clone(&self) -> (r: LoopMode)
        ensures
            r == *self,
        decreases self,
    {
        match self {
            LoopMode::UnitOnly => LoopMode::UnitOnly,
            LoopMode::Discard => LoopMode::Discard,
            LoopMode::Value(x) => LoopMode::Value((*x).clone()),
            LoopMode::Synth => LoopMode::Synth,
        }
    }
}

impl Clone for RetKind {
    fn clone(&self) -> (r: RetKind)
        ensures
            r == *self,
        decreases self,
    {
        match self {
            RetKind::Entry => RetKind::Entry,
            RetKind::ClosureInfer => RetKind::ClosureInfer,
            RetKind::Known(x) => RetKind::Known((*x).clone()),
        }
    }
}

impl Clone for CtorState {
    fn clone(&self) -> (r: CtorState)
        ensures
            r == *self,
        decreases self,
    {
        CtorState {
            inited: copy_chain(&self.inited),
            super_done: self.super_done,
        }
    }
}

impl Clone for CtorCtx {
    fn clone(&self) -> (r: CtorCtx)
        ensures
            r == *self,
        decreases self,
    {
        CtorCtx {
            class: self.class,
            needs_super: self.needs_super,
            state: (self.state).clone(),
        }
    }
}

impl Clone for BlockMode {
    fn clone(&self) -> (r: BlockMode)
        ensures
            r == *self,
        decreases self,
    {
        match self {
            BlockMode::Discard => BlockMode::Discard,
            BlockMode::Value(x) => BlockMode::Value((*x).clone()),
            BlockMode::Synth => BlockMode::Synth,
        }
    }
}

impl Clone for Refinement {
    fn clone(&self) -> (r: Refinement)
        ensures
            r == *self,
        decreases self,
    {
        Refinement {
            slot: self.slot,
            name: copy_chain(&self.name),
            ty: (self.ty).clone(),
        }
    }
}

impl Clone for BranchType {
    fn clone(&self) -> (r: BranchType)
        ensures
            r == *self,
        decreases self,
    {
        BranchType {
            ty: (self.ty).clone(),
            mutable: self.mutable,
            span: self.span,
        }
    }
}

impl Clone for BranchState {
    fn clone(&self) -> (r: BranchState)
        ensures
            r == *self,
        decreases self,
    {
        BranchState {
            state: (self.state).clone(),
            diverged: self.diverged,
        }
    }
}

impl Clone for Solution {
    fn clone(&self) -> (r: Solution)
        ensures
            r == *self,
        decreases self,
    {
        Solution {
            types: clone_opt_tys(&self.types),
            rows: clone_opt_rows(&self.rows),
        }
    }
}

impl Clone for MapKeyParameter {
    fn clone(&self) -> (r: MapKeyParameter)
        ensures
            r == *self,
        decreases self,
    {
        MapKeyParameter {
            ty: (self.ty).clone(),
            relation: clone_opt_borrowed_key_relation(&self.relation),
        }
    }
}

impl Clone for Signature {
    fn clone(&self) -> (r: Signature)
        ensures
            r == *self,
        decreases self,
    {
        Signature {
            type_names: clone_texts(&self.type_names),
            type_bounds: clone_interface_use_lists(&self.type_bounds),
            effects: self.effects,
            params: clone_tys(&self.params),
            muts: copy_chain(&self.muts),
            names: clone_texts(&self.names),
            ret: (self.ret).clone(),
            row: copy_chain(&self.row),
        }
    }
}

pub fn clone_local_vars(items: &Chain<LocalVar>) -> (r: Chain<LocalVar>)
    ensures
        r == *items,
    decreases items,
{
    match items {
        Chain::Nil => Chain::Nil,
        Chain::Cons(head, tail) => Chain::Cons(
            Box::new((**head).clone()),
            Box::new(clone_local_vars(tail)),
        ),
    }
}

pub fn clone_opt_tys(items: &Chain<Option<Ty>>) -> (r: Chain<Option<Ty>>)
    ensures
        r == *items,
    decreases items,
{
    match items {
        Chain::Nil => Chain::Nil,
        Chain::Cons(head, tail) => Chain::Cons(
            Box::new(clone_opt_ty(&**head)),
            Box::new(clone_opt_tys(tail)),
        ),
    }
}

pub fn clone_opt_rows(items: &Chain<Option<Row>>) -> (r: Chain<Option<Row>>)
    ensures
        r == *items,
    decreases items,
{
    match items {
        Chain::Nil => Chain::Nil,
        Chain::Cons(head, tail) => Chain::Cons(
            Box::new(clone_opt_row(&**head)),
            Box::new(clone_opt_rows(tail)),
        ),
    }
}

pub fn clone_opt_borrowed_key_relation(item: &Option<BorrowedKeyRelation>) -> (r: Option<BorrowedKeyRelation>)
    ensures
        r == *item,
    decreases item,
{
    match item {
        Some(x) => Some(*x),
        None => None,
    }
}

pub fn clone_opt_row(item: &Option<Row>) -> (r: Option<Row>)
    ensures
        r == *item,
    decreases item,
{
    match item {
        Some(x) => Some(copy_chain(&*x)),
        None => None,
    }
}

/// One loop under check.
pub struct LoopContext {
    pub mode: LoopMode,
    pub breaks: Chain<BranchType>,
    /// The first break whose type arguments a sibling must decide.
    pub gap: Option<Diag>,
    /// What a `for` loop walks.
    pub walked: Option<HExpr>,
}

/// One function that checking has made, with its table index.
pub struct MadeFunc {
    pub index: u32,
    pub func: HirFunc,
}

/// What checking adds to the function table.
pub struct Output {
    pub next_func: u32,
    pub made: Chain<MadeFunc>,
}

/// The state of one callable under check.
pub struct Checker {
    /// The callable around a closure.
    pub outer: Option<Box<Checker>>,
    pub locals: Chain<LocalVar>,
    /// The open scopes, the innermost first.
    pub scopes: Chain<Chain<ScopeEntry>>,
    pub captures: Chain<CaptureRec>,
    pub is_closure: bool,
    /// The open loops, the innermost first.
    pub loops: Chain<LoopContext>,
    /// Whether the body holds a `return`.
    pub saw_return: bool,
    pub ret: RetKind,
    pub self_class: Option<u32>,
    pub ctor: Option<CtorCtx>,
    pub env: TyEnv,
    pub declared_row: Row,
    /// Whether charged rows are collected instead of compared.
    pub collect_row: bool,
    /// The names that the pattern under check has bound.
    pub binds: Chain<Text>,
    pub out: Output,
}

/// The checked body of a callable.
pub struct CheckedBody {
    pub body: Chain<HStmt>,
    pub locals: Chain<Ty>,
    pub diverges: bool,
    pub ty: Ty,
}

/// A checked block: its statements, its type and its capability.
pub struct Block {
    pub body: Chain<HStmt>,
    pub ty: Ty,
    pub mutable: bool,
}

/// A checked branch with the initialization state behind it.
pub struct BranchOut {
    pub block: Block,
    pub state: Option<CtorState>,
}

/// A checked case arm with the initialization state behind it.
pub struct ArmOut {
    pub pattern: HPattern,
    pub block: Block,
    pub state: Option<CtorState>,
}

/// The branches that checked, in order, and the first inference gap.
pub struct Tried<T> {
    pub found: Chain<Option<T>>,
    pub gap: Option<Diag>,
}

/// Checked branches, with the hint that they adopted.
pub struct Settled<T> {
    pub found: Chain<Option<T>>,
    pub hint: Option<Ty>,
}

/// Checked reflection arms, with their common capability.
pub struct Refined {
    pub arms: Chain<HReflectArm>,
    pub mutable: bool,
}

/// A checked reflection arm with its capability.
pub struct ReflectOut {
    pub arm: HReflectArm,
    pub mutable: bool,
}

/// A loop body with the loop that it ran in.
pub struct LoopOut {
    pub body: Chain<HStmt>,
    pub context: LoopContext,
}

/// How a loop walks its source, and what it binds.
pub struct Iteration {
    pub kind: HForKind,
    pub types: Chain<Ty>,
    pub mutable: bool,
}

/// The slots and the scope of the loop bindings.
pub struct Bound {
    pub slots: Chain<u32>,
    pub scope: Chain<ScopeEntry>,
}

/// The conditions of a conditional, with what each one narrows.
pub struct Conditions {
    pub conds: Chain<HExpr>,
    pub refinements: Chain<Option<Refinement>>,
    pub entry: Option<CtorState>,
}

/// The collected branch results of a conditional.
pub struct Gathered {
    pub states: Chain<BranchState>,
    pub bodies: Chain<Chain<HStmt>>,
    pub patterns: Chain<HPattern>,
}

/// Elements with one joined type.
pub struct Joined {
    pub items: Chain<HExpr>,
    pub ty: Ty,
}

/// The output of one polymorphic call check.
pub struct PolyOut {
    pub targs: Chain<Ty>,
    pub rowargs: Chain<Row>,
    pub args: Chain<HExpr>,
    pub ret: Ty,
}

/// The arguments that were synthesized to bind variables, in parameter
/// order, and what they bound.
pub struct Presynth {
    pub values: Chain<Option<HExpr>>,
    pub solution: Solution,
}

/// The resolved meaning of one called name.
pub enum Callee {
    Value(HExpr),
    Func(u32),
    Class(u32),
    Ctor(u32),
    /// `List[T]()` with an explicit argument.
    ListCtor(Ty),
    /// `Map[K, V]()` with explicit arguments.
    MapCtor(Ty, Ty),
    /// A callable `sys` member that a `use` line binds.
    SysMember { group: Text, member: Text },
    /// A `sys` group object that a `use` line binds.
    SysGroup(Text),
}

/// One resolved operator hook: the receiver class, its type arguments,
/// and the method that answers.
pub struct OperatorHook {
    pub class: u32,
    pub args: Chain<Ty>,
    pub found: MethodFound,
}

/// A policy target: its kind, its slot and its row element.
#[derive(Clone, Copy, PartialEq, Eq, Structural, Debug)]
pub struct Target {
    pub kind: TargetKind,
    pub slot: u32,
    pub row: u32,
}

/// One native method: its operation, its parameters and its result.
pub struct NativeMethod {
    pub op: NativeOp,
    pub params: Chain<Ty>,
    pub names: Chain<Text>,
    pub ret: Ty,
    pub needs_mut: bool,
}

/// The type and the binding of a reflection refinement.
pub struct Reflected {
    pub kind: ReflectKind,
    pub match_ty: Ty,
    pub binding_ty: Ty,
}

} // verus!
