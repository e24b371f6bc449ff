//! The tables that the rules read: classes, interfaces, scopes and answers.

use vstd::prelude::*;
use crate::abi::Bundle;
use crate::ast::Span;
use crate::chain::{Chain, copy_chain};
use crate::hir::{HExpr, clone_h_exprs, same_h_expr, same_h_exprs};
use crate::rows::same_row;
use crate::text::{Text, same_text};
use crate::types::{Row, Ty, clone_tys, same_flags, same_ty, same_tys};

verus! {

/// The machine representation of a core class.
#[derive(Clone, Copy, PartialEq, Eq, Structural, Debug)]
pub enum NativeRepr {
    Unit,
    Int,
    Float,
    Bool,
    Text,
    String,
    Substring,
    Char,
    Bytes,
    StringBuilder,
    ByteBuffer,
    List,
    MapRepr,
    FileHandle,
    TcpResource,
    TcpStream,
    TcpListener,
    TlsStream,
    UdpSocket,
    Artifact,
    VerifiedModule,
    FunctionCode,
    ClassCode,
    SlotSpec,
    CodeInstance,
    Slot,
    FunctionDef,
    ClassDef,
    FunctionBinding,
    ClassBinding,
    DynValue,
    /// A tuple of the given arity.
    Tuple(u8),
}

/// What a class entry declares.
#[derive(Clone, Copy, PartialEq, Eq, Structural, Debug)]
pub enum ClassKind {
    Normal,
    /// The closed family of an enum.
    EnumParent,
    /// One arm of an enum.
    EnumCase,
}

/// One resolved application of an interface.
pub struct InterfaceUse {
    pub interface: u32,
    pub type_args: Chain<Ty>,
    pub row_args: Chain<Row>,
}

/// One callable signature.
pub struct FnSig {
    pub type_params: Chain<Text>,
    pub type_bounds: Chain<Chain<InterfaceUse>>,
    pub effect_params: Chain<Text>,
    pub params: Chain<Ty>,
    pub param_muts: Chain<bool>,
    pub param_names: Chain<Text>,
    pub ret: Ty,
    pub row: Row,
}

/// One declared method, without `self` in the parameter lists.
pub struct MethodSig {
    pub name: Text,
    pub func: u32,
    pub mut_self: bool,
    pub params: Chain<Ty>,
    pub param_muts: Chain<bool>,
    pub param_names: Chain<Text>,
    pub ret: Ty,
    pub row: Row,
    pub class_type_bounds: Chain<Chain<InterfaceUse>>,
    pub own_type_params: Chain<Text>,
    pub own_type_bounds: Chain<Chain<InterfaceUse>>,
    pub own_effect_params: Chain<Text>,
}

/// One associated type of an interface.
pub struct AssociatedInfo {
    pub name: Text,
    pub bounds: Chain<InterfaceUse>,
}

/// One premise on a type.
pub struct TypePremise {
    pub subject: Ty,
    pub bounds: Chain<InterfaceUse>,
}

/// One method requirement of an interface.
pub struct InterfaceMethodSig {
    pub name: Text,
    pub mut_self: bool,
    pub own_type_params: Chain<Text>,
    pub own_type_bounds: Chain<Chain<InterfaceUse>>,
    pub own_effect_params: Chain<Text>,
    pub premises: Chain<TypePremise>,
    pub params: Chain<Ty>,
    pub param_muts: Chain<bool>,
    pub param_names: Chain<Text>,
    pub ret: Ty,
    pub row: Row,
    pub default_func: Option<u32>,
    pub default_binding: Option<Text>,
}

/// The module and name that an imported interface comes from.
pub struct Origin {
    pub module: Text,
    pub name: Text,
}

/// One declared interface.
pub struct InterfaceInfo {
    pub origin: Option<Origin>,
    pub name: Text,
    pub type_params: Chain<Text>,
    pub effect_params: Chain<Text>,
    pub generic_is_effect: Chain<bool>,
    pub parents: Chain<InterfaceUse>,
    pub type_bounds: Chain<Chain<InterfaceUse>>,
    pub associated: Chain<AssociatedInfo>,
    pub methods: Chain<InterfaceMethodSig>,
}

/// One premise of a conformance, on a class type parameter.
pub struct ConformancePremise {
    pub param: u32,
    pub bounds: Chain<InterfaceUse>,
}

/// One explicit conformance of a class.
pub struct ConformanceInfo {
    pub application: InterfaceUse,
    pub premises: Chain<ConformancePremise>,
    pub associated: Chain<Ty>,
    pub method_overrides: Chain<bool>,
}

/// What predeclaration knows of a class.
pub struct ClassMeta {
    pub name: Text,
    pub type_params: u32,
    pub kind: ClassKind,
    pub is_final: bool,
    pub parent: Option<u32>,
    pub parent_args: Chain<Ty>,
}

/// One resolved class with its full field layout.
pub struct ClassInfo {
    pub imported: bool,
    pub source_span: Option<Span>,
    pub is_final: bool,
    pub is_frozen: bool,
    pub native_repr: Option<NativeRepr>,
    pub name: Text,
    pub parent: Option<u32>,
    pub type_params: Chain<Text>,
    pub type_bounds: Chain<Chain<InterfaceUse>>,
    pub conformances: Chain<ConformanceInfo>,
    pub kind: ClassKind,
    pub self_ty: Ty,
    pub field_names: Chain<Text>,
    pub field_tys: Chain<Ty>,
    pub has_default: Chain<bool>,
    pub own_start: u32,
    pub methods: Chain<MethodSig>,
    pub init: Option<MethodSig>,
    pub family: Option<u32>,
    pub arms: Chain<u32>,
    pub arm_short: Text,
}

/// One resolved `use` binding.
pub enum UseBinding {
    /// A `sys` group object, by manifest group name.
    SysGroup(Text),
    /// A callable `sys` member.
    SysMember { group: Text, member: Text },
    /// A module bound to a short name.
    ModulePath(Text),
}

/// What a module exports under one name.
#[derive(Clone, Copy, PartialEq, Eq, Structural, Debug)]
pub enum ExportKind {
    Class,
    Interface,
    Function,
}

/// One export of an importable module.
pub struct ImportExport {
    pub name: Text,
    pub kind: ExportKind,
}

/// One importable module.
pub struct ImportModule {
    pub path: Text,
    pub exports: Chain<ImportExport>,
}

/// One root name of the compile environment, with the module path that it stands for.
pub struct RootEntry {
    pub name: Text,
    pub prefix: Text,
}

/// The modules that a compile environment offers.
pub struct ImportEnv {
    pub roots: Chain<RootEntry>,
    pub modules: Chain<ImportModule>,
    pub no_package_roots: bool,
}

/// One imported definition that needs a table entry.
pub struct Reserve {
    pub kind: ExportKind,
    pub bound: Text,
    pub module: Text,
    pub name: Text,
    pub span: Span,
}

/// The resolved `use` lines of a module.
pub struct Uses {
    pub entries: Chain<UseEntry>,
    pub reserves: Chain<Reserve>,
}

/// One named `use` binding.
pub struct UseEntry {
    pub name: Text,
    pub binding: UseBinding,
}

/// One name with its table index.
pub struct NameEntry {
    pub name: Text,
    pub id: u32,
}

/// One interface default, by method name.
pub struct DefaultEntry {
    pub name: Text,
    pub interface: u32,
    pub method: u32,
}

/// One built-in type name.
pub struct BuiltinType {
    pub name: Text,
    pub ty: Ty,
}

/// The core class of one tuple arity.
pub struct TupleClass {
    pub arity: u8,
    pub class: u32,
}

/// The core classes behind the built-in types.
pub struct Natives {
    pub unit: Option<u32>,
    pub int: Option<u32>,
    pub float: Option<u32>,
    pub boolean: Option<u32>,
    pub string: Option<u32>,
    pub bytes: Option<u32>,
    pub file: Option<u32>,
    pub list: Option<u32>,
    pub map: Option<u32>,
    pub tuples: Chain<TupleClass>,
}

/// The core definitions with a fixed role.
#[derive(Clone, Copy, PartialEq, Eq, Structural, Debug)]
pub struct CoreIds {
    pub option_class: u32,
    pub some_class: u32,
    pub none_class: u32,
    pub partial_eq_interface: u32,
    pub partial_eq_method: u32,
    pub hashable_interface: u32,
    pub hashable_method: u32,
}

/// The lexical resolution scope of the code being checked.
pub struct TyEnv {
    pub type_names: Chain<Text>,
    pub type_bounds: Chain<Chain<InterfaceUse>>,
    pub extra_bounds: Chain<TypePremise>,
    pub effect_names: Chain<Text>,
    pub type_offset: u32,
    pub self_interface: Option<u32>,
    pub self_ty: Option<Ty>,
    pub core_scope: bool,
}

/// One map key that waits for the complete class table.
pub struct PendingKey {
    pub env: TyEnv,
    pub key: Ty,
    pub span: Span,
}

/// One abstract pattern of the coverage analysis.
pub enum APat {
    Wild,
    Int(i64),
    Bool(bool),
    Str(Text),
    /// An operation test.
    Call(u32),
    Tuple(Chain<APat>),
    Ctor(u32, Chain<APat>),
}

/// One question that the rules do not answer themselves.
pub enum Query {
    /// Whether the second type can stand where the first is expected.
    Compatible(Ty, Ty),
    /// The least type above both.
    Join(Ty, Ty),
    /// Whether the first row is inside the second.
    RowIncluded(Row, Row),
    /// Whether values of a type live on the heap.
    IsHeap(Ty),
    /// Whether a built-in type never leaves its holder.
    HolderLocal(Ty),
    /// Whether a pattern matches a value that the earlier ones do not, within a number of steps of work.
    Useful(Chain<APat>, APat, u64),
    /// Whether a change of the value would change what one of the loops around it walks. The walked values come first, the innermost first.
    Changes(Chain<HExpr>, HExpr),
    /// The type that stands for a type that the core does not declare.
    Omitted(Text),
}

/// One answer to a question.
pub enum Answer {
    Yes,
    No,
    /// The least type above both, or the type that stands for an omitted one.
    Joined(Ty),
    /// The change is refused, with the code of the problem.
    Refused(Text),
    /// Whether the pattern matches a new value, and the steps that are left.
    Weighed(bool, u64),
    /// The analysis exceeded its work limit.
    OverBudget,
}

/// One answered question.
pub struct Known {
    pub query: Query,
    pub answer: Answer,
}

/// One associated type, by its interface and position.
pub struct AssocSlot {
    pub interface: u32,
    pub assoc: u32,
}

/// A class with its type arguments.
pub struct Nominal {
    pub class: u32,
    pub args: Chain<Ty>,
}

/// One found method, with the class that declares it and its arguments.
pub struct MethodFound {
    pub sig: MethodSig,
    pub owner_args: Chain<Ty>,
    pub owner: u32,
}

/// One interface method found through a bound or a default.
pub struct BoundMethod {
    pub application: InterfaceUse,
    pub interface: u32,
    pub method: u32,
    pub sig: InterfaceMethodSig,
}

/// One satisfied conformance, with the type arguments of its class.
pub struct ConformanceFound {
    pub info: ConformanceInfo,
    pub args: Chain<Ty>,
}

/// The values that a class gives the associated types of one interface.
pub struct AssocValue {
    pub class: u32,
    pub interface: u32,
    pub values: Chain<Ty>,
}

/// What the resolution of declarations collects.
pub struct Decl {
    pub keys: Chain<PendingKey>,
    pub next_func: u32,
    pub values: Chain<AssocValue>,
}

/// The default that a class takes for one method name.
pub struct Picked {
    pub name: Text,
    pub binding: Text,
    pub interface: u32,
}

/// The field layout of a class.
pub struct Layout {
    pub names: Chain<Text>,
    pub tys: Chain<Ty>,
    pub defaults: Chain<bool>,
}

/// The declared methods of a class.
pub struct Members {
    pub methods: Chain<MethodSig>,
    pub init: Option<MethodSig>,
}

/// The resolved parameters of a callable.
pub struct Params {
    pub types: Chain<Ty>,
    pub muts: Chain<bool>,
    pub names: Chain<Text>,
}

/// The type and effect parameters of a declaration.
pub struct Generics {
    pub types: Chain<Text>,
    pub effects: Chain<Text>,
}

/// What an index outside its table reads as.
pub struct Absent {
    pub class: ClassInfo,
    pub interface: InterfaceInfo,
    pub meta: ClassMeta,
    pub sig: FnSig,
}

impl Clone for InterfaceUse {
    fn clone(&self) -> (r: InterfaceUse)
        ensures
            r == *self,
        decreases self,
    {
        InterfaceUse {
            interface: self.interface,
            type_args: clone_tys(&self.type_args),
            row_args: clone_rows(&self.row_args),
        }
    }
}

impl Clone for FnSig {
    fn clone(&self) -> (r: FnSig)
        ensures
            r == *self,
        decreases self,
    {
        FnSig {
            type_params: clone_texts(&self.type_params),
            type_bounds: clone_interface_use_lists(&self.type_bounds),
            effect_params: clone_texts(&self.effect_params),
            params: clone_tys(&self.params),
            param_muts: copy_chain(&self.param_muts),
            param_names: clone_texts(&self.param_names),
            ret: (self.ret).clone(),
            row: copy_chain(&self.row),
        }
    }
}

impl Clone for MethodSig {
    fn clone(&self) -> (r: MethodSig)
        ensures
            r == *self,
        decreases self,
    {
        MethodSig {
            name: copy_chain(&self.name),
            func: self.func,
            mut_self: self.mut_self,
            params: clone_tys(&self.params),
            param_muts: copy_chain(&self.param_muts),
            param_names: clone_texts(&self.param_names),
            ret: (self.ret).clone(),
            row: copy_chain(&self.row),
            class_type_bounds: clone_interface_use_lists(&self.class_type_bounds),
            own_type_params: clone_texts(&self.own_type_params),
            own_type_bounds: clone_interface_use_lists(&self.own_type_bounds),
            own_effect_params: clone_texts(&self.own_effect_params),
        }
    }
}

impl Clone for AssociatedInfo {
    fn clone(&self) -> (r: AssociatedInfo)
        ensures
            r == *self,
        decreases self,
    {
        AssociatedInfo {
            name: copy_chain(&self.name),
            bounds: clone_interface_uses(&self.bounds),
        }
    }
}

impl Clone for TypePremise {
    fn clone(&self) -> (r: TypePremise)
        ensures
            r == *self,
        decreases self,
    {
        TypePremise {
            subject: (self.subject).clone(),
            bounds: clone_interface_uses(&self.bounds),
        }
    }
}

impl Clone for InterfaceMethodSig {
    fn clone(&self) -> (r: InterfaceMethodSig)
        ensures
            r == *self,
        decreases self,
    {
        InterfaceMethodSig {
            name: copy_chain(&self.name),
            mut_self: self.mut_self,
            own_type_params: clone_texts(&self.own_type_params),
            own_type_bounds: clone_interface_use_lists(&self.own_type_bounds),
            own_effect_params: clone_texts(&self.own_effect_params),
            premises: clone_type_premises(&self.premises),
            params: clone_tys(&self.params),
            param_muts: copy_chain(&self.param_muts),
            param_names: clone_texts(&self.param_names),
            ret: (self.ret).clone(),
            row: copy_chain(&self.row),
            default_func: clone_opt_u32(&self.default_func),
            default_binding: clone_opt_text(&self.default_binding),
        }
    }
}

impl Clone for Origin {
    fn clone(&self) -> (r: Origin)
        ensures
            r == *self,
        decreases self,
    {
        Origin {
            module: copy_chain(&self.module),
            name: copy_chain(&self.name),
        }
    }
}

impl Clone for InterfaceInfo {
    fn clone(&self) -> (r: InterfaceInfo)
        ensures
            r == *self,
        decreases self,
    {
        InterfaceInfo {
            origin: clone_opt_origin(&self.origin),
            name: copy_chain(&self.name),
            type_params: clone_texts(&self.type_params),
            effect_params: clone_texts(&self.effect_params),
            generic_is_effect: copy_chain(&self.generic_is_effect),
            parents: clone_interface_uses(&self.parents),
            type_bounds: clone_interface_use_lists(&self.type_bounds),
            associated: clone_associated_infos(&self.associated),
            methods: clone_interface_method_sigs(&self.methods),
        }
    }
}

impl Clone for ConformancePremise {
    fn clone(&self) -> (r: ConformancePremise)
        ensures
            r == *self,
        decreases self,
    {
        ConformancePremise {
            param: self.param,
            bounds: clone_interface_uses(&self.bounds),
        }
    }
}

impl Clone for ConformanceInfo {
    fn clone(&self) -> (r: ConformanceInfo)
        ensures
            r == *self,
        decreases self,
    {
        ConformanceInfo {
            application: (self.application).clone(),
            premises: clone_conformance_premises(&self.premises),
            associated: clone_tys(&self.associated),
            method_overrides: copy_chain(&self.method_overrides),
        }
    }
}

impl Clone for ClassMeta {
    fn clone(&self) -> (r: ClassMeta)
        ensures
            r == *self,
        decreases self,
    {
        ClassMeta {
            name: copy_chain(&self.name),
            type_params: self.type_params,
            kind: self.kind,
            is_final: self.is_final,
            parent: clone_opt_u32(&self.parent),
            parent_args: clone_tys(&self.parent_args),
        }
    }
}

impl Clone for ClassInfo {
    fn clone(&self) -> (r: ClassInfo)
        ensures
            r == *self,
        decreases self,
    {
        ClassInfo {
            imported: self.imported,
            source_span: clone_opt_span(&self.source_span),
            is_final: self.is_final,
            is_frozen: self.is_frozen,
            native_repr: clone_opt_native_repr(&self.native_repr),
            name: copy_chain(&self.name),
            parent: clone_opt_u32(&self.parent),
            type_params: clone_texts(&self.type_params),
            type_bounds: clone_interface_use_lists(&self.type_bounds),
            conformances: clone_conformance_infos(&self.conformances),
            kind: self.kind,
            self_ty: (self.self_ty).clone(),
            field_names: clone_texts(&self.field_names),
            field_tys: clone_tys(&self.field_tys),
            has_default: copy_chain(&self.has_default),
            own_start: self.own_start,
            methods: clone_method_sigs(&self.methods),
            init: clone_opt_method_sig(&self.init),
            family: clone_opt_u32(&self.family),
            arms: copy_chain(&self.arms),
            arm_short: copy_chain(&self.arm_short),
        }
    }
}

impl Clone for UseBinding {
    fn clone(&self) -> (r: UseBinding)
        ensures
            r == *self,
        decreases self,
    {
        match self {
            UseBinding::SysGroup(x) => UseBinding::SysGroup(copy_chain(&*x)),
            UseBinding::SysMember { group, member } => UseBinding::SysMember { group: copy_chain(&*group), member: copy_chain(&*member) },
            UseBinding::ModulePath(x) => UseBinding::ModulePath(copy_chain(&*x)),
        }
    }
}

impl Clone for ImportExport {
    fn clone(&self) -> (r: ImportExport)
        ensures
            r == *self,
        decreases self,
    {
        ImportExport {
            name: copy_chain(&self.name),
            kind: self.kind,
        }
    }
}

impl Clone for ImportModule {
    fn clone(&self) -> (r: ImportModule)
        ensures
            r == *self,
        decreases self,
    {
        ImportModule {
            path: copy_chain(&self.path),
            exports: clone_import_exports(&self.exports),
        }
    }
}

impl Clone for RootEntry {
    fn clone(&self) -> (r: RootEntry)
        ensures
            r == *self,
        decreases self,
    {
        RootEntry {
            name: copy_chain(&self.name),
            prefix: copy_chain(&self.prefix),
        }
    }
}

impl Clone for ImportEnv {
    fn clone(&self) -> (r: ImportEnv)
        ensures
            r == *self,
        decreases self,
    {
        ImportEnv {
            roots: clone_root_entries(&self.roots),
            modules: clone_import_modules(&self.modules),
            no_package_roots: self.no_package_roots,
        }
    }
}

impl Clone for Reserve {
    fn clone(&self) -> (r: Reserve)
        ensures
            r == *self,
        decreases self,
    {
        Reserve {
            kind: self.kind,
            bound: copy_chain(&self.bound),
            module: copy_chain(&self.module),
            name: copy_chain(&self.name),
            span: self.span,
        }
    }
}

impl Clone for Uses {
    fn clone(&self) -> (r: Uses)
        ensures
            r == *self,
        decreases self,
    {
        Uses {
            entries: clone_use_entries(&self.entries),
            reserves: clone_reserves(&self.reserves),
        }
    }
}

impl Clone for UseEntry {
    fn clone(&self) -> (r: UseEntry)
        ensures
            r == *self,
        decreases self,
    {
        UseEntry {
            name: copy_chain(&self.name),
            binding: (self.binding).clone(),
        }
    }
}

impl Clone for NameEntry {
    fn clone(&self) -> (r: NameEntry)
        ensures
            r == *self,
        decreases self,
    {
        NameEntry {
            name: copy_chain(&self.name),
            id: self.id,
        }
    }
}

impl Clone for DefaultEntry {
    fn clone(&self) -> (r: DefaultEntry)
        ensures
            r == *self,
        decreases self,
    {
        DefaultEntry {
            name: copy_chain(&self.name),
            interface: self.interface,
            method: self.method,
        }
    }
}

impl Clone for BuiltinType {
    fn clone(&self) -> (r: BuiltinType)
        ensures
            r == *self,
        decreases self,
    {
        BuiltinType {
            name: copy_chain(&self.name),
            ty: (self.ty).clone(),
        }
    }
}

impl Clone for TupleClass {
    fn clone(&self) -> (r: TupleClass)
        ensures
            r == *self,
        decreases self,
    {
        TupleClass {
            arity: self.arity,
            class: self.class,
        }
    }
}

impl Clone for Natives {
    fn clone(&self) -> (r: Natives)
        ensures
            r == *self,
        decreases self,
    {
        Natives {
            unit: clone_opt_u32(&self.unit),
            int: clone_opt_u32(&self.int),
            float: clone_opt_u32(&self.float),
            boolean: clone_opt_u32(&self.boolean),
            string: clone_opt_u32(&self.string),
            bytes: clone_opt_u32(&self.bytes),
            file: clone_opt_u32(&self.file),
            list: clone_opt_u32(&self.list),
            map: clone_opt_u32(&self.map),
            tuples: clone_tuple_classes(&self.tuples),
        }
    }
}

impl Clone for TyEnv {
    fn clone(&self) -> (r: TyEnv)
        ensures
            r == *self,
        decreases self,
    {
        TyEnv {
            type_names: clone_texts(&self.type_names),
            type_bounds: clone_interface_use_lists(&self.type_bounds),
            extra_bounds: clone_type_premises(&self.extra_bounds),
            effect_names: clone_texts(&self.effect_names),
            type_offset: self.type_offset,
            self_interface: clone_opt_u32(&self.self_interface),
            self_ty: clone_opt_ty(&self.self_ty),
            core_scope: self.core_scope,
        }
    }
}

impl Clone for PendingKey {
    fn clone(&self) -> (r: PendingKey)
        ensures
            r == *self,
        decreases self,
    {
        PendingKey {
            env: (self.env).clone(),
            key: (self.key).clone(),
            span: self.span,
        }
    }
}

impl Clone for APat {
    fn clone(&self) -> (r: APat)
        ensures
            r == *self,
        decreases self,
    {
        match self {
            APat::Wild => APat::Wild,
            APat::Int(x) => APat::Int(*x),
            APat::Bool(x) => APat::Bool(*x),
            APat::Str(x) => APat::Str(copy_chain(&*x)),
            APat::Call(x) => APat::Call(*x),
            APat::Tuple(x) => APat::Tuple(clone_a_pats(&*x)),
            APat::Ctor(x0, x1) => APat::Ctor(*x0, clone_a_pats(&*x1)),
        }
    }
}

impl Clone for Query {
    fn clone(&self) -> (r: Query)
        ensures
            r == *self,
        decreases self,
    {
        match self {
            Query::Compatible(x0, x1) => Query::Compatible((*x0).clone(), (*x1).clone()),
            Query::Join(x0, x1) => Query::Join((*x0).clone(), (*x1).clone()),
            Query::RowIncluded(x0, x1) => Query::RowIncluded(copy_chain(&*x0), copy_chain(&*x1)),
            Query::IsHeap(x) => Query::IsHeap((*x).clone()),
            Query::HolderLocal(x) => Query::HolderLocal((*x).clone()),
            Query::Useful(x0, x1, x2) => Query::Useful(clone_a_pats(&*x0), (*x1).clone(), *x2),
            Query::Changes(x0, x1) => Query::Changes(clone_h_exprs(&*x0), (*x1).clone()),
            Query::Omitted(x) => Query::Omitted(copy_chain(&*x)),
        }
    }
}

impl Clone for Answer {
    fn clone(&self) -> (r: Answer)
        ensures
            r == *self,
        decreases self,
    {
        match self {
            Answer::Yes => Answer::Yes,
            Answer::No => Answer::No,
            Answer::Joined(x) => Answer::Joined((*x).clone()),
            Answer::Refused(x) => Answer::Refused(copy_chain(&*x)),
            Answer::Weighed(x0, x1) => Answer::Weighed(*x0, *x1),
            Answer::OverBudget => Answer::OverBudget,
        }
    }
}

impl Clone for Known {
    fn clone(&self) -> (r: Known)
        ensures
            r == *self,
        decreases self,
    {
        Known {
            query: (self.query).clone(),
            answer: (self.answer).clone(),
        }
    }
}

impl Clone for AssocSlot {
    fn clone(&self) -> (r: AssocSlot)
        ensures
            r == *self,
        decreases self,
    {
        AssocSlot {
            interface: self.interface,
            assoc: self.assoc,
        }
    }
}

impl Clone for Nominal {
    fn clone(&self) -> (r: Nominal)
        ensures
            r == *self,
        decreases self,
    {
        Nominal {
            class: self.class,
            args: clone_tys(&self.args),
        }
    }
}

impl Clone for MethodFound {
    fn clone(&self) -> (r: MethodFound)
        ensures
            r == *self,
        decreases self,
    {
        MethodFound {
            sig: (self.sig).clone(),
            owner_args: clone_tys(&self.owner_args),
            owner: self.owner,
        }
    }
}

impl Clone for BoundMethod {
    fn clone(&self) -> (r: BoundMethod)
        ensures
            r == *self,
        decreases self,
    {
        BoundMethod {
            application: (self.application).clone(),
            interface: self.interface,
            method: self.method,
            sig: (self.sig).clone(),
        }
    }
}

impl Clone for ConformanceFound {
    fn clone(&self) -> (r: ConformanceFound)
        ensures
            r == *self,
        decreases self,
    {
        ConformanceFound {
            info: (self.info).clone(),
            args: clone_tys(&self.args),
        }
    }
}

impl Clone for AssocValue {
    fn clone(&self) -> (r: AssocValue)
        ensures
            r == *self,
        decreases self,
    {
        AssocValue {
            class: self.class,
            interface: self.interface,
            values: clone_tys(&self.values),
        }
    }
}

impl Clone for Decl {
    fn clone(&self) -> (r: Decl)
        ensures
            r == *self,
        decreases self,
    {
        Decl {
            keys: clone_pending_keies(&self.keys),
            next_func: self.next_func,
            values: clone_assoc_values(&self.values),
        }
    }
}

impl Clone for Picked {
    fn clone(&self) -> (r: Picked)
        ensures
            r == *self,
        decreases self,
    {
        Picked {
            name: copy_chain(&self.name),
            binding: copy_chain(&self.binding),
            interface: self.interface,
        }
    }
}

impl Clone for Layout {
    fn clone(&self) -> (r: Layout)
        ensures
            r == *self,
        decreases self,
    {
        Layout {
            names: clone_texts(&self.names),
            tys: clone_tys(&self.tys),
            defaults: copy_chain(&self.defaults),
        }
    }
}

impl Clone for Members {
    fn clone(&self) -> (r: Members)
        ensures
            r == *self,
        decreases self,
    {
        Members {
            methods: clone_method_sigs(&self.methods),
            init: clone_opt_method_sig(&self.init),
        }
    }
}

impl Clone for Params {
    fn clone(&self) -> (r: Params)
        ensures
            r == *self,
        decreases self,
    {
        Params {
            types: clone_tys(&self.types),
            muts: copy_chain(&self.muts),
            names: clone_texts(&self.names),
        }
    }
}

impl Clone for Generics {
    fn clone(&self) -> (r: Generics)
        ensures
            r == *self,
        decreases self,
    {
        Generics {
            types: clone_texts(&self.types),
            effects: clone_texts(&self.effects),
        }
    }
}

impl Clone for Absent {
    fn clone(&self) -> (r: Absent)
        ensures
            r == *self,
        decreases self,
    {
        Absent {
            class: (self.class).clone(),
            interface: (self.interface).clone(),
            meta: (self.meta).clone(),
            sig: (self.sig).clone(),
        }
    }
}

pub fn clone_builtin_types(items: &Chain<BuiltinType>) -> (r: Chain<BuiltinType>)
    ensures
        r == *items,
    decreases items,
{
    match items {
        Chain::Nil => Chain::Nil,
        Chain::Cons(head, tail) => Chain::Cons(
            Box::new((**head).clone()),
            Box::new(clone_builtin_types(tail)),
        ),
    }
}

pub fn clone_knowns(items: &Chain<Known>) -> (r: Chain<Known>)
    ensures
        r == *items,
    decreases items,
{
    match items {
        Chain::Nil => Chain::Nil,
        Chain::Cons(head, tail) => Chain::Cons(
            Box::new((**head).clone()),
            Box::new(clone_knowns(tail)),
        ),
    }
}

pub fn clone_class_metas(items: &Chain<ClassMeta>) -> (r: Chain<ClassMeta>)
    ensures
        r == *items,
    decreases items,
{
    match items {
        Chain::Nil => Chain::Nil,
        Chain::Cons(head, tail) => Chain::Cons(
            Box::new((**head).clone()),
            Box::new(clone_class_metas(tail)),
        ),
    }
}

pub fn clone_name_entries(items: &Chain<NameEntry>) -> (r: Chain<NameEntry>)
    ensures
        r == *items,
    decreases items,
{
    match items {
        Chain::Nil => Chain::Nil,
        Chain::Cons(head, tail) => Chain::Cons(
            Box::new((**head).clone()),
            Box::new(clone_name_entries(tail)),
        ),
    }
}

pub fn clone_interface_infos(items: &Chain<InterfaceInfo>) -> (r: Chain<InterfaceInfo>)
    ensures
        r == *items,
    decreases items,
{
    match items {
        Chain::Nil => Chain::Nil,
        Chain::Cons(head, tail) => Chain::Cons(
            Box::new((**head).clone()),
            Box::new(clone_interface_infos(tail)),
        ),
    }
}

pub fn clone_rows(items: &Chain<Row>) -> (r: Chain<Row>)
    ensures
        r == *items,
    decreases items,
{
    match items {
        Chain::Nil => Chain::Nil,
        Chain::Cons(head, tail) => Chain::Cons(
            Box::new(copy_chain(&**head)),
            Box::new(clone_rows(tail)),
        ),
    }
}

pub fn clone_texts(items: &Chain<Text>) -> (r: Chain<Text>)
    ensures
        r == *items,
    decreases items,
{
    match items {
        Chain::Nil => Chain::Nil,
        Chain::Cons(head, tail) => Chain::Cons(
            Box::new(copy_chain(&**head)),
            Box::new(clone_texts(tail)),
        ),
    }
}

pub fn clone_interface_use_lists(items: &Chain<Chain<InterfaceUse>>) -> (r: Chain<Chain<InterfaceUse>>)
    ensures
        r == *items,
    decreases items,
{
    match items {
        Chain::Nil => Chain::Nil,
        Chain::Cons(head, tail) => Chain::Cons(
            Box::new(clone_interface_uses(&**head)),
            Box::new(clone_interface_use_lists(tail)),
        ),
    }
}

pub fn clone_interface_uses(items: &Chain<InterfaceUse>) -> (r: Chain<InterfaceUse>)
    ensures
        r == *items,
    decreases items,
{
    match items {
        Chain::Nil => Chain::Nil,
        Chain::Cons(head, tail) => Chain::Cons(
            Box::new((**head).clone()),
            Box::new(clone_interface_uses(tail)),
        ),
    }
}

pub fn clone_type_premises(items: &Chain<TypePremise>) -> (r: Chain<TypePremise>)
    ensures
        r == *items,
    decreases items,
{
    match items {
        Chain::Nil => Chain::Nil,
        Chain::Cons(head, tail) => Chain::Cons(
            Box::new((**head).clone()),
            Box::new(clone_type_premises(tail)),
        ),
    }
}

pub fn clone_opt_u32(item: &Option<u32>) -> (r: Option<u32>)
    ensures
        r == *item,
    decreases item,
{
    match item {
        Some(x) => Some(*x),
        None => None,
    }
}

pub fn clone_opt_text(item: &Option<Text>) -> (r: Option<Text>)
    ensures
        r == *item,
    decreases item,
{
    match item {
        Some(x) => Some(copy_chain(&*x)),
        None => None,
    }
}

pub fn clone_opt_origin(item: &Option<Origin>) -> (r: Option<Origin>)
    ensures
        r == *item,
    decreases item,
{
    match item {
        Some(x) => Some((*x).clone()),
        None => None,
    }
}

pub fn clone_associated_infos(items: &Chain<AssociatedInfo>) -> (r: Chain<AssociatedInfo>)
    ensures
        r == *items,
    decreases items,
{
    match items {
        Chain::Nil => Chain::Nil,
        Chain::Cons(head, tail) => Chain::Cons(
            Box::new((**head).clone()),
            Box::new(clone_associated_infos(tail)),
        ),
    }
}

pub fn clone_interface_method_sigs(items: &Chain<InterfaceMethodSig>) -> (r: Chain<InterfaceMethodSig>)
    ensures
        r == *items,
    decreases items,
{
    match items {
        Chain::Nil => Chain::Nil,
        Chain::Cons(head, tail) => Chain::Cons(
            Box::new((**head).clone()),
            Box::new(clone_interface_method_sigs(tail)),
        ),
    }
}

pub fn clone_conformance_premises(items: &Chain<ConformancePremise>) -> (r: Chain<ConformancePremise>)
    ensures
        r == *items,
    decreases items,
{
    match items {
        Chain::Nil => Chain::Nil,
        Chain::Cons(head, tail) => Chain::Cons(
            Box::new((**head).clone()),
            Box::new(clone_conformance_premises(tail)),
        ),
    }
}

pub fn clone_opt_span(item: &Option<Span>) -> (r: Option<Span>)
    ensures
        r == *item,
    decreases item,
{
    match item {
        Some(x) => Some(*x),
        None => None,
    }
}

pub fn clone_opt_native_repr(item: &Option<NativeRepr>) -> (r: Option<NativeRepr>)
    ensures
        r == *item,
    decreases item,
{
    match item {
        Some(x) => Some(*x),
        None => None,
    }
}

pub fn clone_conformance_infos(items: &Chain<ConformanceInfo>) -> (r: Chain<ConformanceInfo>)
    ensures
        r == *items,
    decreases items,
{
    match items {
        Chain::Nil => Chain::Nil,
        Chain::Cons(head, tail) => Chain::Cons(
            Box::new((**head).clone()),
            Box::new(clone_conformance_infos(tail)),
        ),
    }
}

pub fn clone_method_sigs(items: &Chain<MethodSig>) -> (r: Chain<MethodSig>)
    ensures
        r == *items,
    decreases items,
{
    match items {
        Chain::Nil => Chain::Nil,
        Chain::Cons(head, tail) => Chain::Cons(
            Box::new((**head).clone()),
            Box::new(clone_method_sigs(tail)),
        ),
    }
}

pub fn clone_opt_method_sig(item: &Option<MethodSig>) -> (r: Option<MethodSig>)
    ensures
        r == *item,
    decreases item,
{
    match item {
        Some(x) => Some((*x).clone()),
        None => None,
    }
}

pub fn clone_import_exports(items: &Chain<ImportExport>) -> (r: Chain<ImportExport>)
    ensures
        r == *items,
    decreases items,
{
    match items {
        Chain::Nil => Chain::Nil,
        Chain::Cons(head, tail) => Chain::Cons(
            Box::new((**head).clone()),
            Box::new(clone_import_exports(tail)),
        ),
    }
}

pub fn clone_root_entries(items: &Chain<RootEntry>) -> (r: Chain<RootEntry>)
    ensures
        r == *items,
    decreases items,
{
    match items {
        Chain::Nil => Chain::Nil,
        Chain::Cons(head, tail) => Chain::Cons(
            Box::new((**head).clone()),
            Box::new(clone_root_entries(tail)),
        ),
    }
}

pub fn clone_import_modules(items: &Chain<ImportModule>) -> (r: Chain<ImportModule>)
    ensures
        r == *items,
    decreases items,
{
    match items {
        Chain::Nil => Chain::Nil,
        Chain::Cons(head, tail) => Chain::Cons(
            Box::new((**head).clone()),
            Box::new(clone_import_modules(tail)),
        ),
    }
}

pub fn clone_use_entries(items: &Chain<UseEntry>) -> (r: Chain<UseEntry>)
    ensures
        r == *items,
    decreases items,
{
    match items {
        Chain::Nil => Chain::Nil,
        Chain::Cons(head, tail) => Chain::Cons(
            Box::new((**head).clone()),
            Box::new(clone_use_entries(tail)),
        ),
    }
}

pub fn clone_reserves(items: &Chain<Reserve>) -> (r: Chain<Reserve>)
    ensures
        r == *items,
    decreases items,
{
    match items {
        Chain::Nil => Chain::Nil,
        Chain::Cons(head, tail) => Chain::Cons(
            Box::new((**head).clone()),
            Box::new(clone_reserves(tail)),
        ),
    }
}

pub fn clone_tuple_classes(items: &Chain<TupleClass>) -> (r: Chain<TupleClass>)
    ensures
        r == *items,
    decreases items,
{
    match items {
        Chain::Nil => Chain::Nil,
        Chain::Cons(head, tail) => Chain::Cons(
            Box::new((**head).clone()),
            Box::new(clone_tuple_classes(tail)),
        ),
    }
}

pub fn clone_opt_ty(item: &Option<Ty>) -> (r: Option<Ty>)
    ensures
        r == *item,
    decreases item,
{
    match item {
        Some(x) => Some((*x).clone()),
        None => None,
    }
}

pub fn clone_a_pats(items: &Chain<APat>) -> (r: Chain<APat>)
    ensures
        r == *items,
    decreases items,
{
    match items {
        Chain::Nil => Chain::Nil,
        Chain::Cons(head, tail) => Chain::Cons(
            Box::new((**head).clone()),
            Box::new(clone_a_pats(tail)),
        ),
    }
}

pub fn clone_pending_keies(items: &Chain<PendingKey>) -> (r: Chain<PendingKey>)
    ensures
        r == *items,
    decreases items,
{
    match items {
        Chain::Nil => Chain::Nil,
        Chain::Cons(head, tail) => Chain::Cons(
            Box::new((**head).clone()),
            Box::new(clone_pending_keies(tail)),
        ),
    }
}

pub fn clone_assoc_values(items: &Chain<AssocValue>) -> (r: Chain<AssocValue>)
    ensures
        r == *items,
    decreases items,
{
    match items {
        Chain::Nil => Chain::Nil,
        Chain::Cons(head, tail) => Chain::Cons(
            Box::new((**head).clone()),
            Box::new(clone_assoc_values(tail)),
        ),
    }
}

/// The tables of one module under check.
pub struct Ctx {
    pub bundle: Bundle,
    pub builtins: Chain<BuiltinType>,
    pub metas: Chain<ClassMeta>,
    pub natives: Natives,
    pub classes: Chain<ClassInfo>,
    pub user_types: Chain<NameEntry>,
    pub core_types: Chain<NameEntry>,
    pub interfaces: Chain<InterfaceInfo>,
    pub user_interfaces: Chain<NameEntry>,
    pub core_interfaces: Chain<NameEntry>,
    pub interface_defaults: Chain<DefaultEntry>,
    pub prelude: bool,
    pub func_index: Chain<NameEntry>,
    pub core_func_index: Chain<NameEntry>,
    pub sigs: Chain<FnSig>,
    pub uses: Chain<UseEntry>,
    pub user_start: u32,
    pub import_start: u32,
    pub user_interface_start: u32,
    pub import_interface_start: u32,
    pub core: CoreIds,
    pub defer_map_keys: bool,
    pub max_interface_index: u32,
    pub answers: Chain<Known>,
    pub assoc_values: Chain<AssocValue>,
    pub absent: Absent,
}

/// What the coverage analysis knows of a class: its number of fields, and the arms beside it.
pub struct ArmShape {
    pub fields: u32,
    pub arms: Chain<u32>,
}

/// One question, with the class tables that it is asked about.
pub struct Question {
    pub query: Query,
    pub metas: Chain<ClassMeta>,
    pub natives: Natives,
    pub shapes: Chain<ArmShape>,
}

/// Compare two values.
pub fn same_interface_use(a: &InterfaceUse, b: &InterfaceUse) -> (r: bool)
    ensures
        r == (*a == *b),
    decreases a,
{
    a.interface == b.interface
        && same_tys(&a.type_args, &b.type_args)
        && same_rows(&a.row_args, &b.row_args)
}

/// Compare two values.
pub fn same_query(a: &Query, b: &Query) -> (r: bool)
    ensures
        r == (*a == *b),
    decreases a,
{
    match (a, b) {
        (Query::Compatible(x0, x1), Query::Compatible(y0, y1)) => same_ty(&*x0, &*y0) && same_ty(&*x1, &*y1),
        (Query::Join(x0, x1), Query::Join(y0, y1)) => same_ty(&*x0, &*y0) && same_ty(&*x1, &*y1),
        (Query::RowIncluded(x0, x1), Query::RowIncluded(y0, y1)) => same_row(&*x0, &*y0) && same_row(&*x1, &*y1),
        (Query::IsHeap(x0), Query::IsHeap(y0)) => same_ty(&*x0, &*y0),
        (Query::HolderLocal(x0), Query::HolderLocal(y0)) => same_ty(&*x0, &*y0),
        (Query::Useful(x0, x1, x2), Query::Useful(y0, y1, y2)) => same_a_pats(&*x0, &*y0) && same_a_pat(&*x1, &*y1) && *x2 == *y2,
        (Query::Changes(x0, x1), Query::Changes(y0, y1)) => same_h_exprs(&*x0, &*y0) && same_h_expr(&*x1, &*y1),
        (Query::Omitted(x0), Query::Omitted(y0)) => same_text(&*x0, &*y0),
        _ => false,
    }
}

/// Compare two values.
pub fn same_interface_method_sig(a: &InterfaceMethodSig, b: &InterfaceMethodSig) -> (r: bool)
    ensures
        r == (*a == *b),
    decreases a,
{
    same_text(&a.name, &b.name)
        && a.mut_self == b.mut_self
        && same_texts(&a.own_type_params, &b.own_type_params)
        && same_interface_use_lists(&a.own_type_bounds, &b.own_type_bounds)
        && same_texts(&a.own_effect_params, &b.own_effect_params)
        && same_type_premises(&a.premises, &b.premises)
        && same_tys(&a.params, &b.params)
        && same_flags(&a.param_muts, &b.param_muts)
        && same_texts(&a.param_names, &b.param_names)
        && same_ty(&a.ret, &b.ret)
        && same_row(&a.row, &b.row)
        && same_opt_u32(&a.default_func, &b.default_func)
        && same_opt_text(&a.default_binding, &b.default_binding)
}

pub fn same_rows(a: &Chain<Row>, b: &Chain<Row>) -> (r: bool)
    ensures
        r == (*a == *b),
    decreases a,
{
    match (a, b) {
        (Chain::Nil, Chain::Nil) => true,
        (Chain::Cons(x, xs), Chain::Cons(y, ys)) => same_row(&**x, &**y) && same_rows(xs, ys),
        _ => false,
    }
}

pub fn same_a_pats(a: &Chain<APat>, b: &Chain<APat>) -> (r: bool)
    ensures
        r == (*a == *b),
    decreases a,
{
    match (a, b) {
        (Chain::Nil, Chain::Nil) => true,
        (Chain::Cons(x, xs), Chain::Cons(y, ys)) => same_a_pat(&**x, &**y) && same_a_pats(xs, ys),
        _ => false,
    }
}

/// Compare two values.
pub fn same_a_pat(a: &APat, b: &APat) -> (r: bool)
    ensures
        r == (*a == *b),
    decreases a,
{
    match (a, b) {
        (APat::Wild, APat::Wild) => true,
        (APat::Int(x0), APat::Int(y0)) => *x0 == *y0,
        (APat::Bool(x0), APat::Bool(y0)) => *x0 == *y0,
        (APat::Str(x0), APat::Str(y0)) => same_text(&*x0, &*y0),
        (APat::Call(x0), APat::Call(y0)) => *x0 == *y0,
        (APat::Tuple(x0), APat::Tuple(y0)) => same_a_pats(&*x0, &*y0),
        (APat::Ctor(x0, x1), APat::Ctor(y0, y1)) => *x0 == *y0 && same_a_pats(&*x1, &*y1),
        _ => false,
    }
}

pub fn same_texts(a: &Chain<Text>, b: &Chain<Text>) -> (r: bool)
    ensures
        r == (*a == *b),
    decreases a,
{
    match (a, b) {
        (Chain::Nil, Chain::Nil) => true,
        (Chain::Cons(x, xs), Chain::Cons(y, ys)) => same_text(&**x, &**y) && same_texts(xs, ys),
        _ => false,
    }
}

pub fn same_interface_use_lists(a: &Chain<Chain<InterfaceUse>>, b: &Chain<Chain<InterfaceUse>>) -> (r: bool)
    ensures
        r == (*a == *b),
    decreases a,
{
    match (a, b) {
        (Chain::Nil, Chain::Nil) => true,
        (Chain::Cons(x, xs), Chain::Cons(y, ys)) => same_interface_uses(&**x, &**y) && same_interface_use_lists(xs, ys),
        _ => false,
    }
}

pub fn same_type_premises(a: &Chain<TypePremise>, b: &Chain<TypePremise>) -> (r: bool)
    ensures
        r == (*a == *b),
    decreases a,
{
    match (a, b) {
        (Chain::Nil, Chain::Nil) => true,
        (Chain::Cons(x, xs), Chain::Cons(y, ys)) => same_type_premise(&**x, &**y) && same_type_premises(xs, ys),
        _ => false,
    }
}

pub fn same_opt_u32(a: &Option<u32>, b: &Option<u32>) -> (r: bool)
    ensures
        r == (*a == *b),
    decreases a,
{
    match (a, b) {
        (None, None) => true,
        (Some(x), Some(y)) => *x == *y,
        _ => false,
    }
}

pub fn same_opt_text(a: &Option<Text>, b: &Option<Text>) -> (r: bool)
    ensures
        r == (*a == *b),
    decreases a,
{
    match (a, b) {
        (None, None) => true,
        (Some(x), Some(y)) => same_text(&*x, &*y),
        _ => false,
    }
}

pub fn same_interface_uses(a: &Chain<InterfaceUse>, b: &Chain<InterfaceUse>) -> (r: bool)
    ensures
        r == (*a == *b),
    decreases a,
{
    match (a, b) {
        (Chain::Nil, Chain::Nil) => true,
        (Chain::Cons(x, xs), Chain::Cons(y, ys)) => same_interface_use(&**x, &**y) && same_interface_uses(xs, ys),
        _ => false,
    }
}

/// Compare two values.
pub fn same_type_premise(a: &TypePremise, b: &TypePremise) -> (r: bool)
    ensures
        r == (*a == *b),
    decreases a,
{
    same_ty(&a.subject, &b.subject)
        && same_interface_uses(&a.bounds, &b.bounds)
}

} // verus!
