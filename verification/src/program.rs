//! The checked module, and what a check of one starts from.

use vstd::prelude::*;
use crate::abi::Bundle;
use crate::ast::{Module, Span};
use crate::chain::{Chain, copy_chain};
use crate::context::{AssociatedInfo, BuiltinType, ClassInfo, ClassKind, ClassMeta, ConformanceInfo, CoreIds, Ctx, FnSig, ImportEnv, InterfaceInfo, InterfaceUse, Known, NameEntry, NativeRepr, Natives, Params, Reserve, TypePremise};
use crate::hir::{HExpr, HirFunc, clone_opt_h_expr};
use crate::problem::Stop;
use crate::text::{Text, same_text};
use crate::types::{Row, Ty, clone_tys};

verus! {

/// One checked field default, with the types of its slots.
pub struct FieldDefault {
    pub value: Option<HExpr>,
    pub locals: Chain<Ty>,
}

/// The qualified name of a definition.
pub struct Key {
    pub module: Text,
    pub name: Text,
}

/// How an object of a class comes about.
#[derive(Clone, Copy, PartialEq, Eq, Structural, Debug)]
pub enum CtorKind {
    /// An enum arm takes its fields.
    CaseFields,
    /// An initializer assigns the fields.
    Init,
    /// Every field has a default.
    Defaults,
}

/// What an export declares.
#[derive(Clone, Copy, PartialEq, Eq, Structural, Debug)]
pub enum DefKind {
    Interface,
    Class,
    Enum,
    EnumCase,
    Function,
}

impl Clone for FieldDefault {
    fn clone(&self) -> (r: FieldDefault)
        ensures
            r == *self,
        decreases self,
    {
        FieldDefault {
            value: clone_opt_h_expr(&self.value),
            locals: clone_tys(&self.locals),
        }
    }
}

impl Clone for Key {
    fn clone(&self) -> (r: Key)
        ensures
            r == *self,
        decreases self,
    {
        Key {
            module: copy_chain(&self.module),
            name: copy_chain(&self.name),
        }
    }
}

/// One exported definition.
pub struct HirExport {
    pub kind: DefKind,
    pub name: Text,
    pub def: u32,
}

/// One named function.
pub struct FuncBinding {
    pub key: Key,
    pub func: u32,
}

/// One checked class.
pub struct HirClass {
    pub imported: bool,
    pub source_span: Option<Span>,
    pub is_final: bool,
    pub is_frozen: bool,
    pub native_repr: Option<NativeRepr>,
    pub name: Text,
    pub key: Key,
    pub parent: Option<u32>,
    pub parent_args: Chain<Ty>,
    pub type_params: u32,
    pub type_bounds: Chain<Chain<InterfaceUse>>,
    pub kind: ClassKind,
    pub ctor_kind: CtorKind,
    pub field_names: Chain<Text>,
    pub field_tys: Chain<Ty>,
    pub field_defaults: Chain<bool>,
    pub own_start: u32,
    pub defaults: Chain<FieldDefault>,
    pub methods: Chain<NameEntry>,
    pub init: Option<u32>,
    pub ctor: Params,
    pub ctor_row: Row,
}

/// One checked conformance.
pub struct HirConformance {
    pub class: u32,
    pub info: ConformanceInfo,
}

/// One checked method requirement.
pub struct HirInterfaceMethod {
    pub selector: Text,
    pub mut_self: bool,
    pub type_params: u32,
    pub type_bounds: Chain<Chain<InterfaceUse>>,
    pub effect_params: u32,
    pub premises: Chain<TypePremise>,
    pub params: Chain<Ty>,
    pub param_muts: Chain<bool>,
    pub param_names: Chain<Text>,
    pub ret: Ty,
    pub row: Row,
    pub default_func: Option<u32>,
    pub default_binding: Option<Text>,
}

/// One checked interface.
pub struct HirInterface {
    pub key: Key,
    pub name: Text,
    pub type_params: u32,
    pub effect_params: u32,
    pub generic_is_effect: Chain<bool>,
    pub parents: Chain<InterfaceUse>,
    pub type_bounds: Chain<Chain<InterfaceUse>>,
    pub associated: Chain<AssociatedInfo>,
    pub methods: Chain<HirInterfaceMethod>,
}

/// One checked module.
pub struct HirModule {
    pub interfaces: Chain<HirInterface>,
    pub conformances: Chain<HirConformance>,
    pub classes: Chain<HirClass>,
    pub funcs: Chain<HirFunc>,
    pub entry: u32,
    pub core: CoreIds,
    pub core_roles: Chain<Option<u32>>,
    pub exports: Chain<HirExport>,
    pub core_exports: Chain<HirExport>,
    pub bindings: Chain<FuncBinding>,
}

/// One function of another module.
pub struct ImportedFunc {
    pub name: Text,
    pub sig: FnSig,
    pub func: HirFunc,
}

/// The qualified name of one class of another module.
pub struct ClassOrigin {
    pub class: u32,
    pub key: Key,
}

/// The declarations that another module gives, with table indices of this one.
pub struct Imported {
    pub metas: Chain<ClassMeta>,
    pub classes: Chain<ClassInfo>,
    pub origins: Chain<ClassOrigin>,
    pub types: Chain<NameEntry>,
    pub interfaces: Chain<InterfaceInfo>,
    pub interface_names: Chain<NameEntry>,
    pub funcs: Chain<ImportedFunc>,
    pub natives: Natives,
}

/// A compiled core, with the declarations that a module demands of it.
pub struct CompiledCore {
    pub path: Text,
    pub same_bundle: bool,
    pub tables: Imported,
}

/// What every module of one build shares.
pub struct Image {
    pub bundle: Bundle,
    pub builtins: Chain<BuiltinType>,
    pub source: Module,
    pub role_labels: Chain<Text>,
    pub max_interface_index: u32,
    pub answers: Chain<Known>,
}

/// The options of one check. `prelude` controls unqualified name resolution only.
pub struct CheckOptions {
    pub prelude: bool,
    pub build_core_provider: bool,
    pub image: Image,
    pub path: Text,
    pub imports: ImportEnv,
    pub imported: Imported,
    pub core: Option<CompiledCore>,
    pub core_roots: Chain<Text>,
}

/// Where the declarations of other modules get their table indices.
pub struct ImportPlan {
    pub class_start: u32,
    pub interface_start: u32,
    pub core_funcs: u32,
    pub import_funcs: u32,
    pub reserves: Chain<Reserve>,
}

/// Why a module has no checked form.
pub enum Halt {
    /// A problem of the module, or a question.
    Source(Stop),
    /// The core sources do not check, or a question on them.
    Core(Stop),
    /// A reserved function has no body.
    Unchecked(u32),
}

/// The declared tables of a module, with the places of its functions.
pub struct Declared {
    pub cx: Ctx,
    pub core_at: u32,
    pub import_at: u32,
    pub entry: u32,
}

pub fn clone_field_defaults(items: &Chain<FieldDefault>) -> (r: Chain<FieldDefault>)
    ensures
        r == *items,
    decreases items,
{
    match items {
        Chain::Nil => Chain::Nil,
        Chain::Cons(head, tail) => Chain::Cons(Box::new((**head).clone()), Box::new(clone_field_defaults(tail))),
    }
}

/// Compare two values.
pub fn same_key(a: &Key, b: &Key) -> (r: bool)
    ensures
        r == (*a == *b),
    decreases a,
{
    same_text(&a.module, &b.module)
        && same_text(&a.name, &b.name)
}

} // verus!
