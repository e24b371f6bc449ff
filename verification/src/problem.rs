//! The problems that the rules report, with their published codes.

use vstd::prelude::*;
use crate::ast::Span;
use crate::chain::{chain_of, copy_chain};
use crate::context::Question;
use crate::text::{Text, text};
use crate::types::{Row, Ty};

verus! {

/// The problems that the rules report.
#[allow(inconsistent_fields)]
pub enum Problem {
    /// The core image does not declare `NAME`.
    CoreMissing,
    /// The implicit core dependency has another module path.
    CoreOtherPath,
    /// The implicit core dependency uses another ABI bundle.
    CoreOtherBundle,
    /// The module path `core` belongs to the core image; rename the file or the package.
    CorePath,
    /// Expected `expected`, found `found`.
    Mismatch { expected: Ty, found: Ty },
    /// Expected `expected`, found `found`; the enum has an arm named `NAME`; write the qualified form to select it.
    ConstructorCollision { expected: Ty, found: Ty, family: u32 },
    /// `from_fn` needs a function value, found `found`.
    FromFnNeedsFunction { found: Ty },
    /// `restore` needs a typed snapshot, found `found`.
    RestoreNeedsSnapshot { found: Ty },
    /// `serve_file` needs a current Fs.Open call.
    ServeFileNeedsOpen,
    /// `answer` needs a PendingCall token, found `found`.
    AnswerNeedsCall { found: Ty },
    /// `choose` needs a wait, found `found`.
    ChooseNeedsWait { found: Ty },
    /// `sys.proc.run` needs a loaded machine, found `found`.
    RunNeedsMachine { found: Ty },
    /// The wildcard arm must provide the reflection case type.
    ReflectNeedsType,
    /// A callable refinement needs a function type.
    RefinementNeedsFunction,
    /// Cannot find `NAME` in this scope.
    NotInScope,
    /// Cannot find a function named `NAME`.
    NoFunction,
    /// The module exports no `NAME`.
    NoExport,
    /// `NAME` expects `expected` argument(s), found `found`.
    WrongArgumentCount { expected: u32, found: u32 },
    /// The call does not declare a parameter named `NAME`.
    LabelNotDeclared,
    /// The label `NAME:` names a parameter that a positional argument already fills.
    LabelAlreadyFilled,
    /// The argument label `NAME:` appears more than one time.
    LabelRepeated,
    /// A positional argument cannot follow a labeled argument.
    PositionalAfterLabel,
    /// The argument label `NAME:` is not valid here; a label names a declared parameter of the called function.
    LabelNotValid,
    /// `intrinsic` needs a manifest name.
    IntrinsicNeedsName,
    /// The intrinsic name must be a string literal.
    IntrinsicNameNotLiteral,
    /// `NAME` expects 0 argument(s); use a literal.
    BuilderTakesNoArguments,
    /// The operator hook `NAME` takes `expected` operand(s).
    HookOperandCount { expected: u32 },
    /// `break` is only valid inside a loop.
    BreakOutsideLoop,
    /// A `break` in `while` or `for` cannot carry a value.
    BreakCarriesValue,
    /// `continue` is only valid inside a loop.
    ContinueOutsideLoop,
    /// The name `NAME` has more than one definition.
    DuplicateDefinition,
    /// The loop binding `NAME` occurs more than once.
    DuplicateLoopBinding,
    /// Unknown type name `NAME`.
    UnknownType,
    /// `NAME` is an interface; use it as a generic bound.
    InterfaceAsType,
    /// `NAME` is an associated type; write `Self.NAME`.
    AssociatedNeedsSelf,
    /// Duplicate parameter name `NAME`.
    DuplicateParameter,
    /// Duplicate generic parameter name `NAME`.
    DuplicateGeneric,
    /// `return` is not valid at the top level of a module.
    ReturnAtTopLevel,
    /// `return` needs a declared closure result type.
    ReturnNeedsResult,
    /// Tuple equality needs equal static tuple types; the sides are `left` and `right`.
    TupleSidesDiffer { left: Ty, right: Ty },
    /// Cannot compare `operand` values with `NAME`; a tuple element does not support equality.
    TupleNotComparable { operand: Ty },
    /// Cannot compare `operand` values with `NAME`.
    NotComparable { operand: Ty },
    /// The enum `NAME` is not a value in this language slice.
    EnumNotValue,
    /// The class `NAME` is not a value in this language slice.
    ClassNotValue,
    /// Cannot assign to `NAME`.
    CannotAssign,
    /// The name `NAME` already has a declaration.
    AlreadyDeclared,
    /// This statement is unreachable.
    Unreachable,
    /// A closure value does not take type arguments.
    ClosureTakesNoTypeArguments,
    /// The generic function `NAME` needs a direct call.
    NeedsDirectCall,
    /// `Bytes` does not take type arguments.
    BytesTakesNoTypeArguments,
    /// Map needs a key type.
    MapNeedsKey,
    /// An intrinsic does not take type arguments.
    IntrinsicTakesNoTypeArguments,
    /// `NAME` needs `expected` explicit type argument(s) here.
    BuilderNeedsTypeArguments { expected: u32 },
    /// `NAME` takes `expected` type argument(s), found `found`.
    TypeArgumentCount { expected: u32, found: u32 },
    /// The generic type `NAME` needs `expected` type argument(s).
    GenericNeedsArguments { expected: u32 },
    /// The generic type `NAME` needs type arguments.
    NeedsTypeArguments,
    /// The type `NAME` does not take type arguments.
    TakesNoTypeArguments,
    /// `Vm` takes no type arguments; use `Run[T]` for an active invocation.
    VmTakesNoTypeArguments,
    /// `spawn` does not take type arguments.
    SpawnTakesNoTypeArguments,
    /// A native method does not take type arguments.
    NativeTakesNoTypeArguments,
    /// `Fault.denied` does not take type arguments.
    DeniedTakesNoTypeArguments,
    /// An operation call does not take type arguments.
    OperationTakesNoTypeArguments,
    /// A native control method does not take type arguments.
    ControlTakesNoTypeArguments,
    /// The module has too many interfaces for compact calls.
    TooManyInterfaces,
    /// The interface has too many methods for compact calls.
    TooManyMethods,
    /// A class cannot declare effect parameters.
    ClassEffectParameters,
    /// An enum cannot declare effect parameters.
    EnumEffectParameters,
    /// A generic class cannot declare a parent in this slice.
    GenericClassParent,
    /// The parent class `NAME` takes `expected` type argument(s), found `found`.
    ParentArgumentCount { expected: u32, found: u32 },
    /// The generic parent field `NAME` has a default that names a class type parameter; give the field an `init` instead.
    GenericDefault,
    /// The class has no field named `NAME`.
    UnknownField { class: u32 },
    /// The class has no method named `NAME`.
    NoMethod { class: u32 },
    /// The type `ty` has no method named `NAME`.
    TypeHasNoMethod { ty: Ty },
    /// `init` cannot be called as a method.
    InitIsNotMethod,
    /// The superclass has no method named `NAME`.
    NoSuperMethod,
    /// Use `Tcp().address` to construct a SocketAddress.
    UseTcpAddress,
    /// `NAME` values cannot be constructed directly.
    NotConstructible,
    /// The intrinsic manifest has no `NAME` entry.
    NoIntrinsic,
    /// The type Fault has no constructor named `NAME`.
    NoFaultConstructor,
    /// `spawn` needs a subclass of `Proc`; `NAME` is not one.
    SpawnNeedsProc,
    /// The proc class `NAME` declares no `on_spawn`.
    NoOnSpawn,
    /// `NAME.on_spawn` must take `self` only and declare no generics.
    OnSpawnShape,
    /// `PolicyTable` has no method named `NAME`.
    NoTableMethod,
    /// A proc with no mailbox has no `send` method.
    NoMailboxSend,
    /// A reflection case is not valid during initialization.
    ReflectDuringInit,
    /// The type `ty` has no fields.
    NoFields { ty: Ty },
    /// The type `ty` has no method named `NAME`.
    ScalarHasNoMethod { ty: Ty },
    /// The type `ty` does not support indexing.
    NotIndexable { ty: Ty },
    /// The field `NAME` is not initialized on this path.
    FieldNotInitialized,
    /// The field `NAME` is read before its first assignment.
    FieldReadEarly,
    /// `self` cannot be captured before the initializer assigns every required field.
    SelfCapturedEarly,
    /// `self` cannot escape before the initializer assigns every required field.
    SelfEscapesEarly,
    /// The initializer must call `super.init` exactly once on every path.
    SuperInitMissing,
    /// `super.init` is not valid inside a loop.
    SuperInitInLoop,
    /// `super.init` must run exactly once on every path.
    SuperInitUneven,
    /// The class has no superclass.
    NoSuperclass,
    /// `super.init` is only valid inside `init`.
    SuperInitOutsideInit,
    /// The parent class has no `init`.
    ParentHasNoInit,
    /// `super.init` was already called on this path.
    SuperInitTwice,
    /// The override of `NAME` must keep the parameter types and the `mut` markers.
    OverrideParameters,
    /// The override of `NAME` must keep or narrow the result type.
    OverrideResult,
    /// Cannot call a value of type `ty`; it is not a closure.
    NotCallable { ty: Ty },
    /// The type `key` does not implement Hashable and cannot be a map key.
    KeyNotHashable { key: Ty },
    /// Cannot interpolate a value of type `ty`; this slice interpolates Int, Bool, and Text.
    NotInterpolable { ty: Ty },
    /// The value is read-only, but the name `NAME` holds a mutable reference.
    ReadOnlyAssigned,
    /// Cannot write the field `NAME` through a read-only reference.
    ReadOnlyField,
    /// The value is what a loop around it walks; it cannot change inside the loop.
    WalkedChanged { code: Text },
    /// A `mut` parameter needs a mutable value.
    ReadOnlyArgument,
    /// The method `NAME` needs a mutable receiver.
    ReadOnlyReceiver,
    /// The captured name `NAME` cannot be rebound inside a closure.
    CapturedRebound,
    /// An empty list literal needs an expected type.
    EmptyList,
    /// An empty map literal needs an expected type.
    EmptyMap,
    /// Unknown parent class `NAME`.
    UnknownParent,
    /// `NAME` is an imported class, and a class cannot inherit one; hold it in a field instead.
    ParentImported,
    /// The parent class `NAME` must be declared before the subclass.
    ParentAfterChild,
    /// `init` cannot declare generic parameters.
    InitGenerics,
    /// `init` cannot declare type premises.
    InitPremises,
    /// A frozen class cannot declare a parent.
    FrozenParent,
    /// The frozen class field `NAME` has a type that is not always frozen.
    FrozenField,
    /// The class already has a field named `NAME`.
    DuplicateField,
    /// `freeze` is a reserved method name.
    FreezeReserved,
    /// The class already has a member named `NAME`.
    DuplicateMember,
    /// `init` must declare `mut self`.
    InitNeedsMutSelf,
    /// `init` cannot declare a result type.
    InitResult,
    /// A frozen class permits `mut self` only in `init`.
    FrozenMutSelf,
    /// The class needs an `init` because the field `NAME` has no default.
    NeedsInit,
    /// The enum already has a member named `NAME`.
    DuplicateEnumMember,
    /// `self` is only valid inside a method.
    SelfOutsideMethod,
    /// `super` is only valid inside a method.
    SuperOutsideMethod,
    /// The enum `NAME` cannot be constructed; use one of its arms.
    EnumNotConstructible,
    /// `NAME` is not an enum.
    NotAnEnum,
    /// `Text` is sealed and permits only core text classes.
    SealedText,
    /// `TcpResource` is sealed and permits only core TCP classes.
    SealedTcp,
    /// `NAME` is sealed and permits only core syntax classes.
    SealedSyntax,
    /// `NAME` is final and cannot be a parent.
    FinalParent,
    /// `NAME` is part of a sealed enum and cannot be a parent.
    SealedEnum,
    /// Native core class `NAME` has an invalid inheritance or state layout.
    NativeShape,
    /// The enum already has an arm named `NAME`.
    DuplicateArm,
    /// An enum cannot declare `init`.
    EnumInit,
    /// The enum has no arm named `NAME`.
    NoArm { family: u32 },
    /// `Call` needs an operation, a call binding, and an argument pattern; found `found` pattern(s).
    CallPatternCount { found: u32 },
    /// `Call` needs an exact operation, for example `Fs.Read`.
    CallNeedsOperation,
    /// NAME pattern cannot match a scrutinee of type `ty`.
    PatternMismatch { ty: Ty },
    /// This tuple pattern has `found` element(s), but `ty` has `expected`.
    TuplePatternCount { expected: u32, found: u32, ty: Ty },
    /// The name `NAME` appears twice in this pattern.
    PatternNameTwice,
    /// The scrutinee type `ty` has no constructors; use a binding or `_`.
    NoConstructors { ty: Ty },
    /// A class constructor pattern must name the scrutinee class.
    ClassPatternName { class: u32 },
    /// The class `NAME` has `expected` field(s), found `found` pattern(s).
    ClassPatternCount { expected: u32, found: u32 },
    /// The qualifier `NAME` does not name the scrutinee enum.
    WrongQualifier { family: u32 },
    /// The pattern `NAME` can never match a value of its scrutinee.
    ArmNeverMatches { class: u32 },
    /// The arm `NAME` has `expected` field(s); write `NAME(...)`.
    ArmNeedsFields { expected: u32 },
    /// The arm `NAME` has `expected` field(s), found `found` pattern(s).
    ArmPatternCount { expected: u32, found: u32 },
    /// Unknown reflection pattern `NAME`.
    UnknownReflection,
    /// A refinement introduces at most one effect parameter.
    ReflectEffects,
    /// Only a class refinement can omit its callable signature.
    ReflectNeedsSignature,
    /// A class descriptor refinement needs one type parameter.
    ReflectNeedsParameter,
    /// A reflection refinement binds one name or `_`.
    ReflectBinding,
    /// The case does not cover every value of `ty`; add the missing arms or a `_` arm.
    NotExhaustive { ty: Ty },
    /// This arm is unreachable; an earlier arm covers it.
    ArmUnreachable,
    /// The constructor `NAME` is ambiguous; use a qualified name.
    AmbiguousConstructor { family: u32 },
    /// Cannot infer the type argument `parameter` of `NAME`; give explicit type arguments.
    CannotInfer { parameter: Text },
    /// This call needs an effect row that the declared row of the enclosing callable does not hold.
    RowTooWide { needed: Row, declared: Row },
    /// Unknown effect name `NAME`; declare it with `effect NAME` in the generic parameter list.
    UnknownEffect,
    /// The override of `NAME` widens the effect row.
    OverrideRow { parent: Row },
    /// `NAME` needs a class or enum instance, found `found`.
    NotAnInstance { found: Ty },
    /// The target of `NAME` must be a class or enum type, found `found`.
    TargetNotClass { found: Ty },
    /// `NAME` between `from` and `to` can never succeed.
    NeverSucceeds { from: Ty, to: Ty },
    /// A tuple index must be an integer literal.
    TupleIndexNotLiteral,
    /// The tuple has `len` element(s); the index is out of range.
    TupleIndexRange { len: u32 },
    /// The case pattern analysis exceeded its work limit; simplify the patterns.
    PatternWorkLimit,
    /// A reflection case needs a final wildcard arm.
    ReflectNeedsWildcard,
    /// A reflection case accepts refinement arms and one wildcard arm.
    ReflectArmsOnly,
    /// `NAME` is not an operation or group in the operation manifest.
    NotInManifest,
    /// `sys` is not a value; use `sys.<group>.<operation>`.
    SysNotValue,
    /// `NAME` is a `sys` group object and not a value; name an operation.
    GroupNotValue,
    /// `NAME` names a module and is not a value; name one of its definitions.
    ModuleNotValue,
    /// `NAME` is a `sys` group object and not callable; name an operation.
    GroupNotCallable,
    /// `NAME` names a module and is not a value; call one of its definitions.
    ModuleNotCallable,
    /// `sys.NAME` is not a value; name an operation of it.
    SysGroupNotValue,
    /// `sys` has no group named `NAME`.
    NoSysGroup,
    /// `sys.proc.NAME` is only valid inside a method of a `Proc` subclass.
    RecvOutsideProc,
    /// Callable `sys` members use snake_case; write `NAME`.
    UseSnakeCase,
    /// The group has no operation named `NAME`.
    NoOperation,
    /// `sys.vm.Vm` is not a value; call `sys.vm.Vm()` to create a machine.
    VmNotValue,
    /// `NAME` is not a group in the operation manifest.
    NotAGroup,
    /// `NAME` is not an operation in the operation manifest.
    NotAnOperation,
    /// A policy target must be a group name or an exact operation name.
    TargetShape,
    /// `mock` needs an exact host operation, for example `Clock.Now`.
    MockNeedsOperation,
    /// `use NAME` names a module; a module import needs a package, so compile the file inside one.
    UseNeedsPackage,
    /// `NAME` is not a root name here.
    UseUnknownRoot,
    /// The module exports no `NAME`.
    UseNoExport,
    /// `NAME` names no module.
    UseNoModule,
    /// The name `NAME` already has a definition in this module; rename it or bind the module instead.
    UseNameTaken,
    /// The interface name `NAME` already has a definition.
    UseInterfaceTaken,
    /// The name `NAME` already has a `use` binding.
    UseBoundTwice,
    /// `use sys` binds nothing; name a group or an operation, for example `use sys.io` or `use sys.io.write`.
    UseSysAlone,
    /// `sys` has no group named `NAME`.
    UseNoGroup,
    /// Callable `sys` members use snake_case; write `NAME`.
    UseSnakeMember,
    /// The group has no operation named `NAME`.
    UseNoOperation,
    /// A fixed `sys` binding has at most three path segments.
    UseTooLong,
    /// The type parameter has no associated type named `NAME`.
    NoAssociated,
    /// The associated type name `NAME` is ambiguous.
    AmbiguousAssociated,
    /// `Self` is available only in a class, enum, or interface.
    SelfNotAvailable,
    /// `Self` is available only in an interface contract.
    SelfNotInterface,
    /// The interface has no associated type named `NAME`.
    NoInterfaceAssociated,
    /// The interface method `NAME` is ambiguous.
    AmbiguousMethod,
    /// The method `NAME` has two defaults; add an explicit override.
    AmbiguousDefault { first: u32, second: u32 },
    /// Unknown interface name `NAME`.
    UnknownInterface,
    /// The interface `NAME` takes `expected` type argument(s), found `found`.
    InterfaceTypeCount { expected: u32, found: u32 },
    /// The interface `NAME` takes `expected` effect argument(s), found `found`.
    InterfaceEffectCount { expected: u32, found: u32 },
    /// Duplicate interface bound `NAME`.
    DuplicateBound,
    /// Interface inheritance exceeds 128 levels.
    InheritanceDepth,
    /// Interface inheritance contains a cycle.
    InheritanceCycle,
    /// The interface has conflicting inherited arguments.
    InheritanceConflict { interface: u32 },
    /// An interface cannot extend itself.
    ExtendsItself,
    /// Duplicate parent interface.
    DuplicateParentInterface { interface: u32 },
    /// Duplicate associated type `NAME`.
    DuplicateAssociated,
    /// Duplicate interface method `NAME`.
    DuplicateInterfaceMethod,
    /// Inherited associated type `NAME` is ambiguous.
    InheritedAmbiguous,
    /// Duplicate associated type binding `NAME`.
    DuplicateBinding,
    /// The interface has conflicting conformance arguments.
    ConformanceConflict { interface: u32 },
    /// The interface has incomparable conformance premises.
    ConformanceIncomparable { interface: u32 },
    /// The conformance needs `type NAME = ...`.
    ConformanceNeedsType,
    /// The associated type `NAME` belongs to no conformance.
    AssociatedUnused,
    /// The conformance premise names unknown type parameter `NAME`.
    PremiseUnknown,
    /// A non-final class cannot conform to a Self-dependent interface.
    SelfDependent { interface: u32 },
    /// The conformance arguments do not meet the bounds of the interface.
    ConformanceArguments { interface: u32 },
    /// The associated type `NAME` does not conform to its bound.
    AssociatedConformance { interface: u32 },
    /// Iterable.Item must equal Iterable.Iter.Item.
    IterableItem,
    /// The method `NAME` does not satisfy its interface: the implementation is missing.
    MethodMissing { interface: u32 },
    /// The method `NAME` does not satisfy its interface: the generic parameter counts differ.
    OverrideGenerics { interface: u32 },
    /// The method `NAME` does not satisfy its interface: the method needs an undeclared premise.
    OverridePremise { interface: u32 },
    /// The method `NAME` does not satisfy its interface: the contract requires another `self`.
    OverrideSelf { interface: u32, mutable: bool },
    /// The method `NAME` does not satisfy its interface: the parameter or result types differ.
    OverrideTypes { interface: u32 },
    /// The method `NAME` does not satisfy its interface: the effect row is too wide.
    OverrideEffects { interface: u32 },
    /// The type argument `argument` does not conform to its bound.
    TypeArgumentConformance { argument: Ty, interface: u32 },
    /// The type `ty` has no interface method named `NAME`.
    NoInterfaceMethod { ty: Ty },
    /// The interface method `NAME` must take no arguments.
    InterfaceMethodArguments,
    /// The type `ty` does not conform to Iterable.
    NotIterable { ty: Ty },
    /// Iterator.next must return Option[Item].
    NextResult,
    /// This loop needs `expected` binding(s), found `found`.
    LoopBindingCount { expected: u32, found: u32 },
    /// Two loop bindings need a two-element item tuple.
    LoopNeedsPair,
    /// A mailbox message type must not name the holder-local type `part`.
    HolderLocalMailbox { part: Ty },
    /// A select needs two arms.
    SelectNeedsArms,
    /// This callable never returns, and no `return` gives a value of type `declared`; declare the result type `Never`.
    NeverReturns { declared: Ty },
    /// A function cannot return a nonescaping callback.
    CallbackReturned,
    /// A nonescaping callback cannot be rebound.
    CallbackRebound,
    /// A nonescaping callback cannot be stored in a local.
    CallbackInLocal,
    /// A field cannot store a nonescaping callback.
    CallbackInField,
    /// A closure cannot capture a nonescaping callback.
    CallbackCaptured,
    /// A tuple cannot store a nonescaping callback.
    CallbackInTuple,
    /// A list cannot store a nonescaping callback.
    CallbackInList,
    /// A map cannot store a nonescaping callback.
    CallbackInMap,
    /// A type argument cannot contain a nonescaping callback.
    CallbackArgument,
    /// An `escaping` parameter must have a function type.
    EscapingNotFunction,
    /// `?` needs Result[T, E], found `found`.
    PropagateNeedsResult { found: Ty },
    /// `?` is not valid at the top level of a module.
    PropagateAtTopLevel,
    /// `?` needs a declared Result type on the closure.
    PropagateNeedsDeclared,
    /// `?` needs an enclosing Result return type, found `found`.
    PropagateNeedsEnclosing { found: Ty },
    /// `?` cannot propagate `found` through a Result error type of `expected`.
    PropagateErrorDiffers { found: Ty, expected: Ty },
}

/// One reported problem: what is wrong, the name it concerns, and where.
pub struct Diag {
    pub problem: Problem,
    pub subject: Text,
    pub span: Span,
}

/// Why a check ends without a result: a problem, or a question that has
/// no answer yet.
pub enum Stop {
    Fail(Diag),
    Ask(Question),
}

/// The published code of a problem.
pub open spec fn code_of(problem: Problem) -> Text {
    match problem {
        Problem::CoreMissing
        | Problem::CoreOtherPath
        | Problem::CoreOtherBundle
        | Problem::CorePath => chain_of("E0290"@),
        Problem::Mismatch { .. }
        | Problem::ConstructorCollision { .. }
        | Problem::FromFnNeedsFunction { .. }
        | Problem::RestoreNeedsSnapshot { .. }
        | Problem::ServeFileNeedsOpen
        | Problem::AnswerNeedsCall { .. }
        | Problem::ChooseNeedsWait { .. }
        | Problem::RunNeedsMachine { .. }
        | Problem::ReflectNeedsType
        | Problem::RefinementNeedsFunction => chain_of("E1004"@),
        Problem::NotInScope
        | Problem::NoFunction
        | Problem::NoExport => chain_of("E1005"@),
        Problem::WrongArgumentCount { .. }
        | Problem::LabelNotDeclared
        | Problem::LabelAlreadyFilled
        | Problem::LabelRepeated
        | Problem::PositionalAfterLabel
        | Problem::LabelNotValid
        | Problem::IntrinsicNeedsName
        | Problem::IntrinsicNameNotLiteral
        | Problem::BuilderTakesNoArguments
        | Problem::HookOperandCount { .. } => chain_of("E1006"@),
        Problem::BreakOutsideLoop
        | Problem::BreakCarriesValue
        | Problem::ContinueOutsideLoop => chain_of("E1008"@),
        Problem::DuplicateDefinition
        | Problem::DuplicateLoopBinding => chain_of("E1010"@),
        Problem::UnknownType
        | Problem::InterfaceAsType
        | Problem::AssociatedNeedsSelf => chain_of("E1013"@),
        Problem::DuplicateParameter
        | Problem::DuplicateGeneric => chain_of("E1014"@),
        Problem::ReturnAtTopLevel
        | Problem::ReturnNeedsResult => chain_of("E1016"@),
        Problem::TupleSidesDiffer { .. }
        | Problem::TupleNotComparable { .. }
        | Problem::NotComparable { .. } => chain_of("E1017"@),
        Problem::EnumNotValue
        | Problem::ClassNotValue => chain_of("E1018"@),
        Problem::CannotAssign => chain_of("E1019"@),
        Problem::AlreadyDeclared => chain_of("E1020"@),
        Problem::Unreachable => chain_of("E1021"@),
        Problem::ClosureTakesNoTypeArguments
        | Problem::NeedsDirectCall
        | Problem::BytesTakesNoTypeArguments
        | Problem::MapNeedsKey
        | Problem::IntrinsicTakesNoTypeArguments
        | Problem::BuilderNeedsTypeArguments { .. }
        | Problem::TypeArgumentCount { .. }
        | Problem::GenericNeedsArguments { .. }
        | Problem::NeedsTypeArguments
        | Problem::TakesNoTypeArguments
        | Problem::VmTakesNoTypeArguments
        | Problem::SpawnTakesNoTypeArguments
        | Problem::NativeTakesNoTypeArguments
        | Problem::DeniedTakesNoTypeArguments
        | Problem::OperationTakesNoTypeArguments
        | Problem::ControlTakesNoTypeArguments
        | Problem::TooManyInterfaces
        | Problem::TooManyMethods
        | Problem::ClassEffectParameters
        | Problem::EnumEffectParameters
        | Problem::GenericClassParent
        | Problem::ParentArgumentCount { .. }
        | Problem::GenericDefault => chain_of("E1024"@),
        Problem::UnknownField { .. } => chain_of("E1025"@),
        Problem::NoMethod { .. }
        | Problem::TypeHasNoMethod { .. }
        | Problem::InitIsNotMethod
        | Problem::NoSuperMethod
        | Problem::UseTcpAddress
        | Problem::NotConstructible
        | Problem::NoIntrinsic
        | Problem::NoFaultConstructor
        | Problem::SpawnNeedsProc
        | Problem::NoOnSpawn
        | Problem::OnSpawnShape
        | Problem::NoTableMethod
        | Problem::NoMailboxSend
        | Problem::ReflectDuringInit => chain_of("E1026"@),
        Problem::NoFields { .. }
        | Problem::ScalarHasNoMethod { .. }
        | Problem::NotIndexable { .. } => chain_of("E1027"@),
        Problem::FieldNotInitialized
        | Problem::FieldReadEarly => chain_of("E1028"@),
        Problem::SelfCapturedEarly
        | Problem::SelfEscapesEarly => chain_of("E1029"@),
        Problem::SuperInitMissing
        | Problem::SuperInitInLoop
        | Problem::SuperInitUneven
        | Problem::NoSuperclass
        | Problem::SuperInitOutsideInit
        | Problem::ParentHasNoInit
        | Problem::SuperInitTwice => chain_of("E1030"@),
        Problem::OverrideParameters
        | Problem::OverrideResult => chain_of("E1031"@),
        Problem::NotCallable { .. } => chain_of("E1032"@),
        Problem::KeyNotHashable { .. } => chain_of("E1033"@),
        Problem::NotInterpolable { .. } => chain_of("E1034"@),
        Problem::ReadOnlyAssigned
        | Problem::ReadOnlyField
        | Problem::ReadOnlyArgument
        | Problem::ReadOnlyReceiver => chain_of("E1035"@),
        Problem::WalkedChanged { code } => code,
        Problem::CapturedRebound => chain_of("E1036"@),
        Problem::EmptyList
        | Problem::EmptyMap => chain_of("E1037"@),
        Problem::UnknownParent
        | Problem::ParentImported
        | Problem::ParentAfterChild
        | Problem::InitGenerics
        | Problem::InitPremises
        | Problem::FrozenParent
        | Problem::FrozenField
        | Problem::DuplicateField
        | Problem::FreezeReserved
        | Problem::DuplicateMember
        | Problem::InitNeedsMutSelf
        | Problem::InitResult
        | Problem::FrozenMutSelf
        | Problem::NeedsInit
        | Problem::DuplicateEnumMember => chain_of("E1038"@),
        Problem::SelfOutsideMethod
        | Problem::SuperOutsideMethod => chain_of("E1039"@),
        Problem::EnumNotConstructible
        | Problem::NotAnEnum
        | Problem::SealedText
        | Problem::SealedTcp
        | Problem::SealedSyntax
        | Problem::FinalParent
        | Problem::SealedEnum
        | Problem::NativeShape
        | Problem::DuplicateArm
        | Problem::EnumInit => chain_of("E1040"@),
        Problem::NoArm { .. }
        | Problem::CallPatternCount { .. }
        | Problem::CallNeedsOperation
        | Problem::PatternMismatch { .. }
        | Problem::TuplePatternCount { .. }
        | Problem::PatternNameTwice
        | Problem::NoConstructors { .. }
        | Problem::ClassPatternName { .. }
        | Problem::ClassPatternCount { .. }
        | Problem::WrongQualifier { .. }
        | Problem::ArmNeverMatches { .. }
        | Problem::ArmNeedsFields { .. }
        | Problem::ArmPatternCount { .. }
        | Problem::UnknownReflection
        | Problem::ReflectEffects
        | Problem::ReflectNeedsSignature
        | Problem::ReflectNeedsParameter
        | Problem::ReflectBinding => chain_of("E1041"@),
        Problem::NotExhaustive { .. } => chain_of("E1042"@),
        Problem::ArmUnreachable => chain_of("E1043"@),
        Problem::AmbiguousConstructor { .. }
        | Problem::CannotInfer { .. } => chain_of("E1045"@),
        Problem::RowTooWide { .. }
        | Problem::UnknownEffect
        | Problem::OverrideRow { .. } => chain_of("E1046"@),
        Problem::NotAnInstance { .. }
        | Problem::TargetNotClass { .. }
        | Problem::NeverSucceeds { .. } => chain_of("E1047"@),
        Problem::TupleIndexNotLiteral
        | Problem::TupleIndexRange { .. } => chain_of("E1048"@),
        Problem::PatternWorkLimit
        | Problem::ReflectNeedsWildcard
        | Problem::ReflectArmsOnly => chain_of("E1049"@),
        Problem::NotInManifest => chain_of("E1050"@),
        Problem::SysNotValue
        | Problem::GroupNotValue
        | Problem::ModuleNotValue
        | Problem::GroupNotCallable
        | Problem::ModuleNotCallable
        | Problem::SysGroupNotValue
        | Problem::NoSysGroup
        | Problem::RecvOutsideProc
        | Problem::UseSnakeCase
        | Problem::NoOperation
        | Problem::VmNotValue
        | Problem::NotAGroup
        | Problem::NotAnOperation
        | Problem::TargetShape
        | Problem::MockNeedsOperation => chain_of("E1051"@),
        Problem::UseNeedsPackage
        | Problem::UseUnknownRoot
        | Problem::UseNoExport
        | Problem::UseNoModule
        | Problem::UseNameTaken
        | Problem::UseInterfaceTaken
        | Problem::UseBoundTwice
        | Problem::UseSysAlone
        | Problem::UseNoGroup
        | Problem::UseSnakeMember
        | Problem::UseNoOperation
        | Problem::UseTooLong => chain_of("E1052"@),
        Problem::NoAssociated
        | Problem::AmbiguousAssociated
        | Problem::SelfNotAvailable
        | Problem::SelfNotInterface
        | Problem::NoInterfaceAssociated
        | Problem::AmbiguousMethod
        | Problem::AmbiguousDefault { .. }
        | Problem::UnknownInterface
        | Problem::InterfaceTypeCount { .. }
        | Problem::InterfaceEffectCount { .. }
        | Problem::DuplicateBound
        | Problem::InheritanceDepth
        | Problem::InheritanceCycle
        | Problem::InheritanceConflict { .. }
        | Problem::ExtendsItself
        | Problem::DuplicateParentInterface { .. }
        | Problem::DuplicateAssociated
        | Problem::DuplicateInterfaceMethod
        | Problem::InheritedAmbiguous
        | Problem::DuplicateBinding
        | Problem::ConformanceConflict { .. }
        | Problem::ConformanceIncomparable { .. }
        | Problem::ConformanceNeedsType
        | Problem::AssociatedUnused
        | Problem::PremiseUnknown
        | Problem::SelfDependent { .. }
        | Problem::ConformanceArguments { .. }
        | Problem::AssociatedConformance { .. }
        | Problem::IterableItem
        | Problem::MethodMissing { .. }
        | Problem::OverrideGenerics { .. }
        | Problem::OverridePremise { .. }
        | Problem::OverrideSelf { .. }
        | Problem::OverrideTypes { .. }
        | Problem::OverrideEffects { .. }
        | Problem::TypeArgumentConformance { .. }
        | Problem::NoInterfaceMethod { .. }
        | Problem::InterfaceMethodArguments
        | Problem::NotIterable { .. }
        | Problem::NextResult => chain_of("E1053"@),
        Problem::LoopBindingCount { .. }
        | Problem::LoopNeedsPair => chain_of("E1054"@),
        Problem::HolderLocalMailbox { .. } => chain_of("E1056"@),
        Problem::SelectNeedsArms => chain_of("E1062"@),
        Problem::NeverReturns { .. } => chain_of("E1063"@),
        Problem::CallbackReturned
        | Problem::CallbackRebound
        | Problem::CallbackInLocal
        | Problem::CallbackInField
        | Problem::CallbackCaptured
        | Problem::CallbackInTuple
        | Problem::CallbackInList
        | Problem::CallbackInMap
        | Problem::CallbackArgument
        | Problem::EscapingNotFunction => chain_of("E1064"@),
        Problem::PropagateNeedsResult { .. }
        | Problem::PropagateAtTopLevel
        | Problem::PropagateNeedsDeclared
        | Problem::PropagateNeedsEnclosing { .. }
        | Problem::PropagateErrorDiffers { .. } => chain_of("E1066"@),
    }
}

impl Problem {
    /// The published code of the problem.
    pub fn code(&self) -> (r: Text)
        ensures
            r == code_of(*self),
    {
        match self {
            Problem::CoreMissing
            | Problem::CoreOtherPath
            | Problem::CoreOtherBundle
            | Problem::CorePath => text("E0290"),
            Problem::Mismatch { .. }
            | Problem::ConstructorCollision { .. }
            | Problem::FromFnNeedsFunction { .. }
            | Problem::RestoreNeedsSnapshot { .. }
            | Problem::ServeFileNeedsOpen
            | Problem::AnswerNeedsCall { .. }
            | Problem::ChooseNeedsWait { .. }
            | Problem::RunNeedsMachine { .. }
            | Problem::ReflectNeedsType
            | Problem::RefinementNeedsFunction => text("E1004"),
            Problem::NotInScope
            | Problem::NoFunction
            | Problem::NoExport => text("E1005"),
            Problem::WrongArgumentCount { .. }
            | Problem::LabelNotDeclared
            | Problem::LabelAlreadyFilled
            | Problem::LabelRepeated
            | Problem::PositionalAfterLabel
            | Problem::LabelNotValid
            | Problem::IntrinsicNeedsName
            | Problem::IntrinsicNameNotLiteral
            | Problem::BuilderTakesNoArguments
            | Problem::HookOperandCount { .. } => text("E1006"),
            Problem::BreakOutsideLoop
            | Problem::BreakCarriesValue
            | Problem::ContinueOutsideLoop => text("E1008"),
            Problem::DuplicateDefinition
            | Problem::DuplicateLoopBinding => text("E1010"),
            Problem::UnknownType
            | Problem::InterfaceAsType
            | Problem::AssociatedNeedsSelf => text("E1013"),
            Problem::DuplicateParameter
            | Problem::DuplicateGeneric => text("E1014"),
            Problem::ReturnAtTopLevel
            | Problem::ReturnNeedsResult => text("E1016"),
            Problem::TupleSidesDiffer { .. }
            | Problem::TupleNotComparable { .. }
            | Problem::NotComparable { .. } => text("E1017"),
            Problem::EnumNotValue
            | Problem::ClassNotValue => text("E1018"),
            Problem::CannotAssign => text("E1019"),
            Problem::AlreadyDeclared => text("E1020"),
            Problem::Unreachable => text("E1021"),
            Problem::ClosureTakesNoTypeArguments
            | Problem::NeedsDirectCall
            | Problem::BytesTakesNoTypeArguments
            | Problem::MapNeedsKey
            | Problem::IntrinsicTakesNoTypeArguments
            | Problem::BuilderNeedsTypeArguments { .. }
            | Problem::TypeArgumentCount { .. }
            | Problem::GenericNeedsArguments { .. }
            | Problem::NeedsTypeArguments
            | Problem::TakesNoTypeArguments
            | Problem::VmTakesNoTypeArguments
            | Problem::SpawnTakesNoTypeArguments
            | Problem::NativeTakesNoTypeArguments
            | Problem::DeniedTakesNoTypeArguments
            | Problem::OperationTakesNoTypeArguments
            | Problem::ControlTakesNoTypeArguments
            | Problem::TooManyInterfaces
            | Problem::TooManyMethods
            | Problem::ClassEffectParameters
            | Problem::EnumEffectParameters
            | Problem::GenericClassParent
            | Problem::ParentArgumentCount { .. }
            | Problem::GenericDefault => text("E1024"),
            Problem::UnknownField { .. } => text("E1025"),
            Problem::NoMethod { .. }
            | Problem::TypeHasNoMethod { .. }
            | Problem::InitIsNotMethod
            | Problem::NoSuperMethod
            | Problem::UseTcpAddress
            | Problem::NotConstructible
            | Problem::NoIntrinsic
            | Problem::NoFaultConstructor
            | Problem::SpawnNeedsProc
            | Problem::NoOnSpawn
            | Problem::OnSpawnShape
            | Problem::NoTableMethod
            | Problem::NoMailboxSend
            | Problem::ReflectDuringInit => text("E1026"),
            Problem::NoFields { .. }
            | Problem::ScalarHasNoMethod { .. }
            | Problem::NotIndexable { .. } => text("E1027"),
            Problem::FieldNotInitialized
            | Problem::FieldReadEarly => text("E1028"),
            Problem::SelfCapturedEarly
            | Problem::SelfEscapesEarly => text("E1029"),
            Problem::SuperInitMissing
            | Problem::SuperInitInLoop
            | Problem::SuperInitUneven
            | Problem::NoSuperclass
            | Problem::SuperInitOutsideInit
            | Problem::ParentHasNoInit
            | Problem::SuperInitTwice => text("E1030"),
            Problem::OverrideParameters
            | Problem::OverrideResult => text("E1031"),
            Problem::NotCallable { .. } => text("E1032"),
            Problem::KeyNotHashable { .. } => text("E1033"),
            Problem::NotInterpolable { .. } => text("E1034"),
            Problem::ReadOnlyAssigned
            | Problem::ReadOnlyField
            | Problem::ReadOnlyArgument
            | Problem::ReadOnlyReceiver => text("E1035"),
            Problem::WalkedChanged { code } => copy_chain(code),
            Problem::CapturedRebound => text("E1036"),
            Problem::EmptyList
            | Problem::EmptyMap => text("E1037"),
            Problem::UnknownParent
            | Problem::ParentImported
            | Problem::ParentAfterChild
            | Problem::InitGenerics
            | Problem::InitPremises
            | Problem::FrozenParent
            | Problem::FrozenField
            | Problem::DuplicateField
            | Problem::FreezeReserved
            | Problem::DuplicateMember
            | Problem::InitNeedsMutSelf
            | Problem::InitResult
            | Problem::FrozenMutSelf
            | Problem::NeedsInit
            | Problem::DuplicateEnumMember => text("E1038"),
            Problem::SelfOutsideMethod
            | Problem::SuperOutsideMethod => text("E1039"),
            Problem::EnumNotConstructible
            | Problem::NotAnEnum
            | Problem::SealedText
            | Problem::SealedTcp
            | Problem::SealedSyntax
            | Problem::FinalParent
            | Problem::SealedEnum
            | Problem::NativeShape
            | Problem::DuplicateArm
            | Problem::EnumInit => text("E1040"),
            Problem::NoArm { .. }
            | Problem::CallPatternCount { .. }
            | Problem::CallNeedsOperation
            | Problem::PatternMismatch { .. }
            | Problem::TuplePatternCount { .. }
            | Problem::PatternNameTwice
            | Problem::NoConstructors { .. }
            | Problem::ClassPatternName { .. }
            | Problem::ClassPatternCount { .. }
            | Problem::WrongQualifier { .. }
            | Problem::ArmNeverMatches { .. }
            | Problem::ArmNeedsFields { .. }
            | Problem::ArmPatternCount { .. }
            | Problem::UnknownReflection
            | Problem::ReflectEffects
            | Problem::ReflectNeedsSignature
            | Problem::ReflectNeedsParameter
            | Problem::ReflectBinding => text("E1041"),
            Problem::NotExhaustive { .. } => text("E1042"),
            Problem::ArmUnreachable => text("E1043"),
            Problem::AmbiguousConstructor { .. }
            | Problem::CannotInfer { .. } => text("E1045"),
            Problem::RowTooWide { .. }
            | Problem::UnknownEffect
            | Problem::OverrideRow { .. } => text("E1046"),
            Problem::NotAnInstance { .. }
            | Problem::TargetNotClass { .. }
            | Problem::NeverSucceeds { .. } => text("E1047"),
            Problem::TupleIndexNotLiteral
            | Problem::TupleIndexRange { .. } => text("E1048"),
            Problem::PatternWorkLimit
            | Problem::ReflectNeedsWildcard
            | Problem::ReflectArmsOnly => text("E1049"),
            Problem::NotInManifest => text("E1050"),
            Problem::SysNotValue
            | Problem::GroupNotValue
            | Problem::ModuleNotValue
            | Problem::GroupNotCallable
            | Problem::ModuleNotCallable
            | Problem::SysGroupNotValue
            | Problem::NoSysGroup
            | Problem::RecvOutsideProc
            | Problem::UseSnakeCase
            | Problem::NoOperation
            | Problem::VmNotValue
            | Problem::NotAGroup
            | Problem::NotAnOperation
            | Problem::TargetShape
            | Problem::MockNeedsOperation => text("E1051"),
            Problem::UseNeedsPackage
            | Problem::UseUnknownRoot
            | Problem::UseNoExport
            | Problem::UseNoModule
            | Problem::UseNameTaken
            | Problem::UseInterfaceTaken
            | Problem::UseBoundTwice
            | Problem::UseSysAlone
            | Problem::UseNoGroup
            | Problem::UseSnakeMember
            | Problem::UseNoOperation
            | Problem::UseTooLong => text("E1052"),
            Problem::NoAssociated
            | Problem::AmbiguousAssociated
            | Problem::SelfNotAvailable
            | Problem::SelfNotInterface
            | Problem::NoInterfaceAssociated
            | Problem::AmbiguousMethod
            | Problem::AmbiguousDefault { .. }
            | Problem::UnknownInterface
            | Problem::InterfaceTypeCount { .. }
            | Problem::InterfaceEffectCount { .. }
            | Problem::DuplicateBound
            | Problem::InheritanceDepth
            | Problem::InheritanceCycle
            | Problem::InheritanceConflict { .. }
            | Problem::ExtendsItself
            | Problem::DuplicateParentInterface { .. }
            | Problem::DuplicateAssociated
            | Problem::DuplicateInterfaceMethod
            | Problem::InheritedAmbiguous
            | Problem::DuplicateBinding
            | Problem::ConformanceConflict { .. }
            | Problem::ConformanceIncomparable { .. }
            | Problem::ConformanceNeedsType
            | Problem::AssociatedUnused
            | Problem::PremiseUnknown
            | Problem::SelfDependent { .. }
            | Problem::ConformanceArguments { .. }
            | Problem::AssociatedConformance { .. }
            | Problem::IterableItem
            | Problem::MethodMissing { .. }
            | Problem::OverrideGenerics { .. }
            | Problem::OverridePremise { .. }
            | Problem::OverrideSelf { .. }
            | Problem::OverrideTypes { .. }
            | Problem::OverrideEffects { .. }
            | Problem::TypeArgumentConformance { .. }
            | Problem::NoInterfaceMethod { .. }
            | Problem::InterfaceMethodArguments
            | Problem::NotIterable { .. }
            | Problem::NextResult => text("E1053"),
            Problem::LoopBindingCount { .. }
            | Problem::LoopNeedsPair => text("E1054"),
            Problem::HolderLocalMailbox { .. } => text("E1056"),
            Problem::SelectNeedsArms => text("E1062"),
            Problem::NeverReturns { .. } => text("E1063"),
            Problem::CallbackReturned
            | Problem::CallbackRebound
            | Problem::CallbackInLocal
            | Problem::CallbackInField
            | Problem::CallbackCaptured
            | Problem::CallbackInTuple
            | Problem::CallbackInList
            | Problem::CallbackInMap
            | Problem::CallbackArgument
            | Problem::EscapingNotFunction => text("E1064"),
            Problem::PropagateNeedsResult { .. }
            | Problem::PropagateAtTopLevel
            | Problem::PropagateNeedsDeclared
            | Problem::PropagateNeedsEnclosing { .. }
            | Problem::PropagateErrorDiffers { .. } => text("E1066"),
        }
    }
}

} // verus!
