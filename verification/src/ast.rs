use vstd::prelude::*;

use crate::span::{Ident, Span};
use crate::type_engine::TypeId;

verus! {

/// A handle to a function declaration owned by the declaration store.
#[derive(Clone, Copy, PartialEq, Eq, Structural, Debug)]
pub struct FnDeclId {
    pub id: usize,
}

/// A handle to a constant declaration owned by the declaration store.
#[derive(Clone, Copy, PartialEq, Eq, Structural, Debug)]
pub struct ConstDeclId {
    pub id: usize,
}

/// A handle to a struct declaration owned by the declaration store.
#[derive(Clone, Copy, PartialEq, Eq, Structural, Debug)]
pub struct StructDeclId {
    pub id: usize,
}

/// A handle to an enum declaration owned by the declaration store.
#[derive(Clone, Copy, PartialEq, Eq, Structural, Debug)]
pub struct EnumDeclId {
    pub id: usize,
}

/// A handle to a storage-block declaration owned by the declaration store.
#[derive(Clone, Copy, PartialEq, Eq, Structural, Debug)]
pub struct StorageDeclId {
    pub id: usize,
}

/// A handle to a type-alias declaration owned by the declaration store.
#[derive(Clone, Copy, PartialEq, Eq, Structural, Debug)]
pub struct TypeAliasDeclId {
    pub id: usize,
}

/// A handle to an impl-of-trait declaration owned by the declaration store.
#[derive(Clone, Copy, PartialEq, Eq, Structural, Debug)]
pub struct ImplDeclId {
    pub id: usize,
}

/// A resolved type attached to a piece of syntax, with the span where the
/// type was written.
#[derive(Clone, Copy, Debug)]
pub struct TypeArgument {
    pub type_id: TypeId,
    pub span: Span,
}

/// A fully typed expression: its variant and the type it returns.
#[derive(Debug)]
pub struct TyExpression {
    pub expression: TyExpressionVariant,
    pub return_type: TypeId,
}

/// The closed set of typed-expression kinds. Payloads hold exactly what this
/// pass reads: the sub-expressions, the code blocks, and the spans cited by
/// diagnostics.
#[derive(Debug)]
pub enum TyExpressionVariant {
    Literal,
    VariableExpression,
    FunctionParameter,
    AsmExpression,
    StorageAccess,
    AbiName,
    FunctionApplication { arguments: Vec<TyExpression> },
    LazyOperator { lhs: Box<TyExpression>, rhs: Box<TyExpression> },
    ArrayIndex { prefix: Box<TyExpression>, index: Box<TyExpression> },
    IntrinsicFunction { arguments: Vec<TyExpression> },
    Tuple { fields: Vec<TyExpression> },
    Array { contents: Vec<TyExpression> },
    StructExpression { field_values: Vec<TyExpression> },
    CodeBlock(TyCodeBlock),
    MatchExp { desugared: Box<TyExpression> },
    IfExp {
        condition: Box<TyExpression>,
        then: Box<TyExpression>,
        else_branch: Option<Box<TyExpression>>,
    },
    StructFieldAccess { prefix: Box<TyExpression> },
    TupleElemAccess { prefix: Box<TyExpression> },
    AbiCast { address: Box<TyExpression> },
    EnumTag { exp: Box<TyExpression> },
    UnsafeDowncast { exp: Box<TyExpression> },
    EnumInstantiation { contents: Option<Box<TyExpression>> },
    WhileLoop { condition: Box<TyExpression>, body: TyCodeBlock },
    Break,
    Continue,
    Reassignment { lhs_base_name: Ident, rhs: Box<TyExpression> },
    StorageReassignment { span: Span, rhs: Box<TyExpression> },
    Return(Box<TyExpression>),
}

/// An ordered sequence of block-level nodes; order matters.
#[derive(Debug)]
pub struct TyCodeBlock {
    pub contents: Vec<TyAstNodeContent>,
}

/// One block-level node: an expression, an implicitly returned expression, a
/// declaration, or a side-effect marker.
#[derive(Debug)]
pub enum TyAstNodeContent {
    Expression(TyExpression),
    ImplicitReturnExpression(TyExpression),
    Declaration(TyDecl),
    SideEffect,
}

/// A variable declaration, inline in its block: the declared name and the
/// initializer expression.
#[derive(Debug)]
pub struct TyVariableDecl {
    pub name: Ident,
    pub body: TyExpression,
}

/// The closed set of typed-declaration kinds. Out-of-line declarations are
/// referenced through handles into the declaration store.
#[derive(Debug)]
pub enum TyDecl {
    VariableDecl(Box<TyVariableDecl>),
    ConstantDecl { decl_id: ConstDeclId },
    FunctionDecl { decl_id: FnDeclId },
    TraitDecl,
    AbiDecl,
    ImplTrait { decl_id: ImplDeclId },
    StructDecl { decl_id: StructDeclId },
    EnumDecl { decl_id: EnumDeclId },
    EnumVariantDecl { decl_id: EnumDeclId, variant_name: Ident },
    StorageDecl { decl_id: StorageDeclId },
    TypeAliasDecl { decl_id: TypeAliasDeclId },
    GenericTypeForFunctionScope,
    ErrorRecovery,
}

/// One parameter of a function declaration. A `self` parameter is exempt from
/// the placement check.
#[derive(Clone, Debug)]
pub struct TyFunctionParameter {
    pub is_self: bool,
    pub type_argument: TypeArgument,
}

/// A function declaration: its body, its parameters, and its return type.
#[derive(Debug)]
pub struct TyFunctionDecl {
    pub body: TyCodeBlock,
    pub parameters: Vec<TyFunctionParameter>,
    pub return_type: TypeArgument,
}

/// A constant declaration: its name and its optional value expression.
#[derive(Debug)]
pub struct TyConstantDecl {
    pub name: Ident,
    pub value: Option<TyExpression>,
}

/// One field of a struct declaration: the field's span and its declared type.
#[derive(Clone, Debug)]
pub struct TyStructField {
    pub span: Span,
    pub type_argument: TypeArgument,
}

/// A struct declaration.
#[derive(Clone, Debug)]
pub struct TyStructDecl {
    pub fields: Vec<TyStructField>,
}

/// One variant of an enum declaration: its name, its span, and its declared
/// type.
#[derive(Clone, Debug)]
pub struct TyEnumVariant {
    pub name: Ident,
    pub span: Span,
    pub type_argument: TypeArgument,
}

/// An enum declaration.
#[derive(Clone, Debug)]
pub struct TyEnumDecl {
    pub variants: Vec<TyEnumVariant>,
}

/// One field of a storage block: its name (whose span diagnostics cite) and
/// its declared type.
#[derive(Clone, Debug)]
pub struct TyStorageField {
    pub name: Ident,
    pub type_argument: TypeArgument,
}

/// A storage-block declaration.
#[derive(Clone, Debug)]
pub struct TyStorageDecl {
    pub fields: Vec<TyStorageField>,
}

/// A type-alias declaration: the aliased type and the alias's span.
#[derive(Clone, Debug)]
pub struct TyTypeAliasDecl {
    pub ty: TypeArgument,
    pub span: Span,
}

/// One item of an impl-of-trait block: a method or an associated constant,
/// each referenced by handle.
#[derive(Clone, Copy, PartialEq, Eq, Structural, Debug)]
pub enum TyImplItem {
    Fn(FnDeclId),
    Constant(ConstDeclId),
}

/// An impl-of-trait declaration: its items, in order.
#[derive(Clone, Debug)]
pub struct TyImplTrait {
    pub items: Vec<TyImplItem>,
}

} // verus!
