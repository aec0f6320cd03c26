use vstd::prelude::*;
use vstd::pervasive::arbitrary;
use vstd::pervasive::unreached;

use crate::ast::{
    ConstDeclId, EnumDeclId, FnDeclId, ImplDeclId, StorageDeclId, StructDeclId, TyAstNodeContent,
    TyCodeBlock, TyConstantDecl, TyDecl, TyEnumDecl, TyExpression, TyExpressionVariant,
    TyFunctionDecl, TyImplItem, TyImplTrait, TyStorageDecl, TyStructDecl, TyTypeAliasDecl,
    TypeAliasDeclId,
};

verus! {

/// One declaration as the declaration store owns it.
#[derive(Debug)]
pub enum Declaration {
    Function(TyFunctionDecl),
    Constant(TyConstantDecl),
    Struct(TyStructDecl),
    Enum(TyEnumDecl),
    Storage(TyStorageDecl),
    TypeAlias(TyTypeAliasDecl),
    ImplTrait(TyImplTrait),
}

/// The declaration store: owns every out-of-line typed declaration behind a
/// handle. It is an append-only arena filled by earlier compiler phases: a
/// declaration is interned only after the declarations its body mentions, so
/// every handle inside the declaration at slot `i` points below `i`. This
/// pass only reads it.
pub struct DeclEngine {
    pub decls: Vec<Declaration>,
}

impl DeclEngine {
    /// The number of declarations interned; handles at or above it do not
    /// resolve.
    pub open spec fn bound(self) -> nat {
        self.decls@.len()
    }

    pub open spec fn valid_fn_idx(self, id: nat) -> bool {
        id < self.decls@.len() && self.decls@[id as int] is Function
    }

    pub open spec fn valid_const_idx(self, id: nat) -> bool {
        id < self.decls@.len() && self.decls@[id as int] is Constant
    }

    pub open spec fn valid_fn(self, id: FnDeclId) -> bool {
        self.valid_fn_idx(id.id as nat)
    }

    pub open spec fn valid_const(self, id: ConstDeclId) -> bool {
        self.valid_const_idx(id.id as nat)
    }

    pub open spec fn valid_struct(self, id: StructDeclId) -> bool {
        id.id < self.decls@.len() && self.decls@[id.id as int] is Struct
    }

    pub open spec fn valid_enum(self, id: EnumDeclId) -> bool {
        id.id < self.decls@.len() && self.decls@[id.id as int] is Enum
    }

    pub open spec fn valid_storage(self, id: StorageDeclId) -> bool {
        id.id < self.decls@.len() && self.decls@[id.id as int] is Storage
    }

    pub open spec fn valid_type_alias(self, id: TypeAliasDeclId) -> bool {
        id.id < self.decls@.len() && self.decls@[id.id as int] is TypeAlias
    }

    pub open spec fn valid_impl(self, id: ImplDeclId) -> bool {
        id.id < self.decls@.len() && self.decls@[id.id as int] is ImplTrait
    }

    pub open spec fn spec_fn_at(self, id: nat) -> TyFunctionDecl {
        match self.decls@[id as int] {
            Declaration::Function(f) => f,
            _ => arbitrary(),
        }
    }

    pub open spec fn spec_const_at(self, id: nat) -> TyConstantDecl {
        match self.decls@[id as int] {
            Declaration::Constant(c) => c,
            _ => arbitrary(),
        }
    }

    pub open spec fn spec_struct_at(self, id: StructDeclId) -> TyStructDecl {
        match self.decls@[id.id as int] {
            Declaration::Struct(d) => d,
            _ => arbitrary(),
        }
    }

    pub open spec fn spec_enum_at(self, id: EnumDeclId) -> TyEnumDecl {
        match self.decls@[id.id as int] {
            Declaration::Enum(d) => d,
            _ => arbitrary(),
        }
    }

    pub open spec fn spec_storage_at(self, id: StorageDeclId) -> TyStorageDecl {
        match self.decls@[id.id as int] {
            Declaration::Storage(d) => d,
            _ => arbitrary(),
        }
    }

    pub open spec fn spec_type_alias_at(self, id: TypeAliasDeclId) -> TyTypeAliasDecl {
        match self.decls@[id.id as int] {
            Declaration::TypeAlias(d) => d,
            _ => arbitrary(),
        }
    }

    pub open spec fn spec_impl_at(self, id: ImplDeclId) -> TyImplTrait {
        match self.decls@[id.id as int] {
            Declaration::ImplTrait(d) => d,
            _ => arbitrary(),
        }
    }

    /// What the append-only arena guarantees of one slot: every handle inside
    /// the declaration stored at `i` points strictly below `i`, and to a
    /// declaration of the right kind.
    pub open spec fn slot_wf(self, i: int) -> bool {
        match self.decls@[i] {
            Declaration::Function(f) => block_refs_ok(self, i as nat, f.body),
            Declaration::Constant(c) => match c.value {
                Some(e) => expr_refs_ok(self, i as nat, e),
                None => true,
            },
            Declaration::ImplTrait(im) => impl_items_refs_ok(self, i as nat, im.items@),
            _ => true,
        }
    }

    /// Store well-formedness: every slot keeps the arena guarantee.
    pub open spec fn wf(self) -> bool {
        forall|i: int| 0 <= i < self.decls@.len() ==> #[trigger] self.slot_wf(i)
    }

    /// Fetch a function declaration. Relies on the store invariant that every
    /// handle reachable from the typed AST resolves.
    pub fn get_function(&self, id: FnDeclId) -> (r: &TyFunctionDecl)
        requires
            self.valid_fn(id),
        ensures
            *r == self.spec_fn_at(id.id as nat),
    {
        match &self.decls[id.id] {
            Declaration::Function(f) => f,
            _ => unreached(),
        }
    }

    /// Fetch a constant declaration.
    pub fn get_constant(&self, id: ConstDeclId) -> (r: &TyConstantDecl)
        requires
            self.valid_const(id),
        ensures
            *r == self.spec_const_at(id.id as nat),
    {
        match &self.decls[id.id] {
            Declaration::Constant(c) => c,
            _ => unreached(),
        }
    }

    /// Fetch a struct declaration.
    pub fn get_struct(&self, id: StructDeclId) -> (r: &TyStructDecl)
        requires
            self.valid_struct(id),
        ensures
            *r == self.spec_struct_at(id),
    {
        match &self.decls[id.id] {
            Declaration::Struct(d) => d,
            _ => unreached(),
        }
    }

    /// Fetch an enum declaration.
    pub fn get_enum(&self, id: EnumDeclId) -> (r: &TyEnumDecl)
        requires
            self.valid_enum(id),
        ensures
            *r == self.spec_enum_at(id),
    {
        match &self.decls[id.id] {
            Declaration::Enum(d) => d,
            _ => unreached(),
        }
    }

    /// Fetch a storage-block declaration.
    pub fn get_storage(&self, id: StorageDeclId) -> (r: &TyStorageDecl)
        requires
            self.valid_storage(id),
        ensures
            *r == self.spec_storage_at(id),
    {
        match &self.decls[id.id] {
            Declaration::Storage(d) => d,
            _ => unreached(),
        }
    }

    /// Fetch a type-alias declaration.
    pub fn get_type_alias(&self, id: TypeAliasDeclId) -> (r: &TyTypeAliasDecl)
        requires
            self.valid_type_alias(id),
        ensures
            *r == self.spec_type_alias_at(id),
    {
        match &self.decls[id.id] {
            Declaration::TypeAlias(d) => d,
            _ => unreached(),
        }
    }

    /// Fetch an impl-of-trait declaration.
    pub fn get_impl_trait(&self, id: ImplDeclId) -> (r: &TyImplTrait)
        requires
            self.valid_impl(id),
        ensures
            *r == self.spec_impl_at(id),
    {
        match &self.decls[id.id] {
            Declaration::ImplTrait(d) => d,
            _ => unreached(),
        }
    }
}

/// Every declaration handle mentioned in one impl block's item list points
/// strictly below `b` and to a declaration of the item's kind.
pub open spec fn impl_items_refs_ok(de: DeclEngine, b: nat, items: Seq<TyImplItem>) -> bool {
    forall|k: int| 0 <= k < items.len() ==> impl_item_refs_ok(de, b, #[trigger] items[k])
}

pub open spec fn impl_item_refs_ok(de: DeclEngine, b: nat, item: TyImplItem) -> bool {
    match item {
        TyImplItem::Fn(fid) => fid.id < b && de.valid_fn(fid),
        TyImplItem::Constant(cid) => cid.id < b && de.valid_const(cid),
    }
}

/// Every declaration handle mentioned in the expression resolves; handles to
/// declarations whose bodies are stored out of line point strictly below `b`.
pub open spec fn expr_refs_ok(de: DeclEngine, b: nat, e: TyExpression) -> bool
    decreases e, 0int,
{
    match e.expression {
        TyExpressionVariant::Literal => true,
        TyExpressionVariant::VariableExpression => true,
        TyExpressionVariant::FunctionParameter => true,
        TyExpressionVariant::AsmExpression => true,
        TyExpressionVariant::StorageAccess => true,
        TyExpressionVariant::AbiName => true,
        TyExpressionVariant::FunctionApplication { arguments } => exprs_refs_ok(de, b, arguments@),
        TyExpressionVariant::LazyOperator { lhs, rhs } => {
            expr_refs_ok(de, b, *lhs) && expr_refs_ok(de, b, *rhs)
        },
        TyExpressionVariant::ArrayIndex { prefix, index } => {
            expr_refs_ok(de, b, *prefix) && expr_refs_ok(de, b, *index)
        },
        TyExpressionVariant::IntrinsicFunction { arguments } => exprs_refs_ok(de, b, arguments@),
        TyExpressionVariant::Tuple { fields } => exprs_refs_ok(de, b, fields@),
        TyExpressionVariant::Array { contents } => exprs_refs_ok(de, b, contents@),
        TyExpressionVariant::StructExpression { field_values } => exprs_refs_ok(
            de,
            b,
            field_values@,
        ),
        TyExpressionVariant::CodeBlock(cb) => block_refs_ok(de, b, cb),
        TyExpressionVariant::MatchExp { desugared } => expr_refs_ok(de, b, *desugared),
        TyExpressionVariant::IfExp { condition, then, else_branch } => {
            expr_refs_ok(de, b, *condition) && expr_refs_ok(de, b, *then) && match else_branch {
                Some(eb) => expr_refs_ok(de, b, *eb),
                None => true,
            }
        },
        TyExpressionVariant::StructFieldAccess { prefix } => expr_refs_ok(de, b, *prefix),
        TyExpressionVariant::TupleElemAccess { prefix } => expr_refs_ok(de, b, *prefix),
        TyExpressionVariant::AbiCast { address } => expr_refs_ok(de, b, *address),
        TyExpressionVariant::EnumTag { exp } => expr_refs_ok(de, b, *exp),
        TyExpressionVariant::UnsafeDowncast { exp } => expr_refs_ok(de, b, *exp),
        TyExpressionVariant::EnumInstantiation { contents } => match contents {
            Some(c) => expr_refs_ok(de, b, *c),
            None => true,
        },
        TyExpressionVariant::WhileLoop { condition, body } => {
            expr_refs_ok(de, b, *condition) && block_refs_ok(de, b, body)
        },
        TyExpressionVariant::Break => true,
        TyExpressionVariant::Continue => true,
        TyExpressionVariant::Reassignment { lhs_base_name, rhs } => expr_refs_ok(de, b, *rhs),
        TyExpressionVariant::StorageReassignment { span, rhs } => expr_refs_ok(de, b, *rhs),
        TyExpressionVariant::Return(exp) => expr_refs_ok(de, b, *exp),
    }
}

pub open spec fn exprs_refs_ok(de: DeclEngine, b: nat, s: Seq<TyExpression>) -> bool
    decreases s, 1int,
{
    if s.len() == 0 {
        true
    } else {
        expr_refs_ok(de, b, s[0]) && exprs_refs_ok(de, b, s.subrange(1, s.len() as int))
    }
}

pub open spec fn block_refs_ok(de: DeclEngine, b: nat, cb: TyCodeBlock) -> bool
    decreases cb, 0int,
{
    nodes_refs_ok(de, b, cb.contents@)
}

pub open spec fn nodes_refs_ok(de: DeclEngine, b: nat, s: Seq<TyAstNodeContent>) -> bool
    decreases s, 1int,
{
    if s.len() == 0 {
        true
    } else {
        node_refs_ok(de, b, s[0]) && nodes_refs_ok(de, b, s.subrange(1, s.len() as int))
    }
}

pub open spec fn node_refs_ok(de: DeclEngine, b: nat, n: TyAstNodeContent) -> bool
    decreases n, 0int,
{
    match n {
        TyAstNodeContent::Expression(e) => expr_refs_ok(de, b, e),
        TyAstNodeContent::ImplicitReturnExpression(e) => expr_refs_ok(de, b, e),
        TyAstNodeContent::Declaration(d) => decl_refs_ok(de, b, d),
        TyAstNodeContent::SideEffect => true,
    }
}

pub open spec fn decl_refs_ok(de: DeclEngine, b: nat, d: TyDecl) -> bool
    decreases d, 0int,
{
    match d {
        TyDecl::VariableDecl(v) => expr_refs_ok(de, b, v.body),
        TyDecl::ConstantDecl { decl_id } => decl_id.id < b && de.valid_const(decl_id),
        TyDecl::FunctionDecl { decl_id } => decl_id.id < b && de.valid_fn(decl_id),
        TyDecl::TraitDecl => true,
        TyDecl::AbiDecl => true,
        TyDecl::ImplTrait { decl_id } => decl_id.id < b && de.valid_impl(decl_id),
        TyDecl::StructDecl { decl_id } => de.valid_struct(decl_id),
        TyDecl::EnumDecl { decl_id } => de.valid_enum(decl_id),
        TyDecl::EnumVariantDecl { decl_id, variant_name } => de.valid_enum(decl_id),
        TyDecl::StorageDecl { decl_id } => de.valid_storage(decl_id),
        TyDecl::TypeAliasDecl { decl_id } => de.valid_type_alias(decl_id),
        TyDecl::GenericTypeForFunctionScope => true,
        TyDecl::ErrorRecovery => true,
    }
}

} // verus!
