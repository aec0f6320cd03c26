use vstd::prelude::*;
use vstd::pervasive::arbitrary;

use crate::ast::{
    TyAstNodeContent, TyCodeBlock, TyDecl, TyEnumVariant, TyExpression, TyExpressionVariant,
    TyFunctionParameter, TyImplItem, TyStorageField, TyStructField,
};
use crate::diagnostics::CompileErrorView;
use crate::engines::Engines;
use crate::type_engine::{check_type_errors, TypeEngine};

verus! {

/// The errors the placement check reports for a function's parameters, in
/// parameter order: each parameter that is not `self` has its declared type
/// checked at the span where that type was written, and no parameter's
/// failure stops the checking of the parameters after it.
pub open spec fn params_errors(te: TypeEngine, ps: Seq<TyFunctionParameter>) -> Seq<
    CompileErrorView,
>
    decreases ps.len(),
{
    if ps.len() == 0 {
        Seq::empty()
    } else {
        let head = if ps[0].is_self {
            Seq::empty()
        } else {
            check_type_errors(te, ps[0].type_argument.type_id, ps[0].type_argument.span, false)
        };
        head + params_errors(te, ps.subrange(1, ps.len() as int))
    }
}

/// The errors reported for a struct's fields, in field order: every field's
/// declared type is checked at the field's span, no failure stopping the
/// fields after it.
pub open spec fn struct_fields_errors(te: TypeEngine, fs: Seq<TyStructField>) -> Seq<
    CompileErrorView,
>
    decreases fs.len(),
{
    if fs.len() == 0 {
        Seq::empty()
    } else {
        check_type_errors(te, fs[0].type_argument.type_id, fs[0].span, false)
            + struct_fields_errors(te, fs.subrange(1, fs.len() as int))
    }
}

/// The errors reported for an enum's variants, in variant order.
pub open spec fn enum_variants_errors(te: TypeEngine, vs: Seq<TyEnumVariant>) -> Seq<
    CompileErrorView,
>
    decreases vs.len(),
{
    if vs.len() == 0 {
        Seq::empty()
    } else {
        check_type_errors(te, vs[0].type_argument.type_id, vs[0].span, false)
            + enum_variants_errors(te, vs.subrange(1, vs.len() as int))
    }
}

/// The errors reported for a storage block's fields, in field order. The
/// field's own declared type is expected to be storage-only, so the check
/// exempts types structurally equal to it; different storage-only types
/// nested inside are still violations, cited at the field name's span.
pub open spec fn storage_fields_errors(te: TypeEngine, fs: Seq<TyStorageField>) -> Seq<
    CompileErrorView,
>
    decreases fs.len(),
{
    if fs.len() == 0 {
        Seq::empty()
    } else {
        check_type_errors(te, fs[0].type_argument.type_id, fs[0].name.span, true)
            + storage_fields_errors(te, fs.subrange(1, fs.len() as int))
    }
}

/// The first variant of an enum carrying the given name, if any.
pub open spec fn find_variant(vs: Seq<TyEnumVariant>, name: Seq<char>) -> Option<TyEnumVariant>
    decreases vs.len(),
{
    if vs.len() == 0 {
        Option::None
    } else if vs[0].name.name@ == name {
        Option::Some(vs[0])
    } else {
        find_variant(vs.subrange(1, vs.len() as int), name)
    }
}

/// The body of the function at slot `id`, where that slot holds a function.
/// Serves as a termination measure for the traversal that follows handles
/// into the declaration store.
pub open spec fn fn_body_at(e: Engines, id: nat) -> TyCodeBlock {
    if e.decl_engine.valid_fn_idx(id) {
        e.decl_engine.spec_fn_at(id).body
    } else {
        arbitrary()
    }
}

/// The value expression of the constant at slot `id`, where that slot holds
/// a constant. Serves as a termination measure like `fn_body_at`.
pub open spec fn const_value_at(e: Engines, id: nat) -> Option<TyExpression> {
    if e.decl_engine.valid_const_idx(id) {
        e.decl_engine.spec_const_at(id).value
    } else {
        arbitrary()
    }
}

/// The errors reported when validating one typed expression, in the order
/// the traversal visits them. Every list position is validated in full: one
/// element's failure never hides a later element's diagnostics. `b` bounds
/// the declaration handles the expression may mention.
pub open spec fn expr_errors(e: Engines, b: nat, expr: TyExpression) -> Seq<CompileErrorView>
    decreases b, expr, 0int,
{
    match expr.expression {
        TyExpressionVariant::Literal => Seq::empty(),
        TyExpressionVariant::VariableExpression => Seq::empty(),
        TyExpressionVariant::FunctionParameter => Seq::empty(),
        TyExpressionVariant::AsmExpression => Seq::empty(),
        TyExpressionVariant::StorageAccess => Seq::empty(),
        TyExpressionVariant::AbiName => Seq::empty(),
        TyExpressionVariant::FunctionApplication { arguments } => exprs_errors(e, b, arguments@),
        TyExpressionVariant::LazyOperator { lhs, rhs } => {
            expr_errors(e, b, *lhs) + expr_errors(e, b, *rhs)
        },
        TyExpressionVariant::ArrayIndex { prefix, index } => {
            expr_errors(e, b, *prefix) + expr_errors(e, b, *index)
        },
        TyExpressionVariant::IntrinsicFunction { arguments } => exprs_errors(e, b, arguments@),
        TyExpressionVariant::Tuple { fields } => exprs_errors(e, b, fields@),
        TyExpressionVariant::Array { contents } => exprs_errors(e, b, contents@),
        TyExpressionVariant::StructExpression { field_values } => exprs_errors(e, b, field_values@),
        TyExpressionVariant::CodeBlock(cb) => block_errors(e, b, cb),
        TyExpressionVariant::MatchExp { desugared } => expr_errors(e, b, *desugared),
        TyExpressionVariant::IfExp { condition, then, else_branch } => {
            expr_errors(e, b, *condition) + expr_errors(e, b, *then) + match else_branch {
                Some(eb) => expr_errors(e, b, *eb),
                None => Seq::empty(),
            }
        },
        TyExpressionVariant::StructFieldAccess { prefix } => expr_errors(e, b, *prefix),
        TyExpressionVariant::TupleElemAccess { prefix } => expr_errors(e, b, *prefix),
        TyExpressionVariant::AbiCast { address } => expr_errors(e, b, *address),
        TyExpressionVariant::EnumTag { exp } => expr_errors(e, b, *exp),
        TyExpressionVariant::UnsafeDowncast { exp } => expr_errors(e, b, *exp),
        TyExpressionVariant::EnumInstantiation { contents } => match contents {
            Some(c) => expr_errors(e, b, *c),
            None => Seq::empty(),
        },
        TyExpressionVariant::WhileLoop { condition, body } => {
            expr_errors(e, b, *condition) + block_errors(e, b, body)
        },
        TyExpressionVariant::Break => Seq::empty(),
        TyExpressionVariant::Continue => Seq::empty(),
        TyExpressionVariant::Reassignment { lhs_base_name, rhs } => {
            check_type_errors(e.type_engine, rhs.return_type, lhs_base_name.span, false)
                + expr_errors(e, b, *rhs)
        },
        TyExpressionVariant::StorageReassignment { span, rhs } => {
            check_type_errors(e.type_engine, rhs.return_type, span, false) + expr_errors(
                e,
                b,
                *rhs,
            )
        },
        TyExpressionVariant::Return(exp) => expr_errors(e, b, *exp),
    }
}

/// The errors of a list of sibling expressions, each validated independently,
/// in order.
pub open spec fn exprs_errors(e: Engines, b: nat, s: Seq<TyExpression>) -> Seq<CompileErrorView>
    decreases b, s, 1int,
{
    if s.len() == 0 {
        Seq::empty()
    } else {
        expr_errors(e, b, s[0]) + exprs_errors(e, b, s.subrange(1, s.len() as int))
    }
}

/// The errors of a code block: every node is validated, a failing node never
/// hiding the nodes after it.
pub open spec fn block_errors(e: Engines, b: nat, cb: TyCodeBlock) -> Seq<CompileErrorView>
    decreases b, cb, 2int,
{
    nodes_errors(e, b, cb.contents@)
}

pub open spec fn nodes_errors(e: Engines, b: nat, s: Seq<TyAstNodeContent>) -> Seq<
    CompileErrorView,
>
    decreases b, s, 1int,
{
    if s.len() == 0 {
        Seq::empty()
    } else {
        node_errors(e, b, s[0]) + nodes_errors(e, b, s.subrange(1, s.len() as int))
    }
}

/// The errors of one block-level node.
pub open spec fn node_errors(e: Engines, b: nat, n: TyAstNodeContent) -> Seq<CompileErrorView>
    decreases b, n, 0int,
{
    match n {
        TyAstNodeContent::Expression(expr) => expr_errors(e, b, expr),
        TyAstNodeContent::ImplicitReturnExpression(expr) => expr_errors(e, b, expr),
        TyAstNodeContent::Declaration(d) => decl_errors(e, b, d),
        TyAstNodeContent::SideEffect => Seq::empty(),
    }
}

/// The errors of one typed declaration, per kind:
/// - a variable: its initializer's type at the variable name's span, then the
///   initializer expression;
/// - a constant or function: the out-of-line declaration it references;
/// - a trait or ABI declaration: nothing (their methods are validated through
///   the implementing impl block);
/// - an impl block: its items in order, stopping after a failing constant
///   item (a failing method item does not stop the items after it);
/// - a struct or enum: every field's or variant's declared type;
/// - an enum-variant selector: the named variant's declared type, or a
///   lookup error when the enum has no variant of that name;
/// - a storage block: every field's declared type, the field's own type
///   exempt from the check, at the field name's span;
/// - a type alias: the aliased type at the alias's span;
/// - a generic-type placeholder or error recovery: nothing.
pub open spec fn decl_errors(e: Engines, b: nat, d: TyDecl) -> Seq<CompileErrorView>
    decreases b, d, 0int,
{
    match d {
        TyDecl::VariableDecl(v) => {
            check_type_errors(e.type_engine, v.body.return_type, v.name.span, false) + expr_errors(
                e,
                b,
                v.body,
            )
        },
        TyDecl::ConstantDecl { decl_id } => {
            if decl_id.id < b && e.decl_engine.valid_const(decl_id) {
                const_errors(e, decl_id.id as nat)
            } else {
                Seq::empty()
            }
        },
        TyDecl::FunctionDecl { decl_id } => {
            if decl_id.id < b && e.decl_engine.valid_fn(decl_id) {
                fn_errors(e, decl_id.id as nat)
            } else {
                Seq::empty()
            }
        },
        TyDecl::TraitDecl => Seq::empty(),
        TyDecl::AbiDecl => Seq::empty(),
        TyDecl::ImplTrait { decl_id } => {
            if decl_id.id < b && e.decl_engine.valid_impl(decl_id) {
                impl_items_errors(e, decl_id.id as nat, e.decl_engine.spec_impl_at(decl_id).items@)
            } else {
                Seq::empty()
            }
        },
        TyDecl::StructDecl { decl_id } => {
            if e.decl_engine.valid_struct(decl_id) {
                struct_fields_errors(e.type_engine, e.decl_engine.spec_struct_at(decl_id).fields@)
            } else {
                Seq::empty()
            }
        },
        TyDecl::EnumDecl { decl_id } => {
            if e.decl_engine.valid_enum(decl_id) {
                enum_variants_errors(e.type_engine, e.decl_engine.spec_enum_at(decl_id).variants@)
            } else {
                Seq::empty()
            }
        },
        TyDecl::EnumVariantDecl { decl_id, variant_name } => {
            if e.decl_engine.valid_enum(decl_id) {
                match find_variant(
                    e.decl_engine.spec_enum_at(decl_id).variants@,
                    variant_name.name@,
                ) {
                    Some(v) => check_type_errors(e.type_engine, v.type_argument.type_id, v.span, false),
                    None => seq![
                        CompileErrorView::UnknownEnumVariant {
                            variant_name: variant_name.name@,
                            span: variant_name.span,
                        },
                    ],
                }
            } else {
                Seq::empty()
            }
        },
        TyDecl::StorageDecl { decl_id } => {
            if e.decl_engine.valid_storage(decl_id) {
                storage_fields_errors(e.type_engine, e.decl_engine.spec_storage_at(decl_id).fields@)
            } else {
                Seq::empty()
            }
        },
        TyDecl::TypeAliasDecl { decl_id } => {
            if e.decl_engine.valid_type_alias(decl_id) {
                check_type_errors(
                    e.type_engine,
                    e.decl_engine.spec_type_alias_at(decl_id).ty.type_id,
                    e.decl_engine.spec_type_alias_at(decl_id).span,
                    false,
                )
            } else {
                Seq::empty()
            }
        },
        TyDecl::GenericTypeForFunctionScope => Seq::empty(),
        TyDecl::ErrorRecovery => Seq::empty(),
    }
}

/// The errors of the function declaration at slot `id`: its body first, then
/// its non-`self` parameters in order, then its return type. A failing body
/// or parameter does not stop the checks after it; the return type is
/// structurally last, so nothing is checked beyond it.
pub open spec fn fn_errors(e: Engines, id: nat) -> Seq<CompileErrorView>
    decreases id, fn_body_at(e, id), 3int,
{
    if e.decl_engine.valid_fn_idx(id) {
        let f = e.decl_engine.spec_fn_at(id);
        block_errors(e, id, f.body) + params_errors(e.type_engine, f.parameters@)
            + check_type_errors(
            e.type_engine,
            f.return_type.type_id,
            f.return_type.span,
            false,
        )
    } else {
        Seq::empty()
    }
}

/// The errors of the constant declaration at slot `id`: when it has a value,
/// the value's type at the constant name's span, then the value expression;
/// a constant without a value contributes nothing.
pub open spec fn const_errors(e: Engines, id: nat) -> Seq<CompileErrorView>
    decreases id, const_value_at(e, id), 3int,
{
    if e.decl_engine.valid_const_idx(id) {
        let c = e.decl_engine.spec_const_at(id);
        match c.value {
            Some(expr) => {
                check_type_errors(e.type_engine, expr.return_type, c.name.span, false)
                    + expr_errors(e, id, expr)
            },
            None => Seq::empty(),
        }
    } else {
        Seq::empty()
    }
}

/// The errors of an impl block's items, in order. A method item is validated
/// like a function declaration and never stops the items after it; a failing
/// constant item is fatal: its diagnostics are kept and the remaining items
/// are not validated.
pub open spec fn impl_items_errors(e: Engines, impl_id: nat, items: Seq<TyImplItem>) -> Seq<
    CompileErrorView,
>
    decreases impl_id, items, 1int,
{
    if items.len() == 0 {
        Seq::empty()
    } else {
        match items[0] {
            TyImplItem::Fn(fid) => {
                let head = if fid.id < impl_id && e.decl_engine.valid_fn(fid) {
                    fn_errors(e, fid.id as nat)
                } else {
                    Seq::empty()
                };
                head + impl_items_errors(e, impl_id, items.subrange(1, items.len() as int))
            },
            TyImplItem::Constant(cid) => {
                let head = if cid.id < impl_id && e.decl_engine.valid_const(cid) {
                    const_errors(e, cid.id as nat)
                } else {
                    Seq::empty()
                };
                if head.len() > 0 {
                    head
                } else {
                    head + impl_items_errors(e, impl_id, items.subrange(1, items.len() as int))
                }
            },
        }
    }
}

} // verus!
