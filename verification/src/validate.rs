use vstd::prelude::*;

use crate::ast::{
    ConstDeclId, FnDeclId, TyAstNodeContent, TyCodeBlock, TyDecl, TyExpression,
    TyExpressionVariant, TyImplItem,
};
use crate::decl_engine::{
    block_refs_ok, decl_refs_ok, expr_refs_ok, exprs_refs_ok, impl_item_refs_ok, node_refs_ok,
    nodes_refs_ok,
};
use crate::diagnostics::{CompileError, CompileErrorView, CompileResult};
use crate::engines::Engines;
use crate::semantics::{
    block_errors, const_errors, const_value_at, decl_errors, enum_variants_errors, expr_errors,
    exprs_errors, find_variant, fn_body_at, fn_errors, impl_items_errors, node_errors,
    nodes_errors, params_errors, storage_fields_errors, struct_fields_errors,
};
use crate::seq_util::{lemma_skip_ends, lemma_skip_one};
use crate::span::Span;
use crate::type_engine::{check_type_errors, member_violation, member_violations, TypeId};

verus! {

/// The type-placement check: resolve `ty` to its structural description (an
/// unresolvable handle is an upstream failure already reported, so it is
/// treated as an error placeholder and contributes nothing), then flag every
/// storage-only member of its nested type set at span `span`. With
/// `ignore_self`, members structurally equal to `ty` itself are exempt: a
/// storage-block field's own type is expected to be storage-only, but a
/// different storage-only type nested inside it is still a violation.
#[verifier::loop_isolation(false)]
pub fn check_type(engines: &Engines, ty: TypeId, span: Span, ignore_self: bool) -> (res:
    CompileResult)
    requires
        engines.type_engine.wf(),
    ensures
        res.errs() == check_type_errors(engines.type_engine, ty, span, ignore_self),
        res.warnings@.len() == 0,
{
    let mut res = CompileResult::new();
    let te = &engines.type_engine;
    let info = match te.to_typeinfo(ty) {
        Some(info) => info,
        None => {
            return res;
        },
    };
    let ghost top = te.spec_entry(ty);
    let ghost s = info.nested@;
    proof {
        lemma_skip_ends(s);
    }
    let mut i: usize = 0;
    while i < info.nested.len()
        invariant
            i <= s.len(),
            res.errs() + member_violations(*te, top, s.skip(i as int), span, ignore_self)
                == member_violations(*te, top, s, span, ignore_self),
            res.warnings@.len() == 0,
        decreases s.len() - i,
    {
        let n = info.nested[i];
        let entry = &te.entries[n.id];
        let ghost pre = res.errs();
        if !(ignore_self && entry.shape == info.shape) && entry.storage_only {
            res.push_error(
                CompileError::InvalidStorageOnlyTypeDecl { ty: entry.name.clone(), span },
            );
        }
        proof {
            lemma_skip_one(s, i as int);
            assert(res.errs() =~= pre + member_violation(*te, top, s[i as int], span, ignore_self));
            assert(pre + (member_violation(*te, top, s[i as int], span, ignore_self)
                + member_violations(*te, top, s.skip(i as int + 1), span, ignore_self)) =~= (pre
                + member_violation(*te, top, s[i as int], span, ignore_self)) + member_violations(
                *te,
                top,
                s.skip(i as int + 1),
                span,
                ignore_self,
            ));
        }
        i += 1;
    }
    res
}

/// Validate a list of sibling expressions: each element is validated on its
/// own, and one element's failure never prevents validating the elements
/// after it; the diagnostics of all elements merge in order.
#[verifier::loop_isolation(false)]
fn exprs_validate(engines: &Engines, exprs: &Vec<TyExpression>, b: Ghost<nat>) -> (res:
    CompileResult)
    requires
        engines.wf(),
        exprs_refs_ok(engines.decl_engine, b@, exprs@),
    ensures
        res.errs() == exprs_errors(*engines, b@, exprs@),
        res.warnings@.len() == 0,
    decreases b@, exprs@, 4int,
{
    let mut res = CompileResult::new();
    let ghost s = exprs@;
    proof {
        lemma_skip_ends(s);
    }
    let mut i: usize = 0;
    while i < exprs.len()
        invariant
            i <= s.len(),
            res.errs() + exprs_errors(*engines, b@, s.skip(i as int)) == exprs_errors(
                *engines,
                b@,
                s,
            ),
            exprs_refs_ok(engines.decl_engine, b@, s.skip(i as int)),
            res.warnings@.len() == 0,
        decreases s.len() - i,
    {
        proof {
            lemma_skip_one(s, i as int);
        }
        let ghost pre = res.errs();
        let sub = expr_validate(engines, &exprs[i], b);
        res.merge(sub);
        proof {
            assert(res.errs() + exprs_errors(*engines, b@, s.skip(i as int + 1)) =~= pre
                + exprs_errors(*engines, b@, s.skip(i as int)));
        }
        i += 1;
    }
    res
}

/// Validate one typed expression: dispatch on its kind, check every
/// type-introducing position through the type-placement check, and recurse
/// into every sub-expression and code block, merging all diagnostics.
fn expr_validate(engines: &Engines, expr: &TyExpression, b: Ghost<nat>) -> (res: CompileResult)
    requires
        engines.wf(),
        expr_refs_ok(engines.decl_engine, b@, *expr),
    ensures
        res.errs() == expr_errors(*engines, b@, *expr),
        res.warnings@.len() == 0,
    decreases b@, *expr, 0int,
{
    match &expr.expression {
        TyExpressionVariant::Literal
        | TyExpressionVariant::VariableExpression
        | TyExpressionVariant::FunctionParameter
        | TyExpressionVariant::AsmExpression
        | TyExpressionVariant::StorageAccess
        | TyExpressionVariant::AbiName => CompileResult::new(),
        TyExpressionVariant::FunctionApplication { arguments } => {
            exprs_validate(engines, arguments, b)
        },
        TyExpressionVariant::LazyOperator { lhs, rhs } => {
            let mut res = expr_validate(engines, lhs, b);
            let sub = expr_validate(engines, rhs, b);
            res.merge(sub);
            res
        },
        TyExpressionVariant::ArrayIndex { prefix, index } => {
            let mut res = expr_validate(engines, prefix, b);
            let sub = expr_validate(engines, index, b);
            res.merge(sub);
            res
        },
        TyExpressionVariant::IntrinsicFunction { arguments } => {
            exprs_validate(engines, arguments, b)
        },
        TyExpressionVariant::Tuple { fields } => exprs_validate(engines, fields, b),
        TyExpressionVariant::Array { contents } => exprs_validate(engines, contents, b),
        TyExpressionVariant::StructExpression { field_values } => {
            exprs_validate(engines, field_values, b)
        },
        TyExpressionVariant::CodeBlock(cb) => codeblock_validate(engines, cb, b),
        TyExpressionVariant::MatchExp { desugared } => expr_validate(engines, desugared, b),
        TyExpressionVariant::IfExp { condition, then, else_branch } => {
            let mut res = expr_validate(engines, condition, b);
            let sub = expr_validate(engines, then, b);
            res.merge(sub);
            match else_branch {
                Some(eb) => {
                    let sub2 = expr_validate(engines, eb, b);
                    res.merge(sub2);
                },
                None => {
                    proof {
                        assert(res.errs() =~= res.errs() + Seq::<CompileErrorView>::empty());
                    }
                },
            }
            res
        },
        TyExpressionVariant::StructFieldAccess { prefix } => expr_validate(engines, prefix, b),
        TyExpressionVariant::TupleElemAccess { prefix } => expr_validate(engines, prefix, b),
        TyExpressionVariant::AbiCast { address } => expr_validate(engines, address, b),
        TyExpressionVariant::EnumTag { exp } => expr_validate(engines, exp, b),
        TyExpressionVariant::UnsafeDowncast { exp } => expr_validate(engines, exp, b),
        TyExpressionVariant::EnumInstantiation { contents } => {
            match contents {
                Some(c) => expr_validate(engines, c, b),
                None => CompileResult::new(),
            }
        },
        TyExpressionVariant::WhileLoop { condition, body } => {
            let mut res = expr_validate(engines, condition, b);
            let sub = codeblock_validate(engines, body, b);
            res.merge(sub);
            res
        },
        TyExpressionVariant::Break => CompileResult::new(),
        TyExpressionVariant::Continue => CompileResult::new(),
        TyExpressionVariant::Reassignment { lhs_base_name, rhs } => {
            let mut res = check_type(engines, rhs.return_type, lhs_base_name.span, false);
            let sub = expr_validate(engines, rhs, b);
            res.merge(sub);
            res
        },
        TyExpressionVariant::StorageReassignment { span, rhs } => {
            let mut res = check_type(engines, rhs.return_type, *span, false);
            let sub = expr_validate(engines, rhs, b);
            res.merge(sub);
            res
        },
        TyExpressionVariant::Return(exp) => expr_validate(engines, exp, b),
    }
}

/// Validate every node of a code block in order, merging all diagnostics;
/// one node's failure never prevents validating the nodes after it.
#[verifier::loop_isolation(false)]
fn codeblock_validate(engines: &Engines, cb: &TyCodeBlock, b: Ghost<nat>) -> (res: CompileResult)
    requires
        engines.wf(),
        block_refs_ok(engines.decl_engine, b@, *cb),
    ensures
        res.errs() == block_errors(*engines, b@, *cb),
        res.warnings@.len() == 0,
    decreases b@, *cb, 2int,
{
    let mut res = CompileResult::new();
    let ghost s = cb.contents@;
    proof {
        lemma_skip_ends(s);
    }
    let mut i: usize = 0;
    while i < cb.contents.len()
        invariant
            i <= s.len(),
            res.errs() + nodes_errors(*engines, b@, s.skip(i as int)) == nodes_errors(
                *engines,
                b@,
                s,
            ),
            nodes_refs_ok(engines.decl_engine, b@, s.skip(i as int)),
            res.warnings@.len() == 0,
        decreases s.len() - i,
    {
        proof {
            lemma_skip_one(s, i as int);
        }
        let ghost pre = res.errs();
        let sub = ast_node_validate(engines, &cb.contents[i], b);
        res.merge(sub);
        proof {
            assert(res.errs() + nodes_errors(*engines, b@, s.skip(i as int + 1)) =~= pre
                + nodes_errors(*engines, b@, s.skip(i as int)));
        }
        i += 1;
    }
    res
}

/// Validate one block-level node by dispatching to the expression or
/// declaration validator; a side-effect marker trivially succeeds.
fn ast_node_validate(engines: &Engines, node: &TyAstNodeContent, b: Ghost<nat>) -> (res:
    CompileResult)
    requires
        engines.wf(),
        node_refs_ok(engines.decl_engine, b@, *node),
    ensures
        res.errs() == node_errors(*engines, b@, *node),
        res.warnings@.len() == 0,
    decreases b@, *node, 1int,
{
    match node {
        TyAstNodeContent::Expression(expr) => expr_validate(engines, expr, b),
        TyAstNodeContent::ImplicitReturnExpression(expr) => expr_validate(engines, expr, b),
        TyAstNodeContent::Declaration(decl) => decl_validate(engines, decl, b),
        TyAstNodeContent::SideEffect => CompileResult::new(),
    }
}

/// Validate one typed declaration, dispatching per kind with the fatality
/// policy the pass observes: list contexts (struct fields, enum variants,
/// storage fields, impl method items) continue past a failing element; a
/// failing associated constant of an impl block and a missing enum variant
/// are fatal to that declaration's validation.
#[verifier::loop_isolation(false)]
fn decl_validate(engines: &Engines, decl: &TyDecl, b: Ghost<nat>) -> (res: CompileResult)
    requires
        engines.wf(),
        decl_refs_ok(engines.decl_engine, b@, *decl),
    ensures
        res.errs() == decl_errors(*engines, b@, *decl),
        res.warnings@.len() == 0,
    decreases b@, *decl, 0int,
{
    match decl {
        TyDecl::VariableDecl(v) => {
            let mut res = check_type(engines, v.body.return_type, v.name.span, false);
            let sub = expr_validate(engines, &v.body, b);
            res.merge(sub);
            res
        },
        TyDecl::ConstantDecl { decl_id } => validate_const_decl(engines, *decl_id),
        TyDecl::FunctionDecl { decl_id } => validate_fn_decl(engines, *decl_id),
        TyDecl::TraitDecl | TyDecl::AbiDecl => {
            // These methods are not typed; they are validated through the
            // implementing impl block.
            CompileResult::new()
        },
        TyDecl::ImplTrait { decl_id } => {
            let im = engines.decl_engine.get_impl_trait(*decl_id);
            let ghost impl_id = decl_id.id as nat;
            proof {
                assert(engines.decl_engine.slot_wf(decl_id.id as int));
            }
            let ghost s = im.items@;
            proof {
                lemma_skip_ends(s);
            }
            let mut res = CompileResult::new();
            let mut k: usize = 0;
            while k < im.items.len()
                invariant
                    k <= s.len(),
                    res.errs() + impl_items_errors(*engines, impl_id, s.skip(k as int))
                        == impl_items_errors(*engines, impl_id, s),
                    res.warnings@.len() == 0,
                decreases s.len() - k,
            {
                proof {
                    lemma_skip_one(s, k as int);
                    assert(impl_item_refs_ok(engines.decl_engine, impl_id, s[k as int]));
                }
                let ghost pre = res.errs();
                match &im.items[k] {
                    TyImplItem::Fn(fid) => {
                        let sub = validate_fn_decl(engines, *fid);
                        res.merge(sub);
                        proof {
                            assert(res.errs() + impl_items_errors(
                                *engines,
                                impl_id,
                                s.skip(k as int + 1),
                            ) =~= pre + impl_items_errors(*engines, impl_id, s.skip(k as int)));
                        }
                    },
                    TyImplItem::Constant(cid) => {
                        let sub = validate_const_decl(engines, *cid);
                        let failed = !sub.is_ok();
                        res.merge(sub);
                        if failed {
                            // A failing associated constant is fatal to this
                            // impl block: the remaining items stay unvalidated.
                            proof {
                                assert(res.errs() =~= impl_items_errors(*engines, impl_id, s));
                            }
                            return res;
                        }
                        proof {
                            assert(res.errs() + impl_items_errors(
                                *engines,
                                impl_id,
                                s.skip(k as int + 1),
                            ) =~= pre + impl_items_errors(*engines, impl_id, s.skip(k as int)));
                        }
                    },
                }
                k += 1;
            }
            res
        },
        TyDecl::StructDecl { decl_id } => {
            let sd = engines.decl_engine.get_struct(*decl_id);
            let ghost s = sd.fields@;
            proof {
                lemma_skip_ends(s);
            }
            let mut res = CompileResult::new();
            let mut k: usize = 0;
            while k < sd.fields.len()
                invariant
                    k <= s.len(),
                    res.errs() + struct_fields_errors(engines.type_engine, s.skip(k as int))
                        == struct_fields_errors(engines.type_engine, s),
                    res.warnings@.len() == 0,
                decreases s.len() - k,
            {
                proof {
                    lemma_skip_one(s, k as int);
                }
                let ghost pre = res.errs();
                let f = &sd.fields[k];
                let sub = check_type(engines, f.type_argument.type_id, f.span, false);
                res.merge(sub);
                proof {
                    assert(res.errs() + struct_fields_errors(
                        engines.type_engine,
                        s.skip(k as int + 1),
                    ) =~= pre + struct_fields_errors(engines.type_engine, s.skip(k as int)));
                }
                k += 1;
            }
            res
        },
        TyDecl::EnumDecl { decl_id } => {
            let ed = engines.decl_engine.get_enum(*decl_id);
            let ghost s = ed.variants@;
            proof {
                lemma_skip_ends(s);
            }
            let mut res = CompileResult::new();
            let mut k: usize = 0;
            while k < ed.variants.len()
                invariant
                    k <= s.len(),
                    res.errs() + enum_variants_errors(engines.type_engine, s.skip(k as int))
                        == enum_variants_errors(engines.type_engine, s),
                    res.warnings@.len() == 0,
                decreases s.len() - k,
            {
                proof {
                    lemma_skip_one(s, k as int);
                }
                let ghost pre = res.errs();
                let v = &ed.variants[k];
                let sub = check_type(engines, v.type_argument.type_id, v.span, false);
                res.merge(sub);
                proof {
                    assert(res.errs() + enum_variants_errors(
                        engines.type_engine,
                        s.skip(k as int + 1),
                    ) =~= pre + enum_variants_errors(engines.type_engine, s.skip(k as int)));
                }
                k += 1;
            }
            res
        },
        TyDecl::EnumVariantDecl { decl_id, variant_name } => {
            let ed = engines.decl_engine.get_enum(*decl_id);
            let ghost s = ed.variants@;
            let ghost target = variant_name.name@;
            proof {
                lemma_skip_ends(s);
            }
            let mut k: usize = 0;
            while k < ed.variants.len()
                invariant
                    k <= s.len(),
                    find_variant(s.skip(k as int), target) == find_variant(s, target),
                decreases s.len() - k,
            {
                proof {
                    lemma_skip_one(s, k as int);
                }
                if ed.variants[k].name.name == variant_name.name {
                    let v = &ed.variants[k];
                    proof {
                        assert(find_variant(s, target) == Option::Some(s[k as int]));
                    }
                    let res = check_type(engines, v.type_argument.type_id, v.span, false);
                    return res;
                }
                k += 1;
            }
            // The selector names a variant its enum does not have: fatal to
            // this declaration's validation.
            let mut res = CompileResult::new();
            res.push_error(
                CompileError::UnknownEnumVariant {
                    variant_name: variant_name.name.clone(),
                    span: variant_name.span,
                },
            );
            proof {
                assert(res.errs() =~= seq![
                    CompileErrorView::UnknownEnumVariant { variant_name: target, span: variant_name.span },
                ]);
            }
            res
        },
        TyDecl::StorageDecl { decl_id } => {
            let sd = engines.decl_engine.get_storage(*decl_id);
            let ghost s = sd.fields@;
            proof {
                lemma_skip_ends(s);
            }
            let mut res = CompileResult::new();
            let mut k: usize = 0;
            while k < sd.fields.len()
                invariant
                    k <= s.len(),
                    res.errs() + storage_fields_errors(engines.type_engine, s.skip(k as int))
                        == storage_fields_errors(engines.type_engine, s),
                    res.warnings@.len() == 0,
                decreases s.len() - k,
            {
                proof {
                    lemma_skip_one(s, k as int);
                }
                let ghost pre = res.errs();
                let f = &sd.fields[k];
                // The field's own declared type is expected to be
                // storage-only: it is exempt, different nested storage-only
                // types are not.
                let sub = check_type(engines, f.type_argument.type_id, f.name.span, true);
                res.merge(sub);
                proof {
                    assert(res.errs() + storage_fields_errors(
                        engines.type_engine,
                        s.skip(k as int + 1),
                    ) =~= pre + storage_fields_errors(engines.type_engine, s.skip(k as int)));
                }
                k += 1;
            }
            res
        },
        TyDecl::TypeAliasDecl { decl_id } => {
            let alias = engines.decl_engine.get_type_alias(*decl_id);
            check_type(engines, alias.ty.type_id, alias.span, false)
        },
        TyDecl::GenericTypeForFunctionScope | TyDecl::ErrorRecovery => CompileResult::new(),
    }
}

/// Validate the function declaration behind a handle: the body first, then
/// every non-`self` parameter's declared type (a failing parameter does not
/// stop the parameters after it), then the return type. The return type is
/// checked last and a violation there is fatal, so the declaration's
/// validation ends with everything collected up to that point.
#[verifier::loop_isolation(false)]
pub fn validate_fn_decl(engines: &Engines, decl_id: FnDeclId) -> (res: CompileResult)
    requires
        engines.wf(),
        engines.decl_engine.valid_fn(decl_id),
    ensures
        res.errs() == fn_errors(*engines, decl_id.id as nat),
        res.warnings@.len() == 0,
    decreases decl_id.id as int, fn_body_at(*engines, decl_id.id as nat), 3int,
{
    let f = engines.decl_engine.get_function(decl_id);
    proof {
        assert(engines.decl_engine.slot_wf(decl_id.id as int));
    }
    let mut res = codeblock_validate(engines, &f.body, Ghost(decl_id.id as nat));
    let ghost body_errs = res.errs();
    let ghost ps = f.parameters@;
    proof {
        lemma_skip_ends(ps);
    }
    let mut k: usize = 0;
    while k < f.parameters.len()
        invariant
            k <= ps.len(),
            res.errs() + params_errors(engines.type_engine, ps.skip(k as int)) == body_errs
                + params_errors(engines.type_engine, ps),
            res.warnings@.len() == 0,
        decreases ps.len() - k,
    {
        proof {
            lemma_skip_one(ps, k as int);
        }
        let ghost pre = res.errs();
        let p = &f.parameters[k];
        if !p.is_self {
            let sub = check_type(engines, p.type_argument.type_id, p.type_argument.span, false);
            res.merge(sub);
        }
        proof {
            assert(res.errs() + params_errors(engines.type_engine, ps.skip(k as int + 1)) =~= pre
                + params_errors(engines.type_engine, ps.skip(k as int)));
        }
        k += 1;
    }
    let sub = check_type(engines, f.return_type.type_id, f.return_type.span, false);
    res.merge(sub);
    proof {
        assert(res.errs() =~= fn_errors(*engines, decl_id.id as nat));
    }
    res
}

/// Validate the constant declaration behind a handle: when it has a value,
/// the value's type is checked at the constant name's span and the value
/// expression is validated; a constant without a value succeeds.
pub fn validate_const_decl(engines: &Engines, decl_id: ConstDeclId) -> (res: CompileResult)
    requires
        engines.wf(),
        engines.decl_engine.valid_const(decl_id),
    ensures
        res.errs() == const_errors(*engines, decl_id.id as nat),
        res.warnings@.len() == 0,
    decreases decl_id.id as int, const_value_at(*engines, decl_id.id as nat), 3int,
{
    let c = engines.decl_engine.get_constant(decl_id);
    proof {
        assert(engines.decl_engine.slot_wf(decl_id.id as int));
    }
    match &c.value {
        Some(expr) => {
            let mut res = check_type(engines, expr.return_type, c.name.span, false);
            let sub = expr_validate(engines, expr, Ghost(decl_id.id as nat));
            res.merge(sub);
            res
        },
        None => CompileResult::new(),
    }
}

/// Validate a single top-level block-level node of the typed AST: the entry
/// point the surrounding pipeline calls once per top-level node.
pub fn validate_decls_for_storage_only_types_in_ast(engines: &Engines, ast_n: &TyAstNodeContent) -> (res:
    CompileResult)
    requires
        engines.wf(),
        node_refs_ok(engines.decl_engine, engines.decl_engine.bound(), *ast_n),
    ensures
        res.errs() == node_errors(*engines, engines.decl_engine.bound(), *ast_n),
        res.warnings@.len() == 0,
{
    ast_node_validate(engines, ast_n, Ghost(engines.decl_engine.bound()))
}

/// Validate an entire code block: every node in order, one node's failure
/// never preventing validation of the nodes after it.
pub fn validate_decls_for_storage_only_types_in_codeblock(engines: &Engines, cb: &TyCodeBlock) -> (res:
    CompileResult)
    requires
        engines.wf(),
        block_refs_ok(engines.decl_engine, engines.decl_engine.bound(), *cb),
    ensures
        res.errs() == block_errors(*engines, engines.decl_engine.bound(), *cb),
        res.warnings@.len() == 0,
{
    codeblock_validate(engines, cb, Ghost(engines.decl_engine.bound()))
}

} // verus!
