use storage_only_types::ast::{
    ConstDeclId, EnumDeclId, FnDeclId, ImplDeclId, StorageDeclId, StructDeclId, TyAstNodeContent,
    TyCodeBlock, TyConstantDecl, TyDecl, TyEnumDecl, TyEnumVariant, TyExpression,
    TyExpressionVariant, TyFunctionDecl, TyFunctionParameter, TyImplItem, TyImplTrait,
    TyStorageDecl, TyStorageField, TyStructDecl, TyStructField, TyTypeAliasDecl, TyVariableDecl,
    TypeAliasDeclId, TypeArgument,
};
use storage_only_types::decl_engine::{DeclEngine, Declaration};
use storage_only_types::diagnostics::CompileError;
use storage_only_types::engines::Engines;
use storage_only_types::span::{Ident, Span};
use storage_only_types::type_engine::{TypeEngine, TypeEntry, TypeId};
use storage_only_types::validate::{
    check_type, validate_const_decl, validate_decls_for_storage_only_types_in_ast,
    validate_decls_for_storage_only_types_in_codeblock, validate_fn_decl,
};

const STORAGE_MAP: TypeId = TypeId { id: 0 };
const BOOL_T: TypeId = TypeId { id: 1 };
const U64_T: TypeId = TypeId { id: 2 };
const STORAGE_VEC: TypeId = TypeId { id: 3 };
const STORAGE_MAP_NESTED: TypeId = TypeId { id: 4 };
const ADDRESS_T: TypeId = TypeId { id: 5 };
const STORAGE_BOX_OUTER: TypeId = TypeId { id: 6 };
const STORAGE_BOX_INNER: TypeId = TypeId { id: 7 };

fn sp(start: usize, end: usize) -> Span {
    Span { start, end }
}

fn ident(name: &str, start: usize, end: usize) -> Ident {
    Ident { name: name.to_string(), span: sp(start, end) }
}

fn entry(name: &str, shape: usize, storage_only: bool, nested: Vec<TypeId>) -> TypeEntry {
    TypeEntry { name: name.to_string(), shape, storage_only, nested }
}

fn base_type_engine() -> TypeEngine {
    TypeEngine {
        entries: vec![
            entry("StorageMap<u64, u64>", 0, true, vec![STORAGE_MAP]),
            entry("bool", 1, false, vec![BOOL_T]),
            entry("u64", 2, false, vec![U64_T]),
            entry("StorageVec<u64>", 3, true, vec![STORAGE_VEC]),
            entry(
                "StorageMap<Address, StorageVec<u64>>",
                4,
                true,
                vec![STORAGE_MAP_NESTED, STORAGE_VEC],
            ),
            entry("Address", 5, false, vec![ADDRESS_T]),
            entry("StorageBox<u64>", 6, true, vec![STORAGE_BOX_OUTER, STORAGE_BOX_INNER]),
            entry("StorageBox<u64>", 6, true, vec![STORAGE_BOX_INNER]),
        ],
    }
}

fn engines_with(decls: Vec<Declaration>) -> Engines {
    Engines { type_engine: base_type_engine(), decl_engine: DeclEngine { decls } }
}

fn lit(t: TypeId) -> TyExpression {
    TyExpression { expression: TyExpressionVariant::Literal, return_type: t }
}

fn ta(t: TypeId, start: usize, end: usize) -> TypeArgument {
    TypeArgument { type_id: t, span: sp(start, end) }
}

fn param(t: TypeId, start: usize, end: usize) -> TyFunctionParameter {
    TyFunctionParameter { is_self: false, type_argument: ta(t, start, end) }
}

fn storage_err(name: &str, start: usize, end: usize) -> CompileError {
    CompileError::InvalidStorageOnlyTypeDecl { ty: name.to_string(), span: sp(start, end) }
}

fn var_decl_node(name: &str, start: usize, end: usize, body: TyExpression) -> TyAstNodeContent {
    TyAstNodeContent::Declaration(TyDecl::VariableDecl(Box::new(TyVariableDecl {
        name: ident(name, start, end),
        body,
    })))
}

fn fn_decl(body_nodes: Vec<TyAstNodeContent>, params: Vec<TyFunctionParameter>, ret: TypeArgument) -> Declaration {
    Declaration::Function(TyFunctionDecl {
        body: TyCodeBlock { contents: body_nodes },
        parameters: params,
        return_type: ret,
    })
}

// `fn foo(x: StorageMap<u64,u64>) -> bool { true }`: exactly one error citing
// the storage map at the parameter's type span; the clean body and return
// type add nothing.
#[test]
fn fn_storage_param_one_error() {
    let engines = engines_with(vec![fn_decl(
        vec![TyAstNodeContent::ImplicitReturnExpression(lit(BOOL_T))],
        vec![param(STORAGE_MAP, 10, 30)],
        ta(BOOL_T, 40, 44),
    )]);
    let res = validate_fn_decl(&engines, FnDeclId { id: 0 });
    assert_eq!(res.errors, vec![storage_err("StorageMap<u64, u64>", 10, 30)]);
    assert!(res.warnings.is_empty());
    assert!(!res.is_ok());
}

// Two storage-only parameters: one violation per parameter, in order — no
// early abort on the first failing parameter.
#[test]
fn fn_two_storage_params_both_reported() {
    let engines = engines_with(vec![fn_decl(
        vec![TyAstNodeContent::ImplicitReturnExpression(lit(BOOL_T))],
        vec![param(STORAGE_MAP, 10, 20), param(STORAGE_VEC, 22, 32)],
        ta(BOOL_T, 40, 44),
    )]);
    let res = validate_fn_decl(&engines, FnDeclId { id: 0 });
    assert_eq!(
        res.errors,
        vec![
            storage_err("StorageMap<u64, u64>", 10, 20),
            storage_err("StorageVec<u64>", 22, 32),
        ]
    );
}

// A `self` parameter is exempt from the check.
#[test]
fn fn_self_param_exempt() {
    let engines = engines_with(vec![fn_decl(
        vec![],
        vec![TyFunctionParameter { is_self: true, type_argument: ta(STORAGE_MAP, 1, 2) }],
        ta(U64_T, 5, 8),
    )]);
    let res = validate_fn_decl(&engines, FnDeclId { id: 0 });
    assert!(res.is_ok());
    assert!(res.errors.is_empty());
}

// `storage { balances: StorageMap<Address,u64> }`: zero diagnostics — the
// field's own storage-only type is exactly where it belongs.
#[test]
fn storage_block_field_clean() {
    let engines = engines_with(vec![Declaration::Storage(TyStorageDecl {
        fields: vec![TyStorageField {
            name: ident("balances", 5, 13),
            type_argument: ta(STORAGE_MAP, 15, 40),
        }],
    })]);
    let node = TyAstNodeContent::Declaration(TyDecl::StorageDecl {
        decl_id: StorageDeclId { id: 0 },
    });
    let res = validate_decls_for_storage_only_types_in_ast(&engines, &node);
    assert!(res.is_ok());
    assert!(res.errors.is_empty());
    assert!(res.warnings.is_empty());
}

// A storage field whose type structurally contains a different storage-only
// type: no violation for the field's own type, exactly one for the nested
// one, cited at the field name's span.
#[test]
fn storage_field_nested_storage_type_reported() {
    let engines = engines_with(vec![Declaration::Storage(TyStorageDecl {
        fields: vec![TyStorageField {
            name: ident("vaults", 5, 11),
            type_argument: ta(STORAGE_MAP_NESTED, 13, 50),
        }],
    })]);
    let node = TyAstNodeContent::Declaration(TyDecl::StorageDecl {
        decl_id: StorageDeclId { id: 0 },
    });
    let res = validate_decls_for_storage_only_types_in_ast(&engines, &node);
    assert_eq!(res.errors, vec![storage_err("StorageVec<u64>", 5, 11)]);
}

// The storage-field exemption is structural, not by handle: a nested member
// that is a different handle of the same resolved shape as the field's own
// type is exempt too.
#[test]
fn storage_field_structurally_equal_member_exempt() {
    let engines = engines_with(vec![Declaration::Storage(TyStorageDecl {
        fields: vec![TyStorageField {
            name: ident("boxed", 3, 8),
            type_argument: ta(STORAGE_BOX_OUTER, 10, 25),
        }],
    })]);
    let node = TyAstNodeContent::Declaration(TyDecl::StorageDecl {
        decl_id: StorageDeclId { id: 0 },
    });
    let res = validate_decls_for_storage_only_types_in_ast(&engines, &node);
    assert!(res.is_ok());
    assert!(res.errors.is_empty());
}

// `struct Wrapper { m: StorageMap<u64,u64> }`: one error citing `m`'s span.
#[test]
fn struct_wrapper_field_reported() {
    let engines = engines_with(vec![Declaration::Struct(TyStructDecl {
        fields: vec![TyStructField { span: sp(20, 21), type_argument: ta(STORAGE_MAP, 23, 43) }],
    })]);
    let node = TyAstNodeContent::Declaration(TyDecl::StructDecl {
        decl_id: StructDeclId { id: 0 },
    });
    let res = validate_decls_for_storage_only_types_in_ast(&engines, &node);
    assert_eq!(res.errors, vec![storage_err("StorageMap<u64, u64>", 20, 21)]);
}

// A struct with no offending member returns success with zero diagnostics;
// one violation per offending enum variant otherwise.
#[test]
fn struct_clean_and_enum_offending() {
    let engines = engines_with(vec![
        Declaration::Struct(TyStructDecl {
            fields: vec![
                TyStructField { span: sp(1, 2), type_argument: ta(BOOL_T, 3, 7) },
                TyStructField { span: sp(8, 9), type_argument: ta(U64_T, 10, 13) },
            ],
        }),
        Declaration::Enum(TyEnumDecl {
            variants: vec![
                TyEnumVariant {
                    name: ident("A", 30, 31),
                    span: sp(30, 31),
                    type_argument: ta(STORAGE_MAP, 33, 53),
                },
                TyEnumVariant {
                    name: ident("B", 55, 56),
                    span: sp(55, 56),
                    type_argument: ta(STORAGE_VEC, 58, 73),
                },
            ],
        }),
    ]);
    let clean = validate_decls_for_storage_only_types_in_ast(
        &engines,
        &TyAstNodeContent::Declaration(TyDecl::StructDecl { decl_id: StructDeclId { id: 0 } }),
    );
    assert!(clean.is_ok());
    assert!(clean.errors.is_empty());
    let offending = validate_decls_for_storage_only_types_in_ast(
        &engines,
        &TyAstNodeContent::Declaration(TyDecl::EnumDecl { decl_id: EnumDeclId { id: 1 } }),
    );
    assert_eq!(
        offending.errors,
        vec![
            storage_err("StorageMap<u64, u64>", 30, 31),
            storage_err("StorageVec<u64>", 55, 56),
        ]
    );
}

// `let x: StorageMap<u64,u64> = ...;` inside a function body: one error at
// `x`'s declaration span.
#[test]
fn let_storage_type_in_body_reported() {
    let engines = engines_with(vec![fn_decl(
        vec![var_decl_node("x", 12, 13, lit(STORAGE_MAP))],
        vec![],
        ta(BOOL_T, 40, 44),
    )]);
    let res = validate_fn_decl(&engines, FnDeclId { id: 0 });
    assert_eq!(res.errors, vec![storage_err("StorageMap<u64, u64>", 12, 13)]);
}

// `fn foo() -> StorageMap<u64,u64> { ... }`: exactly one error at the
// return-type span, after the diagnostics already collected from the body —
// and nothing reported beyond it.
#[test]
fn return_type_fatal_keeps_body_diagnostics() {
    let engines = engines_with(vec![fn_decl(
        vec![var_decl_node("x", 12, 13, lit(STORAGE_VEC))],
        vec![],
        ta(STORAGE_MAP, 40, 60),
    )]);
    let res = validate_fn_decl(&engines, FnDeclId { id: 0 });
    assert_eq!(
        res.errors,
        vec![
            storage_err("StorageVec<u64>", 12, 13),
            storage_err("StorageMap<u64, u64>", 40, 60),
        ]
    );
}

// Re-running validation over the same typed AST and collaborator state gives
// identical diagnostic output.
#[test]
fn rerun_is_idempotent() {
    let engines = engines_with(vec![fn_decl(
        vec![var_decl_node("x", 12, 13, lit(STORAGE_VEC))],
        vec![param(STORAGE_MAP, 10, 20)],
        ta(STORAGE_MAP, 40, 60),
    )]);
    let first = validate_fn_decl(&engines, FnDeclId { id: 0 });
    let second = validate_fn_decl(&engines, FnDeclId { id: 0 });
    assert_eq!(first, second);
}

// An enum-variant selector that names a missing variant: the lookup failure
// is reported and is fatal to that declaration's validation.
#[test]
fn unknown_enum_variant_reported() {
    let engines = engines_with(vec![Declaration::Enum(TyEnumDecl {
        variants: vec![TyEnumVariant {
            name: ident("A", 30, 31),
            span: sp(30, 31),
            type_argument: ta(STORAGE_MAP, 33, 53),
        }],
    })]);
    let node = TyAstNodeContent::Declaration(TyDecl::EnumVariantDecl {
        decl_id: EnumDeclId { id: 0 },
        variant_name: ident("B", 70, 71),
    });
    let res = validate_decls_for_storage_only_types_in_ast(&engines, &node);
    assert_eq!(
        res.errors,
        vec![CompileError::UnknownEnumVariant { variant_name: "B".to_string(), span: sp(70, 71) }]
    );
}

// An enum-variant selector that resolves: the named variant's declared type
// is checked at the variant's span.
#[test]
fn enum_variant_selector_checks_type() {
    let engines = engines_with(vec![Declaration::Enum(TyEnumDecl {
        variants: vec![
            TyEnumVariant {
                name: ident("A", 30, 31),
                span: sp(30, 31),
                type_argument: ta(BOOL_T, 33, 37),
            },
            TyEnumVariant {
                name: ident("B", 40, 41),
                span: sp(40, 41),
                type_argument: ta(STORAGE_MAP, 43, 63),
            },
        ],
    })]);
    let node = TyAstNodeContent::Declaration(TyDecl::EnumVariantDecl {
        decl_id: EnumDeclId { id: 0 },
        variant_name: ident("B", 70, 71),
    });
    let res = validate_decls_for_storage_only_types_in_ast(&engines, &node);
    assert_eq!(res.errors, vec![storage_err("StorageMap<u64, u64>", 40, 41)]);
}

// A failing associated constant is fatal to its impl block: items after it
// stay unvalidated, while a failing method item does not stop the walk.
#[test]
fn impl_constant_failure_stops_later_items() {
    let engines = engines_with(vec![
        fn_decl(vec![], vec![param(STORAGE_MAP, 1, 5)], ta(BOOL_T, 6, 10)),
        Declaration::Constant(TyConstantDecl {
            name: ident("C", 20, 21),
            value: Some(lit(STORAGE_VEC)),
        }),
        fn_decl(vec![], vec![param(STORAGE_MAP, 50, 55)], ta(BOOL_T, 56, 60)),
        Declaration::ImplTrait(TyImplTrait {
            items: vec![
                TyImplItem::Fn(FnDeclId { id: 0 }),
                TyImplItem::Constant(ConstDeclId { id: 1 }),
                TyImplItem::Fn(FnDeclId { id: 2 }),
            ],
        }),
    ]);
    let node = TyAstNodeContent::Declaration(TyDecl::ImplTrait { decl_id: ImplDeclId { id: 3 } });
    let res = validate_decls_for_storage_only_types_in_ast(&engines, &node);
    assert_eq!(
        res.errors,
        vec![
            storage_err("StorageMap<u64, u64>", 1, 5),
            storage_err("StorageVec<u64>", 20, 21),
        ]
    );
}

// Both method items of an impl block are validated even when the first fails.
#[test]
fn impl_fn_failure_continues() {
    let engines = engines_with(vec![
        fn_decl(vec![], vec![param(STORAGE_MAP, 1, 5)], ta(BOOL_T, 6, 10)),
        fn_decl(vec![], vec![param(STORAGE_VEC, 50, 55)], ta(BOOL_T, 56, 60)),
        Declaration::ImplTrait(TyImplTrait {
            items: vec![TyImplItem::Fn(FnDeclId { id: 0 }), TyImplItem::Fn(FnDeclId { id: 1 })],
        }),
    ]);
    let node = TyAstNodeContent::Declaration(TyDecl::ImplTrait { decl_id: ImplDeclId { id: 2 } });
    let res = validate_decls_for_storage_only_types_in_ast(&engines, &node);
    assert_eq!(
        res.errors,
        vec![
            storage_err("StorageMap<u64, u64>", 1, 5),
            storage_err("StorageVec<u64>", 50, 55),
        ]
    );
}

// A reassignment checks the right-hand side's type at the left-hand target's
// span before validating the right-hand expression.
#[test]
fn reassignment_checks_rhs_type_at_lhs_span() {
    let engines = engines_with(vec![]);
    let node = TyAstNodeContent::Expression(TyExpression {
        expression: TyExpressionVariant::Reassignment {
            lhs_base_name: ident("x", 3, 4),
            rhs: Box::new(lit(STORAGE_MAP)),
        },
        return_type: BOOL_T,
    });
    let res = validate_decls_for_storage_only_types_in_ast(&engines, &node);
    assert_eq!(res.errors, vec![storage_err("StorageMap<u64, u64>", 3, 4)]);
}

// A storage reassignment checks the right-hand side's type at the
// reassignment's own span.
#[test]
fn storage_reassignment_checked_at_own_span() {
    let engines = engines_with(vec![]);
    let node = TyAstNodeContent::Expression(TyExpression {
        expression: TyExpressionVariant::StorageReassignment {
            span: sp(100, 120),
            rhs: Box::new(lit(STORAGE_VEC)),
        },
        return_type: BOOL_T,
    });
    let res = validate_decls_for_storage_only_types_in_ast(&engines, &node);
    assert_eq!(res.errors, vec![storage_err("StorageVec<u64>", 100, 120)]);
}

// A while loop's condition and body are both walked.
#[test]
fn while_loop_body_checked() {
    let engines = engines_with(vec![]);
    let node = TyAstNodeContent::Expression(TyExpression {
        expression: TyExpressionVariant::WhileLoop {
            condition: Box::new(lit(BOOL_T)),
            body: TyCodeBlock { contents: vec![var_decl_node("y", 7, 8, lit(STORAGE_MAP))] },
        },
        return_type: BOOL_T,
    });
    let res = validate_decls_for_storage_only_types_in_ast(&engines, &node);
    assert_eq!(res.errors, vec![storage_err("StorageMap<u64, u64>", 7, 8)]);
}

// An unresolvable type handle is an upstream failure already reported: it is
// treated as an error placeholder and contributes no diagnostic here.
#[test]
fn unresolvable_type_no_diagnostic() {
    let engines = engines_with(vec![]);
    let node = var_decl_node("x", 1, 2, lit(TypeId { id: 99 }));
    let res = validate_decls_for_storage_only_types_in_ast(&engines, &node);
    assert!(res.is_ok());
    assert!(res.errors.is_empty());
}

// A constant with a storage-only value type is reported at the constant
// name's span; a constant without a value succeeds.
#[test]
fn constant_value_type_checked() {
    let engines = engines_with(vec![
        Declaration::Constant(TyConstantDecl {
            name: ident("BAD", 2, 5),
            value: Some(lit(STORAGE_MAP)),
        }),
        Declaration::Constant(TyConstantDecl { name: ident("EMPTY", 8, 13), value: None }),
    ]);
    let bad = validate_const_decl(&engines, ConstDeclId { id: 0 });
    assert_eq!(bad.errors, vec![storage_err("StorageMap<u64, u64>", 2, 5)]);
    let empty = validate_const_decl(&engines, ConstDeclId { id: 1 });
    assert!(empty.is_ok());
    assert!(empty.errors.is_empty());
}

// A type alias of a storage-only type is reported at the alias's span.
#[test]
fn type_alias_checked() {
    let engines = engines_with(vec![Declaration::TypeAlias(TyTypeAliasDecl {
        ty: ta(STORAGE_MAP, 10, 30),
        span: sp(0, 30),
    })]);
    let node = TyAstNodeContent::Declaration(TyDecl::TypeAliasDecl {
        decl_id: TypeAliasDeclId { id: 0 },
    });
    let res = validate_decls_for_storage_only_types_in_ast(&engines, &node);
    assert_eq!(res.errors, vec![storage_err("StorageMap<u64, u64>", 0, 30)]);
}

// Every node of a code block is validated: an earlier node's failure never
// hides a later node's diagnostics.
#[test]
fn codeblock_continues_after_failure() {
    let engines = engines_with(vec![]);
    let block = TyCodeBlock {
        contents: vec![
            var_decl_node("a", 1, 2, lit(STORAGE_MAP)),
            TyAstNodeContent::SideEffect,
            var_decl_node("b", 5, 6, lit(STORAGE_VEC)),
        ],
    };
    let res = validate_decls_for_storage_only_types_in_codeblock(&engines, &block);
    assert_eq!(
        res.errors,
        vec![
            storage_err("StorageMap<u64, u64>", 1, 2),
            storage_err("StorageVec<u64>", 5, 6),
        ]
    );
    assert!(res.warnings.is_empty());
}

// Trait and ABI declarations are no-ops here: their methods are validated
// through the implementing impl block.
#[test]
fn trait_and_abi_noop() {
    let engines = engines_with(vec![]);
    let t = validate_decls_for_storage_only_types_in_ast(
        &engines,
        &TyAstNodeContent::Declaration(TyDecl::TraitDecl),
    );
    assert!(t.is_ok() && t.errors.is_empty());
    let a = validate_decls_for_storage_only_types_in_ast(
        &engines,
        &TyAstNodeContent::Declaration(TyDecl::AbiDecl),
    );
    assert!(a.is_ok() && a.errors.is_empty());
}

// The type-placement check flags every storage-only member of the nested
// type set, in order, at the one span it was given.
#[test]
fn check_type_reports_each_member() {
    let mut engines = engines_with(vec![]);
    engines.type_engine.entries.push(TypeEntry {
        name: "Pair<StorageMap<u64, u64>, StorageVec<u64>>".to_string(),
        shape: 8,
        storage_only: false,
        nested: vec![TypeId { id: 8 }, STORAGE_MAP, BOOL_T, STORAGE_VEC],
    });
    let res = check_type(&engines, TypeId { id: 8 }, sp(9, 14), false);
    assert_eq!(
        res.errors,
        vec![
            storage_err("StorageMap<u64, u64>", 9, 14),
            storage_err("StorageVec<u64>", 9, 14),
        ]
    );
}

// Function call arguments are each validated even when an earlier one fails.
#[test]
fn call_arguments_all_validated() {
    let engines = engines_with(vec![]);
    let node = TyAstNodeContent::Expression(TyExpression {
        expression: TyExpressionVariant::FunctionApplication {
            arguments: vec![
                TyExpression {
                    expression: TyExpressionVariant::Reassignment {
                        lhs_base_name: ident("p", 1, 2),
                        rhs: Box::new(lit(STORAGE_MAP)),
                    },
                    return_type: BOOL_T,
                },
                TyExpression {
                    expression: TyExpressionVariant::Reassignment {
                        lhs_base_name: ident("q", 4, 5),
                        rhs: Box::new(lit(STORAGE_VEC)),
                    },
                    return_type: BOOL_T,
                },
            ],
        },
        return_type: U64_T,
    });
    let res = validate_decls_for_storage_only_types_in_ast(&engines, &node);
    assert_eq!(
        res.errors,
        vec![
            storage_err("StorageMap<u64, u64>", 1, 2),
            storage_err("StorageVec<u64>", 4, 5),
        ]
    );
}

// An empty code block validates to a clean result.
#[test]
fn empty_codeblock_ok() {
    let engines = engines_with(vec![]);
    let block = TyCodeBlock { contents: vec![] };
    let res = validate_decls_for_storage_only_types_in_codeblock(&engines, &block);
    assert!(res.is_ok());
    assert!(res.errors.is_empty());
    assert!(res.warnings.is_empty());
}

// Leaf expression kinds need no structural check and trivially succeed, even
// when their own result type is storage-only: a storage access yields a
// storage-only value by design.
#[test]
fn leaf_expressions_ok() {
    let engines = engines_with(vec![]);
    for variant in [
        TyExpressionVariant::Literal,
        TyExpressionVariant::VariableExpression,
        TyExpressionVariant::FunctionParameter,
        TyExpressionVariant::AsmExpression,
        TyExpressionVariant::StorageAccess,
        TyExpressionVariant::AbiName,
        TyExpressionVariant::Break,
        TyExpressionVariant::Continue,
    ] {
        let node = TyAstNodeContent::Expression(TyExpression {
            expression: variant,
            return_type: STORAGE_MAP,
        });
        let res = validate_decls_for_storage_only_types_in_ast(&engines, &node);
        assert!(res.is_ok());
        assert!(res.errors.is_empty());
    }
}
