use vstd::prelude::*;

use crate::ast::{FnDeclId, TyAstNodeContent, TyEnumVariant, TyFunctionParameter, TyStructField};
use crate::diagnostics::{CompileErrorView, CompileResult};
use crate::engines::Engines;
use crate::semantics::{
    enum_variants_errors, fn_errors, node_errors, params_errors, struct_fields_errors,
};
use crate::type_engine::{
    check_type_errors, member_violation, member_violations, TypeEngine, TypeEntry, TypeId,
};
use crate::span::Span;

verus! {

/// A type that is itself storage-only and structurally contains nothing but
/// itself: its nested type set is exactly the type.
pub open spec fn plainly_storage_only(te: TypeEngine, t: TypeId) -> bool {
    te.resolvable(t) && te.spec_entry(t).storage_only && te.spec_entry(t).nested@ == seq![t]
}

/// The violation the placement check reports for type `t` at span `span`.
pub open spec fn type_violation(te: TypeEngine, t: TypeId, span: Span) -> CompileErrorView {
    CompileErrorView::InvalidStorageOnlyTypeDecl { ty: te.spec_entry(t).name@, span }
}

/// A type none of whose nested members is storage-only.
pub open spec fn clean_type(te: TypeEngine, t: TypeId) -> bool {
    te.resolvable(t) && forall|j: int|
        0 <= j < te.spec_entry(t).nested@.len() ==> !(te.resolvable(
            #[trigger] te.spec_entry(t).nested@[j],
        ) && te.spec_entry(te.spec_entry(t).nested@[j]).storage_only)
}

/// A plainly storage-only type yields exactly one violation when checked
/// without the self exemption, citing its printable form at the given span.
pub proof fn lemma_plain_storage_type(te: TypeEngine, t: TypeId, span: Span)
    requires
        te.wf(),
        plainly_storage_only(te, t),
    ensures
        check_type_errors(te, t, span, false) == seq![type_violation(te, t, span)],
{
    let top = te.spec_entry(t);
    let s = top.nested@;
    assert(s[0] == t);
    assert(s.subrange(1, 1) =~= Seq::<TypeId>::empty());
    assert(member_violation(te, top, t, span, false) == seq![type_violation(te, t, span)]);
    assert(member_violations(te, top, s.subrange(1, s.len() as int), span, false) =~= Seq::<
        CompileErrorView,
    >::empty());
    assert(check_type_errors(te, t, span, false) =~= seq![type_violation(te, t, span)]);
}

proof fn lemma_members_clean(
    te: TypeEngine,
    top: TypeEntry,
    s: Seq<TypeId>,
    span: Span,
    ignore_self: bool,
)
    requires
        forall|j: int|
            0 <= j < s.len() ==> !(te.resolvable(#[trigger] s[j]) && te.spec_entry(
                s[j],
            ).storage_only),
    ensures
        member_violations(te, top, s, span, ignore_self) == Seq::<CompileErrorView>::empty(),
    decreases s.len(),
{
    if s.len() == 0 {
    } else {
        assert(member_violation(te, top, s[0], span, ignore_self) =~= Seq::<
            CompileErrorView,
        >::empty());
        lemma_members_clean(te, top, s.subrange(1, s.len() as int), span, ignore_self);
        assert(member_violations(te, top, s, span, ignore_self) =~= Seq::<
            CompileErrorView,
        >::empty());
    }
}

/// A type with no storage-only member yields no violation, with or without
/// the self exemption.
pub proof fn lemma_clean_type(te: TypeEngine, t: TypeId, span: Span, ignore_self: bool)
    requires
        te.wf(),
        clean_type(te, t),
    ensures
        check_type_errors(te, t, span, ignore_self) == Seq::<CompileErrorView>::empty(),
{
    lemma_members_clean(te, te.spec_entry(t), te.spec_entry(t).nested@, span, ignore_self);
}

proof fn lemma_members_exempt(te: TypeEngine, top: TypeEntry, s: Seq<TypeId>, span: Span)
    requires
        forall|j: int|
            0 <= j < s.len() ==> (te.spec_entry(#[trigger] s[j]).shape == top.shape
                || !te.spec_entry(s[j]).storage_only),
    ensures
        member_violations(te, top, s, span, true) == Seq::<CompileErrorView>::empty(),
    decreases s.len(),
{
    if s.len() == 0 {
    } else {
        assert(member_violation(te, top, s[0], span, true) =~= Seq::<CompileErrorView>::empty());
        lemma_members_exempt(te, top, s.subrange(1, s.len() as int), span);
        assert(member_violations(te, top, s, span, true) =~= Seq::<CompileErrorView>::empty());
    }
}

/// The self exemption of a storage-block field: when every storage-only
/// member of the field type's nested set is structurally equal to the field
/// type itself, the check with the exemption reports nothing — in particular
/// the field's own storage-only type is no violation.
pub proof fn lemma_storage_field_self_exempt(te: TypeEngine, t: TypeId, span: Span)
    requires
        te.wf(),
        te.resolvable(t),
        forall|j: int|
            0 <= j < te.spec_entry(t).nested@.len() ==> (te.spec_entry(
                #[trigger] te.spec_entry(t).nested@[j],
            ).shape == te.spec_entry(t).shape || !te.spec_entry(
                te.spec_entry(t).nested@[j],
            ).storage_only),
    ensures
        check_type_errors(te, t, span, true) == Seq::<CompileErrorView>::empty(),
{
    lemma_members_exempt(te, te.spec_entry(t), te.spec_entry(t).nested@, span);
}

proof fn lemma_members_one(te: TypeEngine, top: TypeEntry, s: Seq<TypeId>, span: Span, k: int)
    requires
        0 <= k < s.len(),
        te.resolvable(s[k]),
        te.spec_entry(s[k]).shape != top.shape,
        te.spec_entry(s[k]).storage_only,
        forall|j: int|
            0 <= j < s.len() && j != k ==> (te.spec_entry(#[trigger] s[j]).shape == top.shape
                || !te.spec_entry(s[j]).storage_only),
    ensures
        member_violations(te, top, s, span, true) == seq![type_violation(te, s[k], span)],
    decreases s.len(),
{
    let rest = s.subrange(1, s.len() as int);
    if k == 0 {
        assert forall|j: int| 0 <= j < rest.len() implies (te.spec_entry(
            #[trigger] rest[j],
        ).shape == top.shape || !te.spec_entry(rest[j]).storage_only) by {
            assert(rest[j] == s[j + 1]);
        }
        lemma_members_exempt(te, top, rest, span);
        assert(member_violation(te, top, s[0], span, true) == seq![type_violation(te, s[0], span)]);
        assert(member_violations(te, top, s, span, true) =~= seq![type_violation(te, s[k], span)]);
    } else {
        assert(member_violation(te, top, s[0], span, true) =~= Seq::<CompileErrorView>::empty());
        assert(rest[k - 1] == s[k]);
        assert forall|j: int| 0 <= j < rest.len() && j != k - 1 implies (te.spec_entry(
            #[trigger] rest[j],
        ).shape == top.shape || !te.spec_entry(rest[j]).storage_only) by {
            assert(rest[j] == s[j + 1]);
        }
        lemma_members_one(te, top, rest, span, k - 1);
        assert(member_violations(te, top, s, span, true) =~= seq![type_violation(te, s[k], span)]);
    }
}

/// The other half of the self exemption: when the field type's nested set
/// holds exactly one storage-only member structurally different from the
/// field type itself, the check with the exemption reports exactly one
/// violation, citing that member.
pub proof fn lemma_storage_field_nested_violation(te: TypeEngine, t: TypeId, span: Span, k: int)
    requires
        te.wf(),
        te.resolvable(t),
        0 <= k < te.spec_entry(t).nested@.len(),
        te.resolvable(te.spec_entry(t).nested@[k]),
        te.spec_entry(te.spec_entry(t).nested@[k]).shape != te.spec_entry(t).shape,
        te.spec_entry(te.spec_entry(t).nested@[k]).storage_only,
        forall|j: int|
            0 <= j < te.spec_entry(t).nested@.len() && j != k ==> (te.spec_entry(
                #[trigger] te.spec_entry(t).nested@[j],
            ).shape == te.spec_entry(t).shape || !te.spec_entry(
                te.spec_entry(t).nested@[j],
            ).storage_only),
    ensures
        check_type_errors(te, t, span, true) == seq![
            type_violation(te, te.spec_entry(t).nested@[k], span),
        ],
{
    lemma_members_one(te, te.spec_entry(t), te.spec_entry(t).nested@, span, k);
}

/// Parameters are validated independently: with every parameter declared at a
/// plainly storage-only type and none of them `self`, validation reports
/// exactly one violation per parameter, in parameter order — the first
/// failing parameter does not abort the checking of the ones after it.
pub proof fn lemma_params_one_violation_each(te: TypeEngine, ps: Seq<TyFunctionParameter>)
    requires
        te.wf(),
        forall|j: int|
            0 <= j < ps.len() ==> !(#[trigger] ps[j]).is_self && plainly_storage_only(
                te,
                ps[j].type_argument.type_id,
            ),
    ensures
        params_errors(te, ps) == ps.map_values(
            |p: TyFunctionParameter| type_violation(te, p.type_argument.type_id, p.type_argument.span),
        ),
    decreases ps.len(),
{
    let f = |p: TyFunctionParameter| type_violation(te, p.type_argument.type_id, p.type_argument.span);
    if ps.len() == 0 {
        assert(params_errors(te, ps) =~= ps.map_values(f));
    } else {
        let rest = ps.subrange(1, ps.len() as int);
        lemma_plain_storage_type(te, ps[0].type_argument.type_id, ps[0].type_argument.span);
        assert forall|j: int| 0 <= j < rest.len() implies !(#[trigger] rest[j]).is_self
            && plainly_storage_only(te, rest[j].type_argument.type_id) by {
            assert(rest[j] == ps[j + 1]);
        }
        lemma_params_one_violation_each(te, rest);
        assert(params_errors(te, ps) =~= ps.map_values(f));
    }
}

/// A storage-only return type yields exactly one violation and it comes
/// last: everything already collected from the body and the parameters is
/// preserved in front of it, and nothing of the declaration is validated
/// beyond the return type.
pub proof fn lemma_return_type_checked_last(e: Engines, id: FnDeclId)
    requires
        e.wf(),
        e.decl_engine.valid_fn(id),
        plainly_storage_only(
            e.type_engine,
            e.decl_engine.spec_fn_at(id.id as nat).return_type.type_id,
        ),
    ensures
        fn_errors(e, id.id as nat) == crate::semantics::block_errors(
            e,
            id.id as nat,
            e.decl_engine.spec_fn_at(id.id as nat).body,
        ) + params_errors(e.type_engine, e.decl_engine.spec_fn_at(id.id as nat).parameters@)
            + seq![
            type_violation(
                e.type_engine,
                e.decl_engine.spec_fn_at(id.id as nat).return_type.type_id,
                e.decl_engine.spec_fn_at(id.id as nat).return_type.span,
            ),
        ],
{
    let f = e.decl_engine.spec_fn_at(id.id as nat);
    lemma_plain_storage_type(e.type_engine, f.return_type.type_id, f.return_type.span);
}

/// One violation per offending struct field, in field order.
pub proof fn lemma_struct_fields_one_violation_each(te: TypeEngine, fs: Seq<TyStructField>)
    requires
        te.wf(),
        forall|j: int|
            0 <= j < fs.len() ==> plainly_storage_only(
                te,
                (#[trigger] fs[j]).type_argument.type_id,
            ),
    ensures
        struct_fields_errors(te, fs) == fs.map_values(
            |f: TyStructField| type_violation(te, f.type_argument.type_id, f.span),
        ),
    decreases fs.len(),
{
    let g = |f: TyStructField| type_violation(te, f.type_argument.type_id, f.span);
    if fs.len() == 0 {
        assert(struct_fields_errors(te, fs) =~= fs.map_values(g));
    } else {
        let rest = fs.subrange(1, fs.len() as int);
        lemma_plain_storage_type(te, fs[0].type_argument.type_id, fs[0].span);
        assert forall|j: int| 0 <= j < rest.len() implies plainly_storage_only(
            te,
            (#[trigger] rest[j]).type_argument.type_id,
        ) by {
            assert(rest[j] == fs[j + 1]);
        }
        lemma_struct_fields_one_violation_each(te, rest);
        assert(struct_fields_errors(te, fs) =~= fs.map_values(g));
    }
}

/// A struct with no offending field yields zero diagnostics.
pub proof fn lemma_struct_fields_clean(te: TypeEngine, fs: Seq<TyStructField>)
    requires
        te.wf(),
        forall|j: int|
            0 <= j < fs.len() ==> clean_type(te, (#[trigger] fs[j]).type_argument.type_id),
    ensures
        struct_fields_errors(te, fs) == Seq::<CompileErrorView>::empty(),
    decreases fs.len(),
{
    if fs.len() == 0 {
    } else {
        let rest = fs.subrange(1, fs.len() as int);
        lemma_clean_type(te, fs[0].type_argument.type_id, fs[0].span, false);
        assert forall|j: int| 0 <= j < rest.len() implies clean_type(
            te,
            (#[trigger] rest[j]).type_argument.type_id,
        ) by {
            assert(rest[j] == fs[j + 1]);
        }
        lemma_struct_fields_clean(te, rest);
        assert(struct_fields_errors(te, fs) =~= Seq::<CompileErrorView>::empty());
    }
}

/// One violation per offending enum variant, in variant order.
pub proof fn lemma_enum_variants_one_violation_each(te: TypeEngine, vs: Seq<TyEnumVariant>)
    requires
        te.wf(),
        forall|j: int|
            0 <= j < vs.len() ==> plainly_storage_only(
                te,
                (#[trigger] vs[j]).type_argument.type_id,
            ),
    ensures
        enum_variants_errors(te, vs) == vs.map_values(
            |v: TyEnumVariant| type_violation(te, v.type_argument.type_id, v.span),
        ),
    decreases vs.len(),
{
    let g = |v: TyEnumVariant| type_violation(te, v.type_argument.type_id, v.span);
    if vs.len() == 0 {
        assert(enum_variants_errors(te, vs) =~= vs.map_values(g));
    } else {
        let rest = vs.subrange(1, vs.len() as int);
        lemma_plain_storage_type(te, vs[0].type_argument.type_id, vs[0].span);
        assert forall|j: int| 0 <= j < rest.len() implies plainly_storage_only(
            te,
            (#[trigger] rest[j]).type_argument.type_id,
        ) by {
            assert(rest[j] == vs[j + 1]);
        }
        lemma_enum_variants_one_violation_each(te, rest);
        assert(enum_variants_errors(te, vs) =~= vs.map_values(g));
    }
}

/// An enum with no offending variant yields zero diagnostics.
pub proof fn lemma_enum_variants_clean(te: TypeEngine, vs: Seq<TyEnumVariant>)
    requires
        te.wf(),
        forall|j: int|
            0 <= j < vs.len() ==> clean_type(te, (#[trigger] vs[j]).type_argument.type_id),
    ensures
        enum_variants_errors(te, vs) == Seq::<CompileErrorView>::empty(),
    decreases vs.len(),
{
    if vs.len() == 0 {
    } else {
        let rest = vs.subrange(1, vs.len() as int);
        lemma_clean_type(te, vs[0].type_argument.type_id, vs[0].span, false);
        assert forall|j: int| 0 <= j < rest.len() implies clean_type(
            te,
            (#[trigger] rest[j]).type_argument.type_id,
        ) by {
            assert(rest[j] == vs[j + 1]);
        }
        lemma_enum_variants_clean(te, rest);
        assert(enum_variants_errors(te, vs) =~= Seq::<CompileErrorView>::empty());
    }
}

/// Idempotence: validation is a pure function of the typed AST and the
/// collaborator state, so any two results that meet the validator's contract
/// over the same engines and node carry identical diagnostics — re-running
/// the pass over unchanged inputs cannot change its output.
pub proof fn lemma_validation_deterministic(
    e: Engines,
    n: TyAstNodeContent,
    r1: CompileResult,
    r2: CompileResult,
)
    requires
        r1.errs() == node_errors(e, e.decl_engine.bound(), n),
        r1.warnings@.len() == 0,
        r2.errs() == node_errors(e, e.decl_engine.bound(), n),
        r2.warnings@.len() == 0,
    ensures
        r1.errs() == r2.errs(),
        r1.warnings@ == r2.warnings@,
{
    assert(r1.warnings@ =~= r2.warnings@);
}

} // verus!

