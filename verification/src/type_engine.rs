use vstd::prelude::*;

use crate::diagnostics::CompileErrorView;
use crate::span::Span;

verus! {

/// An opaque, copyable handle to a type interned by the type resolver.
/// Equality of the types two handles denote is structural and is answered by
/// the resolver (through the `shape` class of their descriptions), not by
/// comparing the handles themselves.
#[derive(Clone, Copy, PartialEq, Eq, Structural, Debug)]
pub struct TypeId {
    pub id: usize,
}

/// The resolver's structural description of one interned type.
#[derive(Clone, Debug)]
pub struct TypeEntry {
    /// The type's printable form, as diagnostics cite it.
    pub name: String,
    /// The structural-equality class: two descriptions denote the same
    /// resolved shape exactly when their classes are equal.
    pub shape: usize,
    /// Whether the resolver considers this shape storage-only.
    pub storage_only: bool,
    /// Every type handle structurally reachable from this type, the type
    /// itself included: its nested type set.
    pub nested: Vec<TypeId>,
}

/// The type resolver: interns types behind handles, resolves a handle to its
/// structural description, enumerates a description's nested types, and
/// answers which descriptions are storage-only. This pass only reads it.
pub struct TypeEngine {
    pub entries: Vec<TypeEntry>,
}

impl TypeEngine {
    /// Whether a handle resolves at all. A handle reachable from the typed
    /// AST always does; an unresolvable one is treated as an error
    /// placeholder by the checks below.
    pub open spec fn resolvable(self, t: TypeId) -> bool {
        t.id < self.entries@.len()
    }

    /// The description a handle resolves to.
    pub open spec fn spec_entry(self, t: TypeId) -> TypeEntry {
        self.entries@[t.id as int]
    }

    /// Every handle that a description's nested type set mentions resolves in
    /// turn: the resolver only hands out handles it has interned.
    pub open spec fn wf(self) -> bool {
        forall|i: int, j: int|
            0 <= i < self.entries@.len() && 0 <= j < self.entries@[i].nested@.len()
                ==> (#[trigger] self.entries@[i].nested@[j]).id < self.entries@.len()
    }

    /// Resolve a handle to its structural description; `None` means the
    /// handle does not resolve (an upstream failure that earlier phases have
    /// already reported).
    pub fn to_typeinfo(&self, t: TypeId) -> (r: Option<&TypeEntry>)
        ensures
            self.resolvable(t) ==> (r matches Some(e) && *e == self.spec_entry(t)),
            !self.resolvable(t) ==> r is None,
    {
        if t.id < self.entries.len() {
            Some(&self.entries[t.id])
        } else {
            None
        }
    }
}

/// The violation, if any, that one member of a nested type set contributes
/// when checked at span `span`. With `ignore_self` set, a member structurally
/// equal to the top-level type `top` is exempt; any other storage-only member
/// is reported under its printable form.
pub open spec fn member_violation(
    te: TypeEngine,
    top: TypeEntry,
    n: TypeId,
    span: Span,
    ignore_self: bool,
) -> Seq<CompileErrorView> {
    if te.resolvable(n) && !(ignore_self && te.spec_entry(n).shape == top.shape)
        && te.spec_entry(n).storage_only {
        seq![
            CompileErrorView::InvalidStorageOnlyTypeDecl { ty: te.spec_entry(n).name@, span },
        ]
    } else {
        Seq::empty()
    }
}

/// The violations contributed by the members of a nested type set, in order.
pub open spec fn member_violations(
    te: TypeEngine,
    top: TypeEntry,
    rest: Seq<TypeId>,
    span: Span,
    ignore_self: bool,
) -> Seq<CompileErrorView>
    decreases rest.len(),
{
    if rest.len() == 0 {
        Seq::empty()
    } else {
        member_violation(te, top, rest[0], span, ignore_self)
            + member_violations(te, top, rest.subrange(1, rest.len() as int), span, ignore_self)
    }
}

/// Everything the type-placement check reports for one type handle at one
/// span: the type is resolved to its description (an unresolvable handle is
/// an error placeholder and contributes nothing), and each storage-only
/// member of its nested type set is flagged, except, with `ignore_self`, the
/// members structurally equal to the type itself.
pub open spec fn check_type_errors(
    te: TypeEngine,
    t: TypeId,
    span: Span,
    ignore_self: bool,
) -> Seq<CompileErrorView> {
    if te.resolvable(t) {
        member_violations(te, te.spec_entry(t), te.spec_entry(t).nested@, span, ignore_self)
    } else {
        Seq::empty()
    }
}

} // verus!
