use vstd::prelude::*;

use crate::span::Span;

verus! {

/// An error found by the storage-placement pass.
#[derive(Clone, Debug, PartialEq, Eq)]
pub enum CompileError {
    /// A storage-only type appeared in a position outside the contract's
    /// storage block. Carries the offending type's printable form and the
    /// span of the syntax that introduced it.
    InvalidStorageOnlyTypeDecl { ty: String, span: Span },
    /// An enum-variant selector named a variant that its enum does not have.
    UnknownEnumVariant { variant_name: String, span: Span },
}

/// The mathematical image of a `CompileError`: the same data over `Seq<char>`.
/// Contracts and spec-level traversals speak in these values.
#[verifier::ext_equal]
pub enum CompileErrorView {
    InvalidStorageOnlyTypeDecl { ty: Seq<char>, span: Span },
    UnknownEnumVariant { variant_name: Seq<char>, span: Span },
}

impl View for CompileError {
    type V = CompileErrorView;

    open spec fn view(&self) -> CompileErrorView {
        match self {
            CompileError::InvalidStorageOnlyTypeDecl { ty, span } => {
                CompileErrorView::InvalidStorageOnlyTypeDecl { ty: ty@, span: *span }
            },
            CompileError::UnknownEnumVariant { variant_name, span } => {
                CompileErrorView::UnknownEnumVariant { variant_name: variant_name@, span: *span }
            },
        }
    }
}

/// A warning diagnostic. The pass merges the warnings of every sub-result it
/// combines, though no check in this pass produces one of its own.
#[derive(Clone, Debug, PartialEq, Eq)]
pub struct CompileWarning {
    pub message: String,
    pub span: Span,
}

/// The image of a vector of errors as a sequence of error views.
pub open spec fn errs_of(v: Seq<CompileError>) -> Seq<CompileErrorView> {
    v.map_values(|e: CompileError| e@)
}

/// The diagnostic accumulator returned by every check in this pass: the
/// warnings gathered so far and the errors gathered so far. A result counts
/// as a failure exactly when it carries at least one error; checks never
/// abort by throwing, they return one of these and the caller merges it.
#[derive(Clone, Debug, PartialEq, Eq)]
pub struct CompileResult {
    pub warnings: Vec<CompileWarning>,
    pub errors: Vec<CompileError>,
}

impl CompileResult {
    /// The accumulated errors, as spec-level values.
    pub open spec fn errs(self) -> Seq<CompileErrorView> {
        errs_of(self.errors@)
    }

    /// A result succeeds exactly when it carries no error.
    pub open spec fn spec_is_ok(self) -> bool {
        self.errors@.len() == 0
    }

    /// An empty, successful result.
    pub fn new() -> (r: CompileResult)
        ensures
            r.errs() == Seq::<CompileErrorView>::empty(),
            r.warnings@ == Seq::<CompileWarning>::empty(),
    {
        let r = CompileResult { warnings: Vec::new(), errors: Vec::new() };
        proof {
            assert(r.errs() =~= Seq::<CompileErrorView>::empty());
        }
        r
    }

    /// Whether the result is a success (no errors).
    pub fn is_ok(&self) -> (r: bool)
        ensures
            r == self.spec_is_ok(),
    {
        self.errors.len() == 0
    }

    /// Append one error.
    pub fn push_error(&mut self, e: CompileError)
        ensures
            final(self).errs() == old(self).errs().push(e@),
            final(self).warnings@ == old(self).warnings@,
    {
        self.errors.push(e);
        proof {
            assert(self.errs() =~= old(self).errs().push(e@));
        }
    }

    /// Merge another result into this one: both diagnostic streams are
    /// appended, in order, after the ones already gathered.
    pub fn merge(&mut self, other: CompileResult)
        ensures
            final(self).errs() == old(self).errs() + other.errs(),
            final(self).warnings@ == old(self).warnings@ + other.warnings@,
    {
        let CompileResult { warnings: mut ws, errors: mut es } = other;
        self.warnings.append(&mut ws);
        self.errors.append(&mut es);
        proof {
            assert(self.errs() =~= old(self).errs() + other.errs());
        }
    }
}

} // verus!
