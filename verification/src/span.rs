use vstd::prelude::*;

verus! {

/// A half-open range into the original source text. Every syntax node carries
/// one so that diagnostics can point at the offending code. Spans are never
/// mutated once created.
#[derive(Clone, Copy, PartialEq, Eq, Structural, Debug)]
pub struct Span {
    pub start: usize,
    pub end: usize,
}

/// An identifier as written in the source, together with the span where it
/// was written.
#[derive(Clone, Debug)]
pub struct Ident {
    pub name: String,
    pub span: Span,
}

} // verus!
