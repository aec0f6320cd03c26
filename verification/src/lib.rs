//! A semantic-analysis pass over a fully typed program representation: it
//! rejects programs in which a storage-only type (one whose values may exist
//! only inside a contract's persistent storage block) leaks into an ordinary
//! position, such as a local variable, a function parameter or return type, a
//! struct or enum member, a constant, or an expression. The pass walks every
//! typed node, queries the type resolver at every type-introducing site, and
//! accumulates all violations it finds in one run instead of stopping at the
//! first.

pub mod ast;
pub mod decl_engine;
pub mod diagnostics;
pub mod engines;
pub mod laws;
pub mod semantics;
pub mod seq_util;
pub mod validate;
pub mod span;
pub mod type_engine;
