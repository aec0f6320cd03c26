use vstd::prelude::*;

use crate::decl_engine::DeclEngine;
use crate::type_engine::TypeEngine;

verus! {

/// The pair of read-only collaborators every check consults: the type
/// resolver and the declaration store. Both are fully populated by earlier
/// compiler phases before this pass runs; this pass never writes to them.
pub struct Engines {
    pub type_engine: TypeEngine,
    pub decl_engine: DeclEngine,
}

impl Engines {
    /// Both collaborators keep their invariants: the resolver's nested type
    /// sets resolve, and the declaration store is a well-formed append-only
    /// arena.
    pub open spec fn wf(self) -> bool {
        self.type_engine.wf() && self.decl_engine.wf()
    }
}

} // verus!
