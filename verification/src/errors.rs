//! The error taxonomy of the engine.
//!
//! Five kinds are distinguished so that callers can react to each: a missing
//! entity (with an optional "did you mean" suggestion), an operation not
//! permitted from the entity's current state, a lost race against another
//! process, a rejected input, and a storage fault. Rendering these as text
//! and exit codes is the presentation layer's concern.

use vstd::prelude::*;

use crate::state::TaskState;

verus! {

/// Which kind of entity a lookup failed to resolve.
#[derive(Debug, Clone, Copy, PartialEq, Eq, Structural)]
pub enum EntityKind {
    Goal,
    Task,
    /// Either kind would have done: a bare-id lookup resolved to nothing.
    Either,
}

/// An error returned by an engine operation.
#[derive(Debug)]
pub enum EngineError {
    /// The named id does not resolve to an entity of the expected kind.
    /// `suggestion` carries the closest known id, when one is close enough.
    NotFound { kind: EntityKind, id: String, suggestion: Option<String> },
    /// The operation is not permitted from the entity's current state.
    InvalidState { current: TaskState },
    /// A task cannot be started before a contract is set for it.
    NeedsContract,
    /// A task cannot be started while it waits on the named blockers.
    Blocked { blockers: Vec<String> },
    /// A conditional update lost a race: another process changed the entity
    /// between the read and the guarded write. The caller may re-read and retry.
    Conflict,
    /// An input was rejected before anything was written.
    Validation { bad_id: String, suggestion: Option<String> },
    /// The store failed or holds a record the library cannot read.
    Storage,
}

impl EngineError {
    /// A short stable code naming the error kind, for rendering and tests.
    pub fn code(&self) -> (r: &'static str)
        ensures
            r@ == self.code_spec(),
    {
        proof {
            reveal_strlit("not_found");
            reveal_strlit("invalid_state");
            reveal_strlit("needs_contract");
            reveal_strlit("blocked");
            reveal_strlit("conflict");
            reveal_strlit("validation");
            reveal_strlit("storage");
        }
        match self {
            EngineError::NotFound { .. } => "not_found",
            EngineError::InvalidState { .. } => "invalid_state",
            EngineError::NeedsContract => "needs_contract",
            EngineError::Blocked { .. } => "blocked",
            EngineError::Conflict => "conflict",
            EngineError::Validation { .. } => "validation",
            EngineError::Storage => "storage",
        }
    }

    /// The code of each error kind.
    pub open spec fn code_spec(&self) -> Seq<char> {
        match self {
            EngineError::NotFound { .. } => "not_found"@,
            EngineError::InvalidState { .. } => "invalid_state"@,
            EngineError::NeedsContract => "needs_contract"@,
            EngineError::Blocked { .. } => "blocked"@,
            EngineError::Conflict => "conflict"@,
            EngineError::Validation { .. } => "validation"@,
            EngineError::Storage => "storage"@,
        }
    }
}

} // verus!
