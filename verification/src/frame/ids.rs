//! Identity of a window and application-level state.

use vstd::prelude::*;

verus! {

/// Unique identifier for a window (sash).
#[derive(Debug, Clone, Copy, PartialEq, Eq, Structural, Hash, PartialOrd, Ord)]
pub struct SashId(pub u64);

impl SashId {
    pub fn new(id: u64) -> (r: Self)
        ensures
            r.0 == id,
    {
        SashId(id)
    }

    pub fn as_u64(&self) -> (r: u64)
        ensures
            r == self.0,
    {
        self.0
    }
}

/// Lifecycle state of the whole application.
#[derive(Debug, Clone, Copy, PartialEq, Eq, Structural)]
pub enum ApplicationState {
    Initializing,
    Running,
    ShuttingDown,
    Stopped,
}

} // verus!
