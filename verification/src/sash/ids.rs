//! Identity of a single terminal pane.

use vstd::prelude::*;

verus! {

/// Unique identifier for a pane (one terminal instance).
#[derive(Debug, Clone, Copy, PartialEq, Eq, Structural, Hash, PartialOrd, Ord)]
pub struct PaneId(pub u64);

impl PaneId {
    pub fn new(id: u64) -> (r: Self)
        ensures
            r.0 == id,
    {
        PaneId(id)
    }

    pub fn as_u64(&self) -> (r: u64)
        ensures
            r == self.0,
    {
        self.0
    }
}

} // verus!
