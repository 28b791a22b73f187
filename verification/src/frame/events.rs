//! Event identities and priorities of the application layer.

use vstd::prelude::*;

verus! {

/// Identifier handed out when an event listener is registered.
#[derive(Debug, Clone, Copy, PartialEq, Eq, Structural, Hash)]
pub struct ListenerId(pub u64);

impl ListenerId {
    pub fn new(id: u64) -> (r: Self)
        ensures
            r.0 == id,
    {
        ListenerId(id)
    }
}

/// Kinds of application-wide events.
#[derive(Debug, Clone, Copy, PartialEq, Eq, Structural, Hash)]
pub enum GlobalEventType {
    ApplicationLifecycle,
    WindowManagement,
    Configuration,
    System,
    UserInteraction,
    Error,
    Custom,
}

/// Priority of an event listener; higher priorities are called first.
#[derive(Debug, Clone, Copy, PartialEq, Eq, Structural, PartialOrd, Ord)]
pub enum EventPriority {
    Low,
    Normal,
    High,
    Critical,
}

} // verus!
