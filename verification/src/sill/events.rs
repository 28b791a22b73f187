//! Event kinds of the input layer and statistics over them.

use vstd::prelude::*;

verus! {

/// Kinds of input-layer events.
#[derive(Debug, Clone, Copy, PartialEq, Eq, Structural, Hash)]
pub enum SillEventType {
    KeyProcessed,
    MouseProcessed,
    ClipboardOperation,
    SelectionChanged,
    FocusChanged,
    InputModeChanged,
    PerformanceWarning,
    ConfigurationChanged,
    ErrorOccurred,
}

impl SillEventType {
    /// A stable index for each event kind.
    pub open spec fn spec_index(self) -> int {
        match self {
            SillEventType::KeyProcessed => 0,
            SillEventType::MouseProcessed => 1,
            SillEventType::ClipboardOperation => 2,
            SillEventType::SelectionChanged => 3,
            SillEventType::FocusChanged => 4,
            SillEventType::InputModeChanged => 5,
            SillEventType::PerformanceWarning => 6,
            SillEventType::ConfigurationChanged => 7,
            SillEventType::ErrorOccurred => 8,
        }
    }

    /// A stable index for this event kind.
    fn index(&self) -> (r: usize)
        ensures
            r == self.spec_index(),
            r < 9,
    {
        match self {
            SillEventType::KeyProcessed => 0,
            SillEventType::MouseProcessed => 1,
            SillEventType::ClipboardOperation => 2,
            SillEventType::SelectionChanged => 3,
            SillEventType::FocusChanged => 4,
            SillEventType::InputModeChanged => 5,
            SillEventType::PerformanceWarning => 6,
            SillEventType::ConfigurationChanged => 7,
            SillEventType::ErrorOccurred => 8,
        }
    }
}

/// Clipboard operations.
#[derive(Debug, Clone, Copy, PartialEq, Eq, Structural)]
pub enum ClipboardOperation {
    Copy,
    Paste,
    Cut,
    Clear,
}

/// Performance metrics the input layer can report on.
#[derive(Debug, Clone, Copy, PartialEq, Eq, Structural)]
pub enum PerformanceMetric {
    InputLatency,
    ProcessingTime,
    EventQueueSize,
    MemoryUsage,
    CommandGenerationRate,
}

/// Counts events by kind.
#[derive(Debug, Clone)]
pub struct EventStatistics {
    total_events: u64,
    events_by_type: Vec<u64>,
}

impl EventStatistics {
    /// One counter per event kind.
    pub closed spec fn wf(self) -> bool {
        self.events_by_type@.len() == 9
    }

    /// The counter of one event kind.
    pub closed spec fn spec_count(self, event_type: SillEventType) -> u64 {
        self.events_by_type@[event_type.spec_index()]
    }

    /// The total number of recorded events.
    pub closed spec fn spec_total(self) -> u64 {
        self.total_events
    }

    /// Fresh statistics, all counters zero.
    pub fn new() -> (r: Self)
        ensures
            r.wf(),
            r.spec_total() == 0,
            forall|t: SillEventType| r.spec_count(t) == 0,
    {
        let mut events_by_type: Vec<u64> = Vec::new();
        let mut i: usize = 0;
        while i < 9
            invariant
                i <= 9,
                events_by_type@.len() == i,
                forall|j: int| 0 <= j < i ==> events_by_type@[j] == 0,
            decreases 9 - i,
        {
            events_by_type.push(0);
            i = i + 1;
        }
        EventStatistics { total_events: 0, events_by_type }
    }

    /// Record one occurrence of an event kind.
    pub fn record_event(&mut self, event_type: &SillEventType)
        requires
            old(self).wf(),
        ensures
            final(self).wf(),
            final(self).spec_total() == vstd::math::min(
                old(self).spec_total() as int + 1,
                u64::MAX as int,
            ),
            final(self).spec_count(*event_type) == vstd::math::min(
                old(self).spec_count(*event_type) as int + 1,
                u64::MAX as int,
            ),
            forall|t: SillEventType|
                t.spec_index() != event_type.spec_index() ==> final(self).spec_count(t) == old(self).spec_count(t),
    {
        if self.total_events < u64::MAX {
            self.total_events = self.total_events + 1;
        }
        let idx = event_type.index();
        let c = self.events_by_type[idx];
        if c < u64::MAX {
            self.events_by_type.set(idx, c + 1);
        }
    }

    /// The total number of recorded events.
    pub fn total_events(&self) -> (r: u64)
        ensures
            r == self.spec_total(),
    {
        self.total_events
    }

    /// The count of one event kind.
    pub fn event_count(&self, event_type: SillEventType) -> (r: u64)
        requires
            self.wf(),
        ensures
            r == self.spec_count(event_type),
    {
        self.events_by_type[event_type.index()]
    }
}

/// A development listener that can be switched on and off.
#[derive(Debug, Clone, Copy, PartialEq, Eq, Structural)]
pub struct DebugEventListener {
    pub enabled: bool,
    pub verbose: bool,
}

impl DebugEventListener {
    /// A new listener, quiet by default.
    pub fn new(enabled: bool) -> (r: Self)
        ensures
            r.enabled == enabled,
            !r.verbose,
    {
        DebugEventListener { enabled, verbose: false }
    }

    /// Switch verbose logging on or off.
    pub fn with_verbose(self, verbose: bool) -> (r: Self)
        ensures
            r.enabled == self.enabled,
            r.verbose == verbose,
    {
        DebugEventListener { enabled: self.enabled, verbose }
    }
}

} // verus!
