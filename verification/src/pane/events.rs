//! Event kinds, selections and statistics a pane exposes to the layers
//! around it.

use vstd::prelude::*;
use crate::pane::buffer::BufferType;

verus! {

/// Content region of a change notification.
#[derive(Debug, Clone, Copy, PartialEq, Eq, Structural)]
pub enum ContentRegion {
    Screen,
    Scrollback,
    Line(usize),
    Cell(usize, usize),
    Range { start_line: usize, end_line: usize },
}

/// A point of a text selection.
#[derive(Debug, Clone, Copy, PartialEq, Eq, Structural)]
pub struct SelectionPoint {
    pub line: usize,
    pub column: usize,
    pub buffer_type: BufferType,
}

/// Kind of a text selection.
#[derive(Debug, Clone, Copy, PartialEq, Eq, Structural)]
pub enum SelectionType {
    Character,
    Word,
    Line,
    Block,
}

/// A text selection over the pane's content.
#[derive(Debug, Clone)]
pub struct Selection {
    pub start: SelectionPoint,
    pub end: SelectionPoint,
    pub text: String,
    pub selection_type: SelectionType,
}

/// Kinds of pane events, for subscriptions.
#[derive(Debug, Clone, Copy, PartialEq, Eq, Structural, Hash)]
pub enum PaneEventType {
    ProcessSpawned,
    ProcessExited,
    ProcessKilled,
    ContentChanged,
    TitleChanged,
    CursorMoved,
    Resized,
    ModeChanged,
    BellRung,
    TextSelected,
    SearchResultsChanged,
    PtyError,
    TerminalError,
    ActiveStateChanged,
    ModifiedStateChanged,
    PerformanceWarning,
    All,
}

/// Priority of an event listener; higher priorities are called first.
#[derive(Debug, Clone, Copy, PartialEq, Eq, Structural, PartialOrd, Ord)]
pub enum EventPriority {
    Low,
    Normal,
    High,
    Critical,
}

/// Direction of a content search.
#[derive(Debug, Clone, Copy, PartialEq, Eq, Structural)]
pub enum SearchDirection {
    Forward,
    Backward,
}

/// A scroll target.
#[derive(Debug, Clone, Copy, PartialEq, Eq, Structural)]
pub enum ScrollPosition {
    Top,
    Bottom,
    Line(usize),
    Relative(i32),
}

/// Counters a pane keeps about its own activity.  Times are tracked in
/// milliseconds handed in by the caller.
#[derive(Debug, Clone, Copy, PartialEq, Eq, Structural)]
pub struct PaneStatistics {
    pub bytes_received: usize,
    pub bytes_sent: usize,
    pub lines_processed: usize,
    pub commands_executed: usize,
    pub unhandled_sequences: usize,
    pub render_count: usize,
    pub last_activity_ms: Option<u64>,
    pub creation_ms: u64,
    pub process_spawn_ms: Option<u64>,
    pub memory_usage: usize,
}

impl Default for PaneStatistics {
    /// All counters zero, no recorded activity.
    fn default() -> (c: Self)
        ensures
            c == PaneStatistics::spec_new(),
    {
        PaneStatistics {
            bytes_received: 0,
            bytes_sent: 0,
            lines_processed: 0,
            commands_executed: 0,
            unhandled_sequences: 0,
            render_count: 0,
            last_activity_ms: None,
            creation_ms: 0,
            process_spawn_ms: None,
            memory_usage: 0,
        }
    }
}

impl PaneStatistics {
    /// All counters zero, no recorded activity.
    pub open spec fn spec_new() -> PaneStatistics {
        PaneStatistics {
            bytes_received: 0,
            bytes_sent: 0,
            lines_processed: 0,
            commands_executed: 0,
            unhandled_sequences: 0,
            render_count: 0,
            last_activity_ms: None,
            creation_ms: 0,
            process_spawn_ms: None,
            memory_usage: 0,
        }
    }

    /// Fresh statistics.
    pub fn new() -> (c: Self)
        ensures
            c == PaneStatistics::spec_new(),
    {
        PaneStatistics::default()
    }

    /// Record activity at the given time.
    pub fn record_activity(&mut self, now_ms: u64)
        ensures
            *final(self) == (PaneStatistics { last_activity_ms: Some(now_ms), ..*old(self) }),
    {
        self.last_activity_ms = Some(now_ms);
    }

    /// Record a process spawn at the given time.
    pub fn record_spawn(&mut self, now_ms: u64)
        ensures
            *final(self) == (PaneStatistics { process_spawn_ms: Some(now_ms), ..*old(self) }),
    {
        self.process_spawn_ms = Some(now_ms);
    }

    /// Milliseconds since creation.
    pub fn uptime(&self, now_ms: u64) -> (r: u64)
        ensures
            r == if now_ms >= self.creation_ms {
                (now_ms - self.creation_ms) as u64
            } else {
                0u64
            },
    {
        if now_ms >= self.creation_ms {
            now_ms - self.creation_ms
        } else {
            0
        }
    }

    /// Milliseconds since the last recorded activity, if any.
    pub fn idle_time(&self, now_ms: u64) -> (r: Option<u64>)
        ensures
            r == match self.last_activity_ms {
                Some(last) => Some(
                    if now_ms >= last {
                        (now_ms - last) as u64
                    } else {
                        0u64
                    },
                ),
                None => None::<u64>,
            },
    {
        match self.last_activity_ms {
            Some(last) => Some(
                if now_ms >= last {
                    now_ms - last
                } else {
                    0
                },
            ),
            None => None,
        }
    }

    /// Whether there was activity within the last minute.
    pub fn is_active(&self, now_ms: u64) -> (r: bool)
        ensures
            r == match self.last_activity_ms {
                Some(last) => now_ms >= last && now_ms - last < 60000,
                None => false,
            },
    {
        match self.last_activity_ms {
            Some(last) => now_ms >= last && now_ms - last < 60000,
            None => false,
        }
    }
}

} // verus!
