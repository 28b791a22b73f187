//! Raw input events, input modes and input performance tracking, with
//! times in plain milliseconds handed in by the platform layer.

use vstd::prelude::*;

verus! {

/// Input modes that change how input is processed.
#[derive(Debug, Clone, Copy, PartialEq, Eq, Structural, Hash)]
pub enum InputMode {
    Normal,
    Raw,
    Application,
    Paste,
}

impl Default for InputMode {
    fn default() -> (c: Self)
        ensures
            c == InputMode::Normal,
    {
        InputMode::Normal
    }
}

/// Raw modifier state from the platform.
#[derive(Debug, Clone, Copy, PartialEq, Eq, Structural)]
pub struct RawModifiers {
    pub ctrl: bool,
    pub alt: bool,
    pub shift: bool,
    pub meta: bool,
    pub caps_lock: bool,
    pub num_lock: bool,
}

/// A raw key event from the platform.
#[derive(Debug, Clone, Copy, PartialEq, Eq, Structural)]
pub struct RawKeyEvent {
    pub key_code: u32,
    pub scan_code: u32,
    pub modifiers: RawModifiers,
    pub character: Option<char>,
    pub state: crate::sill::keyboard::KeyState,
    pub timestamp_ms: u64,
}

/// Tracks how long input processing takes, in milliseconds.
#[derive(Debug, Clone, Copy, PartialEq, Eq, Structural)]
pub struct InputPerformanceTracker {
    total_events: u64,
    total_processing_ms: u64,
    peak_processing_ms: u64,
    last_processing_ms: u64,
    processing: bool,
}

impl InputPerformanceTracker {
    /// How many processing rounds finished.
    pub closed spec fn spec_total_events(self) -> u64 {
        self.total_events
    }

    /// The longest single round, in milliseconds.
    pub closed spec fn spec_peak_ms(self) -> u64 {
        self.peak_processing_ms
    }

    /// Whether a round is open.
    pub closed spec fn spec_processing(self) -> bool {
        self.processing
    }

    /// A fresh tracker with no recorded rounds.
    pub fn new() -> (r: Self)
        ensures
            r.spec_total_events() == 0,
            r.spec_peak_ms() == 0,
            !r.spec_processing(),
    {
        InputPerformanceTracker {
            total_events: 0,
            total_processing_ms: 0,
            peak_processing_ms: 0,
            last_processing_ms: 0,
            processing: false,
        }
    }

    /// Open a processing round.
    pub fn start_input_processing(&mut self)
        ensures
            final(self).spec_processing(),
            final(self).spec_total_events() == old(self).spec_total_events(),
            final(self).spec_peak_ms() == old(self).spec_peak_ms(),
    {
        self.processing = true;
    }

    /// Close a processing round that took the given time; without an open
    /// round nothing is recorded.
    pub fn end_input_processing(&mut self, elapsed_ms: u64)
        ensures
            !final(self).spec_processing(),
            old(self).spec_processing() ==> final(self).spec_total_events() == vstd::math::min(
                old(self).spec_total_events() as int + 1,
                u64::MAX as int,
            ) && final(self).spec_peak_ms() == vstd::math::max(
                old(self).spec_peak_ms() as int,
                elapsed_ms as int,
            ),
            !old(self).spec_processing() ==> final(self).spec_total_events() == old(self).spec_total_events() && final(self).spec_peak_ms() == old(self).spec_peak_ms(),
    {
        if self.processing {
            self.processing = false;
            self.last_processing_ms = elapsed_ms;
            if self.total_processing_ms <= u64::MAX - elapsed_ms {
                self.total_processing_ms = self.total_processing_ms + elapsed_ms;
            } else {
                self.total_processing_ms = u64::MAX;
            }
            if self.total_events < u64::MAX {
                self.total_events = self.total_events + 1;
            }
            if elapsed_ms > self.peak_processing_ms {
                self.peak_processing_ms = elapsed_ms;
            }
        }
    }

    /// The mean processing time over all rounds, in milliseconds.
    pub fn average_processing_time(&self) -> (r: u64)
        ensures
            self.spec_total_events() == 0 ==> r == 0,
    {
        if self.total_events > 0 {
            self.total_processing_ms / self.total_events
        } else {
            0
        }
    }

    /// The longest single round, in milliseconds.
    pub fn peak_processing_time(&self) -> (r: u64)
        ensures
            r == self.spec_peak_ms(),
    {
        self.peak_processing_ms
    }

    /// How many processing rounds finished.
    pub fn total_events(&self) -> (r: u64)
        ensures
            r == self.spec_total_events(),
    {
        self.total_events
    }
}

/// Input statistics for monitoring, with times in milliseconds.
#[derive(Debug, Clone, Copy, PartialEq, Eq, Structural)]
pub struct InputStatistics {
    pub keys_processed: u64,
    pub mouse_events_processed: u64,
    pub clipboard_operations: u64,
    pub selections_made: u64,
    pub commands_generated: u64,
    pub average_processing_ms: u64,
    pub peak_processing_ms: u64,
}

} // verus!
