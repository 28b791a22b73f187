//! The verifiable state of rendering: cursor blink bookkeeping, cell
//! styles, and dirty regions.  Drawing itself happens outside this
//! library.

use vstd::prelude::*;
use crate::glazing::config::CursorConfig;
use crate::glazing::errors::GlazingResult;
use crate::sash::theme::Color;

verus! {

/// Cursor blink bookkeeping driven by elapsed milliseconds.
#[derive(Debug, Clone, Copy, PartialEq, Eq, Structural)]
pub struct BlinkState {
    rate_ms: u64,
    visible: bool,
}

impl BlinkState {
    /// The configured blink rate in milliseconds.
    pub closed spec fn spec_rate_ms(self) -> u64 {
        self.rate_ms
    }

    /// Whether the cursor shows in the current phase.
    pub closed spec fn spec_visible(self) -> bool {
        self.visible
    }

    /// A new blink state, visible, with the given rate.
    pub fn new(rate_ms: u64) -> (r: Self)
        ensures
            r.spec_rate_ms() == rate_ms,
            r.spec_visible(),
    {
        BlinkState { rate_ms, visible: true }
    }

    /// Toggle visibility once the elapsed time reaches the rate, and
    /// report the current visibility.
    pub fn update_visibility(&mut self, elapsed_ms: u64) -> (r: bool)
        ensures
            final(self).spec_rate_ms() == old(self).spec_rate_ms(),
            final(self).spec_visible() == if elapsed_ms >= old(self).spec_rate_ms() {
                !old(self).spec_visible()
            } else {
                old(self).spec_visible()
            },
            r == final(self).spec_visible(),
    {
        if elapsed_ms >= self.rate_ms {
            self.visible = !self.visible;
        }
        self.visible
    }

    /// Whether the cursor shows in the current phase.
    pub fn is_visible(&self) -> (r: bool)
        ensures
            r == self.spec_visible(),
    {
        self.visible
    }

    /// Change the blink rate.
    pub fn update_rate(&mut self, new_rate_ms: u64)
        ensures
            final(self).spec_rate_ms() == new_rate_ms,
            final(self).spec_visible() == old(self).spec_visible(),
    {
        self.rate_ms = new_rate_ms;
    }
}

/// Cursor rendering state: its configuration and blink bookkeeping.
#[derive(Debug, Clone, Copy, PartialEq, Eq, Structural)]
pub struct CursorRenderer {
    config: CursorConfig,
    blink_state: BlinkState,
}

impl CursorRenderer {
    /// The configuration in force.
    pub closed spec fn spec_config(self) -> CursorConfig {
        self.config
    }

    /// A new cursor renderer; its blink state takes the configured rate.
    pub fn new(config: &CursorConfig) -> (r: GlazingResult<Self>)
        ensures
            r is Ok,
            r.get_Ok_0().spec_config() == *config,
    {
        Ok(CursorRenderer { config: *config, blink_state: BlinkState::new(config.blink_rate_ms) })
    }

    /// Replace the configuration; the blink rate follows it.
    pub fn update_config(&mut self, config: &CursorConfig) -> (r: GlazingResult<()>)
        ensures
            r is Ok,
            final(self).spec_config() == *config,
    {
        self.config = *config;
        self.blink_state.update_rate(config.blink_rate_ms);
        Ok(())
    }
}

/// Decoration rendering state; drawing borders happens outside this
/// library.
#[derive(Debug, Clone, Copy, PartialEq, Eq, Structural)]
pub struct DecorationRenderer;

impl DecorationRenderer {
    pub fn new() -> (r: GlazingResult<Self>)
        ensures
            r is Ok,
    {
        Ok(DecorationRenderer)
    }
}

/// A cell position in rendered output.
#[derive(Debug, Clone, Copy, PartialEq, Eq, Structural)]
pub struct CellPosition {
    pub col: usize,
}

/// Cell styling information ready for display.
#[derive(Debug, Clone, Copy, PartialEq, Eq, Structural)]
pub struct CellStyle {
    pub foreground: Color,
    pub background: Color,
    pub bold: bool,
    pub italic: bool,
    pub underline: bool,
    pub strikethrough: bool,
    pub reverse: bool,
    pub dim: bool,
}

/// A region that must be redrawn.
#[derive(Debug, Clone, Copy, PartialEq, Eq, Structural)]
pub enum DirtyRegion {
    Full,
    Lines { start: usize, end: usize },
    Cells { line: usize, start_col: usize, end_col: usize },
}

} // verus!
