//! The cursor: position, style, visibility, blink state, and the movement
//! logic that clamps it into the screen and triggers scrolling.

use vstd::prelude::*;
use crate::pane::buffer::{blank_cells, sb_push, Line, ScreenBuffer, ScrollbackBuffer};
use crate::pane::errors::PaneResult;
use crate::pane::state::{TabStops, TerminalModes};

verus! {

/// Cursor position: zero-based row and column, and the origin-mode flag.
#[derive(Debug, Clone, Copy, PartialEq, Eq, Structural)]
pub struct CursorPosition {
    pub row: u16,
    pub col: u16,
    pub origin_mode: bool,
}

impl Default for CursorPosition {
    /// The origin: row 0, column 0, origin mode off.
    fn default() -> (c: Self)
        ensures
            c == (CursorPosition { row: 0u16, col: 0u16, origin_mode: false }),
    {
        CursorPosition { row: 0, col: 0, origin_mode: false }
    }
}

/// Cursor visual style.
#[derive(Debug, Clone, Copy, PartialEq, Eq, Structural)]
pub enum CursorStyle {
    Block,
    Underline,
    Bar,
}

/// Cursor visibility state.
#[derive(Debug, Clone, Copy, PartialEq, Eq, Structural)]
pub enum CursorVisibility {
    Visible,
    Hidden,
    BlinkingBlock,
    BlinkingUnderline,
    BlinkingBar,
}

/// Cursor blink state, driven by elapsed milliseconds handed in by the
/// caller.
#[derive(Debug, Clone, Copy, PartialEq, Eq, Structural)]
pub struct BlinkState {
    is_visible: bool,
    blink_interval_ms: u64,
}

impl Default for BlinkState {
    /// Visible, with a half-second blink interval.
    fn default() -> (c: Self)
        ensures
            c.spec_visible(),
            c.spec_interval_ms() == 500,
    {
        BlinkState { is_visible: true, blink_interval_ms: 500 }
    }
}

impl BlinkState {
    /// Whether the cursor shows in the current blink phase.
    pub closed spec fn spec_visible(self) -> bool {
        self.is_visible
    }

    /// The configured blink interval in milliseconds.
    pub closed spec fn spec_interval_ms(self) -> u64 {
        self.blink_interval_ms
    }

    /// Toggle visibility once the elapsed time reaches the interval.
    pub fn update(&mut self, elapsed_ms: u64)
        ensures
            final(self).spec_interval_ms() == old(self).spec_interval_ms(),
            final(self).spec_visible() == if elapsed_ms >= old(self).spec_interval_ms() {
                !old(self).spec_visible()
            } else {
                old(self).spec_visible()
            },
    {
        if elapsed_ms >= self.blink_interval_ms {
            self.is_visible = !self.is_visible;
        }
    }

    /// Whether the cursor shows in the current blink phase.
    pub fn is_visible(&self) -> (r: bool)
        ensures
            r == self.spec_visible(),
    {
        self.is_visible
    }

    /// Force the cursor visible.
    pub fn set_visible(&mut self)
        ensures
            final(self).spec_visible(),
            final(self).spec_interval_ms() == old(self).spec_interval_ms(),
    {
        self.is_visible = true;
    }

    /// Change the blink interval.
    pub fn set_interval(&mut self, interval_ms: u64)
        ensures
            final(self).spec_interval_ms() == interval_ms,
            final(self).spec_visible() == old(self).spec_visible(),
    {
        self.blink_interval_ms = interval_ms;
    }
}

/// A one-based VT coordinate clamped into a zero-based range of `size`
/// positions: one is subtracted (stopping at zero), then the result is
/// clamped to `size - 1`.
pub open spec fn vt_clamp(v: u16, size: u16) -> u16 {
    let z: u16 = if v == 0 {
        0u16
    } else {
        (v - 1) as u16
    };
    let m: u16 = if size == 0 {
        0u16
    } else {
        (size - 1) as u16
    };
    if z <= m {
        z
    } else {
        m
    }
}

/// Cursor position and state management.
#[derive(Debug, Clone)]
pub struct Cursor {
    pub position: CursorPosition,
    pub style: CursorStyle,
    pub visibility: CursorVisibility,
    pub blink_state: BlinkState,
    pub saved_positions: Vec<CursorPosition>,
}

impl Cursor {
    /// A new cursor at the origin: block style, visible.
    pub fn new() -> (c: Self)
        ensures
            c.position == (CursorPosition { row: 0u16, col: 0u16, origin_mode: false }),
            c.style == CursorStyle::Block,
            c.visibility == CursorVisibility::Visible,
            c.saved_positions@.len() == 0,
    {
        Cursor {
            position: CursorPosition::default(),
            style: CursorStyle::Block,
            visibility: CursorVisibility::Visible,
            blink_state: BlinkState::default(),
            saved_positions: Vec::new(),
        }
    }

    /// Everything but the position is unchanged.
    pub open spec fn moved_only(pre: Cursor, post: Cursor) -> bool {
        &&& post.style == pre.style
        &&& post.visibility == pre.visibility
        &&& post.blink_state == pre.blink_state
        &&& post.saved_positions == pre.saved_positions
        &&& post.position.origin_mode == pre.position.origin_mode
    }

    /// Set the cursor from one-based VT coordinates, clamped into the
    /// screen.
    pub fn set_position(&mut self, row: u16, col: u16, screen: &ScreenBuffer) -> (r: PaneResult<
        (),
    >)
        ensures
            r is Ok,
            Cursor::moved_only(*old(self), *final(self)),
            final(self).position.row == vt_clamp(row, screen.height),
            final(self).position.col == vt_clamp(col, screen.width),
    {
        let zero_row: u16 = if row == 0 {
            0
        } else {
            row - 1
        };
        let zero_col: u16 = if col == 0 {
            0
        } else {
            col - 1
        };
        let max_row: u16 = if screen.height == 0 {
            0
        } else {
            screen.height - 1
        };
        let max_col: u16 = if screen.width == 0 {
            0
        } else {
            screen.width - 1
        };
        self.position.row = if zero_row <= max_row {
            zero_row
        } else {
            max_row
        };
        self.position.col = if zero_col <= max_col {
            zero_col
        } else {
            max_col
        };
        Ok(())
    }

    /// Move up by `n` rows, stopping at the top; never scrolls.
    pub fn move_up(&mut self, n: u16, screen: &ScreenBuffer) -> (r: PaneResult<()>)
        requires
            old(self).position.row < screen.height,
            old(self).position.col < screen.width,
        ensures
            r is Ok,
            Cursor::moved_only(*old(self), *final(self)),
            final(self).position.row == if old(self).position.row >= n {
                (old(self).position.row - n) as u16
            } else {
                0u16
            },
            final(self).position.col == old(self).position.col,
    {
        let new_row: u16 = if self.position.row >= n {
            self.position.row - n
        } else {
            0
        };
        self.set_position(new_row + 1, self.position.col + 1, screen)
    }

    /// Move down by `n` rows, stopping at the bottom row; never scrolls.
    pub fn move_down(&mut self, n: u16, screen: &ScreenBuffer) -> (r: PaneResult<()>)
        requires
            old(self).position.row < screen.height,
            old(self).position.col < screen.width,
        ensures
            r is Ok,
            Cursor::moved_only(*old(self), *final(self)),
            final(self).position.row == vstd::math::min(
                old(self).position.row + n,
                screen.height - 1,
            ),
            final(self).position.col == old(self).position.col,
    {
        let sum: u32 = self.position.row as u32 + n as u32;
        let limit: u32 = (screen.height - 1) as u32;
        let new_row: u16 = if sum <= limit {
            sum as u16
        } else {
            limit as u16
        };
        self.set_position(new_row + 1, self.position.col + 1, screen)
    }

    /// Move forward by `n` columns, stopping at the last column.
    pub fn move_forward(&mut self, n: u16, screen: &ScreenBuffer) -> (r: PaneResult<()>)
        requires
            old(self).position.row < screen.height,
            old(self).position.col < screen.width,
        ensures
            r is Ok,
            Cursor::moved_only(*old(self), *final(self)),
            final(self).position.col == vstd::math::min(
                old(self).position.col + n,
                screen.width - 1,
            ),
            final(self).position.row == old(self).position.row,
    {
        let sum: u32 = self.position.col as u32 + n as u32;
        let limit: u32 = (screen.width - 1) as u32;
        let new_col: u16 = if sum <= limit {
            sum as u16
        } else {
            limit as u16
        };
        self.set_position(self.position.row + 1, new_col + 1, screen)
    }

    /// Move back by `n` columns, stopping at column zero.
    pub fn move_back(&mut self, n: u16) -> (r: PaneResult<()>)
        ensures
            r is Ok,
            Cursor::moved_only(*old(self), *final(self)),
            final(self).position.row == old(self).position.row,
            final(self).position.col == if old(self).position.col >= n {
                (old(self).position.col - n) as u16
            } else {
                0u16
            },
    {
        self.position.col = if self.position.col >= n {
            self.position.col - n
        } else {
            0
        };
        Ok(())
    }

    /// Advance after printing one character: one column to the right; at the
    /// right edge either wrap to the start of the next row (auto-wrap on,
    /// clamped to the bottom row without scrolling) or stay on the last
    /// column (auto-wrap off).
    pub fn advance(&mut self, screen: &ScreenBuffer, modes: &TerminalModes) -> (r: PaneResult<()>)
        requires
            old(self).position.col < screen.width,
            old(self).position.row < screen.height,
        ensures
            r is Ok,
            Cursor::moved_only(*old(self), *final(self)),
            final(self).position == crate::pane::laws::advance_dest(
                old(self).position,
                screen.width,
                screen.height,
                modes.auto_wrap,
            ),
            old(self).position.col + 1 < screen.width ==> final(self).position == (
            CursorPosition {
                col: (old(self).position.col + 1) as u16,
                ..old(self).position
            }),
            old(self).position.col + 1 == screen.width && modes.auto_wrap ==> {
                &&& final(self).position.col == 0
                &&& final(self).position.row == vstd::math::min(
                    old(self).position.row + 1,
                    screen.height - 1,
                )
            },
            old(self).position.col + 1 == screen.width && !modes.auto_wrap ==> final(self).position == (CursorPosition { col: (screen.width - 1) as u16, ..old(self).position }),
    {
        self.position.col = self.position.col + 1;
        if self.position.col >= screen.width {
            if modes.auto_wrap {
                self.position.col = 0;
                self.position.row = self.position.row + 1;
                if self.position.row >= screen.height {
                    self.position.row = screen.height - 1;
                }
            } else {
                self.position.col = screen.width - 1;
            }
        }
        Ok(())
    }

    /// Line feed: move one row down; from the bottom row the screen scrolls
    /// instead: the top line moves into the scrollback (which may evict its
    /// own oldest line), the rest shift up, and a fresh blank line appears
    /// at the bottom, the whole screen marked dirty.
    pub fn line_feed(
        &mut self,
        screen: &mut ScreenBuffer,
        scrollback: &mut ScrollbackBuffer,
        _modes: &TerminalModes,
    ) -> (r: PaneResult<()>)
        requires
            old(screen).wf(),
            old(scrollback).wf(),
            old(self).position.row < old(screen).height,
        ensures
            r is Ok,
            final(screen).wf(),
            final(scrollback).wf(),
            Cursor::moved_only(*old(self), *final(self)),
            final(self).position.col == old(self).position.col,
            final(screen).width == old(screen).width,
            final(screen).height == old(screen).height,
            old(self).position.row + 1 < old(screen).height ==> {
                &&& final(self).position.row == old(self).position.row + 1
                &&& *final(screen) == *old(screen)
                &&& *final(scrollback) == *old(scrollback)
            },
            old(self).position.row + 1 == old(screen).height ==> {
                &&& final(self).position.row == old(self).position.row
                &&& final(scrollback).lines@ == sb_push(
                    old(scrollback).lines@,
                    old(scrollback).max_lines,
                    old(screen).lines@[0],
                )
                &&& final(scrollback).max_lines == old(scrollback).max_lines
                &&& final(screen).lines@.len() == old(screen).lines@.len()
                &&& forall|i: int|
                    0 <= i < old(screen).lines@.len() - 1 ==> final(screen).lines@[i] == old(
                        screen,
                    ).lines@[i + 1]
                &&& final(screen).lines@.last().cells@ =~= blank_cells(old(screen).width as nat)
                &&& !final(screen).lines@.last().wrapped
                &&& final(screen).dirty_regions.all_dirty
            },
    {
        if self.position.row + 1 >= screen.height {
            let top_line = screen.lines.remove(0);
            scrollback.push_line(top_line);
            screen.lines.push(Line::new(screen.width));
            screen.dirty_regions.mark_all_dirty();
        } else {
            self.position.row = self.position.row + 1;
        }
        Ok(())
    }

    /// Carriage return: back to column zero.
    pub fn carriage_return(&mut self) -> (r: PaneResult<()>)
        ensures
            r is Ok,
            Cursor::moved_only(*old(self), *final(self)),
            final(self).position.row == old(self).position.row,
            final(self).position.col == 0,
    {
        self.position.col = 0;
        Ok(())
    }

    /// Move to the next tab stop after the current column, stopping at the
    /// last column.
    pub fn tab_forward(&mut self, tabs: &TabStops, screen: &ScreenBuffer) -> (r: PaneResult<()>)
        requires
            tabs.spec_stops().len() <= u16::MAX as int,
        ensures
            r is Ok,
            Cursor::moved_only(*old(self), *final(self)),
            final(self).position.row == old(self).position.row,
            final(self).position.col == {
                let stop = TabStops::spec_next_tab_stop(tabs.spec_stops(), old(self).position.col);
                let m: u16 = if screen.width == 0 {
                    0u16
                } else {
                    (screen.width - 1) as u16
                };
                if stop <= m {
                    stop
                } else {
                    m
                }
            },
    {
        let next_tab = tabs.next_tab_stop(self.position.col);
        let max_col: u16 = if screen.width == 0 {
            0
        } else {
            screen.width - 1
        };
        self.position.col = if next_tab <= max_col {
            next_tab
        } else {
            max_col
        };
        Ok(())
    }

    /// Backspace: one column left; at column zero move to the end of the
    /// previous row, if there is one.
    pub fn backspace(&mut self, screen: &ScreenBuffer) -> (r: PaneResult<()>)
        ensures
            r is Ok,
            Cursor::moved_only(*old(self), *final(self)),
            old(self).position.col > 0 ==> final(self).position == (CursorPosition {
                col: (old(self).position.col - 1) as u16,
                ..old(self).position
            }),
            old(self).position.col == 0 && old(self).position.row > 0 ==> final(self).position == (
            CursorPosition {
                row: (old(self).position.row - 1) as u16,
                col: if screen.width == 0 {
                    0u16
                } else {
                    (screen.width - 1) as u16
                },
                ..old(self).position
            }),
            old(self).position.col == 0 && old(self).position.row == 0 ==> final(self).position
                == old(self).position,
    {
        if self.position.col > 0 {
            self.position.col = self.position.col - 1;
        } else if self.position.row > 0 {
            self.position.row = self.position.row - 1;
            self.position.col = if screen.width == 0 {
                0
            } else {
                screen.width - 1
            };
        }
        Ok(())
    }

    /// Push the current position onto the save stack.
    pub fn save_position(&mut self)
        ensures
            final(self).saved_positions@ == old(self).saved_positions@.push(old(self).position),
            final(self).position == old(self).position,
            final(self).style == old(self).style,
            final(self).visibility == old(self).visibility,
            final(self).blink_state == old(self).blink_state,
    {
        self.saved_positions.push(self.position);
    }

    /// Pop the last saved position and restore it, re-clamped into the
    /// current screen size; with nothing saved, nothing changes.
    pub fn restore_position(&mut self, screen: &ScreenBuffer) -> (r: PaneResult<()>)
        ensures
            r is Ok,
            final(self).style == old(self).style,
            final(self).visibility == old(self).visibility,
            final(self).blink_state == old(self).blink_state,
            old(self).saved_positions@.len() == 0 ==> *final(self) == *old(self),
            old(self).saved_positions@.len() > 0 ==> {
                let saved = old(self).saved_positions@.last();
                &&& final(self).saved_positions@ == old(self).saved_positions@.drop_last()
                &&& final(self).position.row == vstd::math::min(
                    saved.row as int,
                    if screen.height == 0 {
                        0int
                    } else {
                        screen.height - 1
                    },
                )
                &&& final(self).position.col == vstd::math::min(
                    saved.col as int,
                    if screen.width == 0 {
                        0int
                    } else {
                        screen.width - 1
                    },
                )
                &&& final(self).position.origin_mode == saved.origin_mode
            },
    {
        if self.saved_positions.len() > 0 {
            let saved_pos = self.saved_positions.pop().unwrap();
            self.position = saved_pos;
            let max_row: u16 = if screen.height == 0 {
                0
            } else {
                screen.height - 1
            };
            let max_col: u16 = if screen.width == 0 {
                0
            } else {
                screen.width - 1
            };
            if self.position.row > max_row {
                self.position.row = max_row;
            }
            if self.position.col > max_col {
                self.position.col = max_col;
            }
        }
        Ok(())
    }

    /// Set cursor visibility.
    pub fn set_visibility(&mut self, visibility: CursorVisibility)
        ensures
            final(self).visibility == visibility,
            final(self).position == old(self).position,
            final(self).style == old(self).style,
            final(self).blink_state == old(self).blink_state,
            final(self).saved_positions == old(self).saved_positions,
    {
        self.visibility = visibility;
    }

    /// Set cursor style.
    pub fn set_style(&mut self, style: CursorStyle)
        ensures
            final(self).style == style,
            final(self).position == old(self).position,
            final(self).visibility == old(self).visibility,
            final(self).blink_state == old(self).blink_state,
            final(self).saved_positions == old(self).saved_positions,
    {
        self.style = style;
    }

    /// Advance the blink state by the elapsed milliseconds: visibility
    /// toggles once the elapsed time reaches the blink interval.
    pub fn update_blink(&mut self, elapsed_ms: u64)
        ensures
            final(self).position == old(self).position,
            final(self).style == old(self).style,
            final(self).visibility == old(self).visibility,
            final(self).saved_positions == old(self).saved_positions,
            final(self).blink_state.spec_interval_ms() == old(self).blink_state.spec_interval_ms(),
            final(self).blink_state.spec_visible() == if elapsed_ms >= old(self).blink_state.spec_interval_ms() {
                !old(self).blink_state.spec_visible()
            } else {
                old(self).blink_state.spec_visible()
            },
    {
        self.blink_state.update(elapsed_ms);
    }

    /// Whether the cursor should be drawn, given visibility and blink phase.
    pub fn should_render(&self) -> (r: bool)
        ensures
            r == match self.visibility {
                CursorVisibility::Hidden => false,
                CursorVisibility::Visible => true,
                CursorVisibility::BlinkingBlock
                | CursorVisibility::BlinkingUnderline
                | CursorVisibility::BlinkingBar => self.blink_state.spec_visible(),
            },
    {
        match self.visibility {
            CursorVisibility::Hidden => false,
            CursorVisibility::Visible => true,
            CursorVisibility::BlinkingBlock
            | CursorVisibility::BlinkingUnderline
            | CursorVisibility::BlinkingBar => self.blink_state.is_visible(),
        }
    }
}

} // verus!
