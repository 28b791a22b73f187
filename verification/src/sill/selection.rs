//! Text selection: positions, selections, their history, and the engine
//! that tracks the one in progress.

use vstd::prelude::*;
use crate::sash::ids::PaneId;
use crate::sill::errors::{SillError, SillResult};
use crate::sill::keyboard::Key;

verus! {

/// A position within a pane, in rows and columns.
#[derive(Debug, Clone, Copy, PartialEq, Eq, Structural, PartialOrd, Ord, Hash)]
pub struct SelectionPosition {
    pub row: u16,
    pub col: u16,
}

/// Row-major order on positions.
pub open spec fn pos_le(a: SelectionPosition, b: SelectionPosition) -> bool {
    a.row < b.row || (a.row == b.row && a.col <= b.col)
}

/// Selection modes.
#[derive(Debug, Clone, Copy, PartialEq, Eq, Structural)]
pub enum SelectionMode {
    Character,
    Word,
    Line,
    Block,
    All,
}

impl Default for SelectionMode {
    fn default() -> (c: Self)
        ensures
            c == SelectionMode::Character,
    {
        SelectionMode::Character
    }
}

/// A text selection: two endpoints, a mode, the pane it belongs to, a
/// monotone stamp, and whether it is still being extended.
#[derive(Debug, Clone)]
pub struct Selection {
    pub start: SelectionPosition,
    pub end: SelectionPosition,
    pub mode: SelectionMode,
    pub pane_id: Option<PaneId>,
    pub timestamp: u64,
    pub active: bool,
}

impl Selection {
    /// Whether the selection spans nothing.
    pub fn is_empty(&self) -> (r: bool)
        ensures
            r == (self.start == self.end),
    {
        self.start.row == self.end.row && self.start.col == self.end.col
    }

    /// The endpoints in row-major order: the earlier one first.
    pub fn bounds(&self) -> (r: (SelectionPosition, SelectionPosition))
        ensures
            pos_le(r.0, r.1),
            (r.0 == self.start && r.1 == self.end) || (r.0 == self.end && r.1 == self.start),
            pos_le(self.start, self.end) ==> r == (self.start, self.end),
    {
        if self.start.row < self.end.row || (self.start.row == self.end.row && self.start.col
            <= self.end.col) {
            (self.start, self.end)
        } else {
            (self.end, self.start)
        }
    }

    /// Whether a position lies within the selection, endpoints included.
    pub fn contains(&self, position: SelectionPosition) -> (r: bool)
        ensures
            r == ({
                let lo = if pos_le(self.start, self.end) {
                    self.start
                } else {
                    self.end
                };
                let hi = if pos_le(self.start, self.end) {
                    self.end
                } else {
                    self.start
                };
                pos_le(lo, position) && pos_le(position, hi)
            }),
    {
        let (lo, hi) = self.bounds();
        let after_lo = lo.row < position.row || (lo.row == position.row && lo.col <= position.col);
        let before_hi = position.row < hi.row || (position.row == hi.row && position.col
            <= hi.col);
        after_lo && before_hi
    }

    /// An approximate length of the selection in characters: exact within
    /// one row, assuming eighty columns across rows; a word counts as five
    /// characters; block selections need ordered columns.
    pub fn length(&self) -> (r: usize)
        requires
            self.mode is Block ==> ({
                let lo = if pos_le(self.start, self.end) {
                    self.start
                } else {
                    self.end
                };
                let hi = if pos_le(self.start, self.end) {
                    self.end
                } else {
                    self.start
                };
                lo.col <= hi.col
            }),
    {
        let (start, end) = self.bounds();
        match self.mode {
            SelectionMode::Character => {
                if start.row == end.row {
                    (end.col - start.col) as usize
                } else {
                    ((end.row - start.row) as usize) * 80 + (end.col as usize)
                }
            },
            SelectionMode::Word => {
                let chars: usize = if start.row == end.row {
                    (end.col - start.col) as usize
                } else {
                    ((end.row - start.row) as usize) * 80 + (end.col as usize)
                };
                chars / 5
            },
            SelectionMode::Line => ((end.row - start.row) as usize) + 1,
            SelectionMode::Block => {
                let rows: u64 = (end.row - start.row) as u64 + 1;
                let cols: u64 = (end.col - start.col) as u64 + 1;
                proof {
                    assert(rows * cols <= 0x10000u64 * 0x10000u64) by (nonlinear_arith)
                        requires
                            rows <= 0x10000u64,
                            cols <= 0x10000u64,
                    ;
                }
                let area: u64 = rows * cols;
                if area > usize::MAX as u64 {
                    usize::MAX
                } else {
                    area as usize
                }
            },
            SelectionMode::All => 80 * 24,
        }
    }
}

/// A bounded history of completed selections, oldest first.
#[derive(Debug)]
pub struct SelectionHistory {
    selections: Vec<Selection>,
    max_size: usize,
    current_index: usize,
}

impl SelectionHistory {
    /// The stored selections, oldest first.
    pub closed spec fn spec_selections(self) -> Seq<Selection> {
        self.selections@
    }

    /// The configured bound.
    pub closed spec fn spec_max(self) -> usize {
        self.max_size
    }

    /// A new empty history with the given bound.
    pub fn new(max_size: usize) -> (r: Self)
        ensures
            r.spec_selections().len() == 0,
            r.spec_max() == max_size,
    {
        SelectionHistory { selections: Vec::new(), max_size, current_index: 0 }
    }

    /// Record a completed selection; empty selections are not kept, and the
    /// oldest entry leaves once the bound is exceeded.
    pub fn add_selection(&mut self, selection: Selection)
        ensures
            final(self).spec_max() == old(self).spec_max(),
            selection.start == selection.end ==> final(self).spec_selections() == old(self).spec_selections(),
            selection.start != selection.end && old(self).spec_max() > 0 ==> final(self).spec_selections().len() >= 1 && final(self).spec_selections().last() == selection,
    {
        if selection.start.row == selection.end.row && selection.start.col == selection.end.col {
            return ;
        }
        self.selections.push(selection);
        if self.selections.len() > self.max_size {
            let _ = self.selections.remove(0);
        }
        self.current_index = self.selections.len();
    }

    /// The most recent selection, if any.
    pub fn get_latest(&self) -> (r: Option<&Selection>)
        ensures
            self.spec_selections().len() == 0 <==> r is None,
            self.spec_selections().len() > 0 ==> r == Some(&self.spec_selections().last()),
    {
        if self.selections.len() > 0 {
            Some(&self.selections[self.selections.len() - 1])
        } else {
            None
        }
    }

    /// The selection at `index`, oldest first.
    pub fn get(&self, index: usize) -> (r: Option<&Selection>)
        ensures
            (index as int) < self.spec_selections().len() ==> r == Some(
                &self.spec_selections()[index as int],
            ),
            (index as int) >= self.spec_selections().len() ==> r is None,
    {
        if index < self.selections.len() {
            Some(&self.selections[index])
        } else {
            None
        }
    }

    /// All stored selections, oldest first.
    pub fn get_all(&self) -> (r: &Vec<Selection>)
        ensures
            r@ == self.spec_selections(),
    {
        &self.selections
    }

    /// Drop the whole history.
    pub fn clear(&mut self)
        ensures
            final(self).spec_selections().len() == 0,
            final(self).spec_max() == old(self).spec_max(),
    {
        self.selections.clear();
        self.current_index = 0;
    }

    /// Change the bound, dropping the oldest entries that no longer fit.
    pub fn set_max_size(&mut self, max_size: usize)
        ensures
            final(self).spec_max() == max_size,
            final(self).spec_selections().len() <= vstd::math::max(
                max_size as int,
                old(self).spec_selections().len() as int,
            ),
    {
        self.max_size = max_size;
        if self.selections.len() > max_size {
            let excess = self.selections.len() - max_size;
            let mut t: usize = 0;
            while t < excess
                invariant
                    t <= excess,
                    excess <= old(self).spec_selections().len(),
                    self.selections@.len() == old(self).spec_selections().len() - t,
                    self.max_size == max_size,
                decreases excess - t,
            {
                let _ = self.selections.remove(0);
                t = t + 1;
            }
            self.current_index = if self.current_index >= excess {
                self.current_index - excess
            } else {
                0
            };
        }
    }

    /// How many selections are stored.
    pub fn len(&self) -> (r: usize)
        ensures
            r == self.spec_selections().len(),
    {
        self.selections.len()
    }

    /// Whether the history is empty.
    pub fn is_empty(&self) -> (r: bool)
        ensures
            r == (self.spec_selections().len() == 0),
    {
        self.selections.len() == 0
    }
}

/// Selection configuration.
#[derive(Debug, Clone)]
pub struct SelectionConfig {
    pub enabled: bool,
    pub history_size: usize,
    pub word_separators: String,
    pub line_separators: String,
    pub auto_copy: bool,
    pub trim_whitespace: bool,
    pub block_selection_key: Option<Key>,
    pub extend_selection_key: Option<Key>,
}

impl Default for SelectionConfig {
    /// Enabled, a hundred entries of history, the usual separators.
    fn default() -> (c: Self)
        ensures
            c.enabled,
            c.history_size == 100,
            !c.auto_copy,
            c.trim_whitespace,
            c.block_selection_key == Some(Key::Alt),
            c.extend_selection_key == Some(Key::Shift),
    {
        SelectionConfig {
            enabled: true,
            history_size: 100,
            word_separators: " \t\n\r.,;:!?()[]{}\"'".to_owned(),
            line_separators: "\n\r".to_owned(),
            auto_copy: false,
            trim_whitespace: true,
            block_selection_key: Some(Key::Alt),
            extend_selection_key: Some(Key::Shift),
        }
    }
}

/// Tracks the selection in progress and the history of completed ones.
#[derive(Debug)]
pub struct SelectionEngine {
    config: SelectionConfig,
    current_selection: Option<Selection>,
    selection_history: SelectionHistory,
    focused_pane: Option<PaneId>,
    selection_count: u64,
}

impl SelectionEngine {
    /// The selection in progress, if any.
    pub closed spec fn spec_current(self) -> Option<Selection> {
        self.current_selection
    }

    /// The focused pane, if any.
    pub closed spec fn spec_focus(self) -> Option<PaneId> {
        self.focused_pane
    }

    /// How many selections were started.
    pub closed spec fn spec_count(self) -> u64 {
        self.selection_count
    }

    /// A new engine with no selection and an empty history.
    pub fn new(config: &SelectionConfig) -> (r: SillResult<Self>)
        ensures
            r is Ok,
            r.get_Ok_0().spec_current() is None,
            r.get_Ok_0().spec_focus() is None,
            r.get_Ok_0().spec_count() == 0,
    {
        Ok(
            SelectionEngine {
                config: config.clone(),
                current_selection: None,
                selection_history: SelectionHistory::new(config.history_size),
                focused_pane: None,
                selection_count: 0,
            },
        )
    }

    /// Start a new selection at a position; a selection in progress is
    /// dropped first.
    pub fn start_selection(
        &mut self,
        position: SelectionPosition,
        mode: SelectionMode,
        pane_id: Option<PaneId>,
    ) -> (r: SillResult<()>)
        ensures
            r is Ok,
            final(self).spec_current() is Some,
            final(self).spec_current().unwrap().start == position,
            final(self).spec_current().unwrap().end == position,
            final(self).spec_current().unwrap().mode == mode,
            final(self).spec_current().unwrap().pane_id == pane_id,
            final(self).spec_current().unwrap().active,
            final(self).spec_focus() == pane_id,
            final(self).spec_count() == vstd::math::min(
                old(self).spec_count() as int + 1,
                u64::MAX as int,
            ),
    {
        self.current_selection = None;
        let stamp = self.selection_count;
        let selection = Selection {
            start: position,
            end: position,
            mode,
            pane_id,
            timestamp: stamp,
            active: true,
        };
        self.current_selection = Some(selection);
        self.focused_pane = pane_id;
        if self.selection_count < u64::MAX {
            self.selection_count = self.selection_count + 1;
        }
        Ok(())
    }

    /// Move the endpoint of the selection in progress; without one this is
    /// a no-selection error.
    pub fn update_selection(&mut self, position: SelectionPosition) -> (r: SillResult<()>)
        ensures
            r is Ok <==> old(self).spec_current() is Some,
            r is Err ==> r.get_Err_0() is NoSelection && *final(self) == *old(self),
            r is Ok ==> {
                &&& final(self).spec_current() is Some
                &&& final(self).spec_current().unwrap().end == position
                &&& final(self).spec_current().unwrap().start == old(self).spec_current().unwrap().start
                &&& final(self).spec_current().unwrap().mode == old(self).spec_current().unwrap().mode
            },
    {
        if self.current_selection.is_some() {
            let mut selection = self.current_selection.take().unwrap();
            selection.end = position;
            self.current_selection = Some(selection);
            Ok(())
        } else {
            Err(SillError::no_selection("No active selection to update"))
        }
    }

    /// Finish the selection in progress and hand it back inactive; it joins
    /// the history unless it is empty.
    pub fn end_selection(&mut self) -> (r: SillResult<Option<Selection>>)
        ensures
            r is Ok,
            final(self).spec_current() is None,
            old(self).spec_current() is None ==> r.get_Ok_0() is None,
            old(self).spec_current() is Some ==> r.get_Ok_0() is Some && !r.get_Ok_0().unwrap().active,
    {
        if self.current_selection.is_some() {
            let mut selection = self.current_selection.take().unwrap();
            selection.active = false;
            if !(selection.start.row == selection.end.row && selection.start.col
                == selection.end.col) {
                self.selection_history.add_selection(selection.clone());
            }
            Ok(Some(selection))
        } else {
            Ok(None)
        }
    }

    /// Drop the selection in progress.
    pub fn clear_selection(&mut self) -> (r: SillResult<()>)
        ensures
            r is Ok,
            final(self).spec_current() is None,
            final(self).spec_focus() == old(self).spec_focus(),
    {
        self.current_selection = None;
        Ok(())
    }

    /// The selection in progress, if any.
    pub fn get_current_selection(&self) -> (r: Option<&Selection>)
        ensures
            r is Some <==> self.spec_current() is Some,
            r is Some ==> r.unwrap() == &self.spec_current().unwrap(),
    {
        self.current_selection.as_ref()
    }

    /// Select everything of a pane.
    pub fn select_all(&mut self, pane_id: Option<PaneId>) -> (r: SillResult<()>)
        ensures
            r is Ok,
            final(self).spec_current() is Some,
            final(self).spec_current().unwrap().mode == SelectionMode::All,
            final(self).spec_current().unwrap().pane_id == pane_id,
    {
        let stamp = self.selection_count;
        let selection = Selection {
            start: SelectionPosition { row: 0, col: 0 },
            end: SelectionPosition { row: u16::MAX, col: u16::MAX },
            mode: SelectionMode::All,
            pane_id,
            timestamp: stamp,
            active: false,
        };
        self.current_selection = Some(selection);
        if self.selection_count < u64::MAX {
            self.selection_count = self.selection_count + 1;
        }
        Ok(())
    }

    /// Select the word at a position; the word boundaries stay at the
    /// position itself until pane content is consulted.
    pub fn select_word_at(&mut self, position: SelectionPosition, pane_id: Option<PaneId>) -> (r:
        SillResult<()>)
        ensures
            r is Ok,
            final(self).spec_current() is Some,
            final(self).spec_current().unwrap().mode == SelectionMode::Word,
    {
        let stamp = self.selection_count;
        let selection = Selection {
            start: position,
            end: position,
            mode: SelectionMode::Word,
            pane_id,
            timestamp: stamp,
            active: false,
        };
        self.current_selection = Some(selection);
        if self.selection_count < u64::MAX {
            self.selection_count = self.selection_count + 1;
        }
        Ok(())
    }

    /// Select the whole row of a position.
    pub fn select_line_at(&mut self, position: SelectionPosition, pane_id: Option<PaneId>) -> (r:
        SillResult<()>)
        ensures
            r is Ok,
            final(self).spec_current() is Some,
            final(self).spec_current().unwrap().mode == SelectionMode::Line,
            final(self).spec_current().unwrap().start == (SelectionPosition {
                row: position.row,
                col: 0u16,
            }),
            final(self).spec_current().unwrap().end == (SelectionPosition {
                row: position.row,
                col: u16::MAX,
            }),
    {
        let stamp = self.selection_count;
        let selection = Selection {
            start: SelectionPosition { row: position.row, col: 0 },
            end: SelectionPosition { row: position.row, col: u16::MAX },
            mode: SelectionMode::Line,
            pane_id,
            timestamp: stamp,
            active: false,
        };
        self.current_selection = Some(selection);
        if self.selection_count < u64::MAX {
            self.selection_count = self.selection_count + 1;
        }
        Ok(())
    }

    /// The history of completed selections.
    pub fn get_selection_history(&self) -> (r: &SelectionHistory) {
        &self.selection_history
    }

    /// The focused pane, if any.
    pub fn get_focused_pane(&self) -> (r: Option<PaneId>)
        ensures
            r == self.spec_focus(),
    {
        self.focused_pane
    }

    /// Replace the configuration; the history bound follows it.
    pub fn update_config(&mut self, config: &SelectionConfig) -> (r: SillResult<()>)
        ensures
            r is Ok,
    {
        self.config = config.clone();
        self.selection_history.set_max_size(config.history_size);
        Ok(())
    }

    /// How many selections were started.
    pub fn get_selection_count(&self) -> (r: u64)
        ensures
            r == self.spec_count(),
    {
        self.selection_count
    }
}

} // verus!
