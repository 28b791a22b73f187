//! Tabs and split layout descriptions for a window.

use vstd::prelude::*;
use crate::sash::ids::PaneId;

verus! {

/// A path to a position inside a layout tree.
#[derive(Debug, Clone, Copy, PartialEq, Eq, Structural)]
pub enum LayoutPath {
    Tab(usize),
    Top,
    Bottom,
    Left,
    Right,
    GridCell(usize, usize),
}

/// A single tab in a tabbed layout.
#[derive(Debug, Clone, PartialEq)]
pub struct Tab {
    pub pane_id: PaneId,
    pub title: String,
    pub closable: bool,
    pub modified: bool,
}

impl Tab {
    /// A new tab starts closable and unmodified.
    pub fn new(pane_id: PaneId, title: String) -> (t: Self)
        ensures
            t.pane_id == pane_id,
            t.title@ == title@,
            t.closable,
            !t.modified,
    {
        Tab { pane_id, title, closable: true, modified: false }
    }
}

/// Direction of a pane split.
#[derive(Debug, Clone, Copy, PartialEq, Eq, Structural)]
pub enum SplitDirection {
    Horizontal,
    Vertical,
}

/// Constraints for split operations.
#[derive(Debug, Clone, Copy, PartialEq, Eq, Structural)]
pub struct SplitConstraints {
    pub min_pane_width: u16,
    pub min_pane_height: u16,
    pub max_split_depth: usize,
}

impl Default for SplitConstraints {
    fn default() -> (c: Self)
        ensures
            c == (SplitConstraints {
                min_pane_width: 20u16,
                min_pane_height: 5u16,
                max_split_depth: 10usize,
            }),
    {
        SplitConstraints { min_pane_width: 20, min_pane_height: 5, max_split_depth: 10 }
    }
}

} // verus!
