//! Tab management within a window.

use vstd::prelude::*;
use crate::sash::errors::{SashError, SashResult};
use crate::sash::ids::PaneId;
use crate::sash::layout::Tab;

verus! {

/// Tab width configuration.
#[derive(Debug, Clone, Copy, PartialEq, Eq, Structural)]
pub enum TabWidth {
    Fixed(u16),
    Adaptive { min: u16, max: u16 },
    Flexible,
}

/// Where a new tab is inserted.
#[derive(Debug, Clone, Copy, PartialEq, Eq, Structural)]
pub enum NewTabPosition {
    End,
    AfterCurrent,
    Beginning,
}

/// Configuration for tab behavior.
#[derive(Debug, Clone)]
pub struct TabConfig {
    pub max_tabs: Option<usize>,
    pub allow_no_tabs: bool,
    pub auto_close_empty: bool,
    pub confirm_close_modified: bool,
    pub tab_width: TabWidth,
    pub new_tab_position: NewTabPosition,
}

impl Default for TabConfig {
    fn default() -> (c: Self)
        ensures
            c.max_tabs is None,
            !c.allow_no_tabs,
            c.confirm_close_modified,
            c.new_tab_position == NewTabPosition::AfterCurrent,
    {
        TabConfig {
            max_tabs: None,
            allow_no_tabs: false,
            auto_close_empty: false,
            confirm_close_modified: true,
            tab_width: TabWidth::Adaptive { min: 100, max: 300 },
            new_tab_position: NewTabPosition::AfterCurrent,
        }
    }
}

/// Manages the ordered tabs of a window and which of them is active.
pub struct TabManager {
    tabs: Vec<Tab>,
    active_tab: Option<usize>,
    next_tab_id: u64,
    tab_config: TabConfig,
}

impl TabManager {
    /// The active index, if set, points at an existing tab.
    pub closed spec fn wf(self) -> bool {
        self.active_tab is Some ==> self.active_tab.unwrap() < self.tabs@.len()
    }

    /// The tabs in order.
    pub closed spec fn spec_tabs(self) -> Seq<Tab> {
        self.tabs@
    }

    /// The active tab index.
    pub closed spec fn spec_active(self) -> Option<usize> {
        self.active_tab
    }

    /// Create a new tab manager with no tabs.
    pub fn new(config: TabConfig) -> (r: Self)
        ensures
            r.wf(),
            r.spec_tabs().len() == 0,
            r.spec_active() is None,
    {
        TabManager { tabs: Vec::new(), active_tab: None, next_tab_id: 1, tab_config: config }
    }

    /// Add a new tab at the configured position; the first tab becomes
    /// active.  Fails only when the configured tab limit is reached.
    pub fn add_tab(&mut self, pane_id: PaneId, title: String) -> (r: SashResult<usize>)
        requires
            old(self).wf(),
        ensures
            final(self).wf(),
            r is Ok ==> {
                &&& final(self).spec_tabs().len() == old(self).spec_tabs().len() + 1
                &&& r.get_Ok_0() <= old(self).spec_tabs().len()
                &&& final(self).spec_tabs()[r.get_Ok_0() as int].pane_id == pane_id
                &&& final(self).spec_active() is Some
            },
            r is Err ==> {
                &&& r.get_Err_0() is MaxTabsExceeded
                &&& *final(self) == *old(self)
            },
    {
        if let Some(max_tabs) = self.tab_config.max_tabs {
            if self.tabs.len() >= max_tabs {
                return Err(SashError::MaxTabsExceeded(max_tabs));
            }
        }
        let tab = Tab::new(pane_id, title);
        let tab_count = self.tabs.len();
        let new_index: usize = match self.tab_config.new_tab_position {
            NewTabPosition::End => tab_count,
            NewTabPosition::AfterCurrent => {
                match self.active_tab {
                    Some(current) => current + 1,
                    None => tab_count,
                }
            },
            NewTabPosition::Beginning => 0,
        };
        self.tabs.insert(new_index, tab);
        if self.active_tab.is_none() {
            self.active_tab = Some(new_index);
        } else if matches!(self.tab_config.new_tab_position, NewTabPosition::AfterCurrent) {
            if let Some(active) = self.active_tab {
                if new_index <= active {
                    self.active_tab = Some(active + 1);
                }
            }
        }
        Ok(new_index)
    }

    /// Remove the tab at `index` and hand back its pane.  Refused for an
    /// index out of range, for the last tab where the configuration keeps
    /// one open, and for a modified tab where closing needs confirmation.
    pub fn remove_tab(&mut self, index: usize) -> (r: SashResult<PaneId>)
        requires
            old(self).wf(),
        ensures
            final(self).wf(),
            index >= old(self).spec_tabs().len() ==> r is Err && *final(self) == *old(self),
            r is Ok ==> {
                &&& index < old(self).spec_tabs().len()
                &&& r.get_Ok_0() == old(self).spec_tabs()[index as int].pane_id
                &&& final(self).spec_tabs().len() == old(self).spec_tabs().len() - 1
                &&& final(self).spec_tabs() == old(self).spec_tabs().remove(index as int)
            },
    {
        if index >= self.tabs.len() {
            return Err(SashError::TabNotFound(index));
        }
        if self.tabs.len() == 1 && !self.tab_config.allow_no_tabs {
            return Err(SashError::CannotCloseLastTab);
        }
        if self.tabs[index].modified && self.tab_config.confirm_close_modified {
            return Err(SashError::TabOperationFailed(
                "Cannot close modified tab without confirmation".to_owned(),
            ));
        }
        let removed_tab = self.tabs.remove(index);
        if let Some(active) = self.active_tab {
            if index == active {
                if self.tabs.len() == 0 {
                    self.active_tab = None;
                } else if index >= self.tabs.len() {
                    self.active_tab = Some(self.tabs.len() - 1);
                } else {
                    self.active_tab = Some(index);
                }
            } else if index < active {
                self.active_tab = Some(active - 1);
            }
        }
        Ok(removed_tab.pane_id)
    }

    /// Make the tab at `index` active; refused for an index out of range.
    pub fn set_active_tab(&mut self, index: usize) -> (r: SashResult<()>)
        requires
            old(self).wf(),
        ensures
            final(self).wf(),
            final(self).spec_tabs() == old(self).spec_tabs(),
            r is Ok <==> index < old(self).spec_tabs().len(),
            r is Ok ==> final(self).spec_active() == Some(index),
            r is Err ==> *final(self) == *old(self),
    {
        if index >= self.tabs.len() {
            return Err(SashError::TabNotFound(index));
        }
        self.active_tab = Some(index);
        Ok(())
    }

    /// Move a tab from one position to another, keeping the active tab the
    /// same tab as before.
    pub fn move_tab(&mut self, from: usize, to: usize) -> (r: SashResult<()>)
        requires
            old(self).wf(),
        ensures
            final(self).wf(),
            final(self).spec_tabs().len() == old(self).spec_tabs().len(),
            r is Err ==> *final(self) == *old(self),
            r is Ok <==> (from < old(self).spec_tabs().len() && to <= old(self).spec_tabs().len()),
    {
        if from >= self.tabs.len() {
            return Err(SashError::TabNotFound(from));
        }
        if to > self.tabs.len() {
            return Err(SashError::TabNotFound(to));
        }
        if from == to {
            return Ok(());
        }
        let tab = self.tabs.remove(from);
        let insert_pos: usize = if from < to { to - 1 } else { to };
        self.tabs.insert(insert_pos, tab);
        if let Some(active) = self.active_tab {
            if active == from {
                self.active_tab = Some(insert_pos);
            } else if from < active && insert_pos >= active {
                self.active_tab = Some(active - 1);
            } else if from > active && insert_pos <= active {
                self.active_tab = Some(active + 1);
            }
        }
        Ok(())
    }

    /// The pane shown by the active tab, if any.
    pub fn get_active_pane(&self) -> (r: Option<PaneId>)
        requires
            self.wf(),
        ensures
            r is Some <==> self.spec_active() is Some,
            r is Some ==> r.unwrap() == self.spec_tabs()[self.spec_active().unwrap() as int].pane_id,
    {
        match self.active_tab {
            Some(idx) => Some(self.tabs[idx].pane_id),
            None => None,
        }
    }

    /// Retitle the tab at `index`.
    pub fn update_tab_title(&mut self, index: usize, title: String) -> (r: SashResult<()>)
        requires
            old(self).wf(),
        ensures
            final(self).wf(),
            r is Ok <==> index < old(self).spec_tabs().len(),
            r is Ok ==> final(self).spec_tabs()[index as int].title == title
                && final(self).spec_tabs().len() == old(self).spec_tabs().len(),
            r is Err ==> *final(self) == *old(self),
    {
        if index < self.tabs.len() {
            let pane_id = self.tabs[index].pane_id;
            let closable = self.tabs[index].closable;
            let modified = self.tabs[index].modified;
            self.tabs.set(index, Tab { pane_id, title, closable, modified });
            Ok(())
        } else {
            Err(SashError::TabNotFound(index))
        }
    }

    /// Mark the tab at `index` as modified or not.
    pub fn set_tab_modified(&mut self, index: usize, modified: bool) -> (r: SashResult<()>)
        requires
            old(self).wf(),
        ensures
            final(self).wf(),
            r is Ok <==> index < old(self).spec_tabs().len(),
            r is Ok ==> final(self).spec_tabs()[index as int].modified == modified,
            r is Err ==> *final(self) == *old(self),
    {
        if index < self.tabs.len() {
            let pane_id = self.tabs[index].pane_id;
            let closable = self.tabs[index].closable;
            let title = self.tabs[index].title.clone();
            self.tabs.set(index, Tab { pane_id, title, closable, modified });
            Ok(())
        } else {
            Err(SashError::TabNotFound(index))
        }
    }

    /// The number of tabs.
    pub fn tab_count(&self) -> (r: usize)
        ensures
            r == self.spec_tabs().len(),
    {
        self.tabs.len()
    }

    /// The active tab index.
    pub fn active_tab_index(&self) -> (r: Option<usize>)
        ensures
            r == self.spec_active(),
    {
        self.active_tab
    }

    /// All tabs in order.
    pub fn tabs(&self) -> (r: &Vec<Tab>)
        ensures
            r@ == self.spec_tabs(),
    {
        &self.tabs
    }

    /// Step the active tab forward, wrapping at the end; with no active tab
    /// the first becomes active.  Fails only with no tabs at all.
    pub fn next_tab(&mut self) -> (r: SashResult<()>)
        requires
            old(self).wf(),
        ensures
            final(self).wf(),
            final(self).spec_tabs() == old(self).spec_tabs(),
            r is Ok <==> old(self).spec_tabs().len() > 0,
            r is Ok ==> final(self).spec_active() == Some(
                match old(self).spec_active() {
                    Some(current) => ((current + 1) as int % old(self).spec_tabs().len() as int) as usize,
                    None => 0usize,
                },
            ),
    {
        if self.tabs.len() == 0 {
            return Err(SashError::NoActiveTab);
        }
        match self.active_tab {
            Some(current) => {
                let next = (current + 1) % self.tabs.len();
                self.active_tab = Some(next);
            },
            None => {
                self.active_tab = Some(0);
            },
        }
        Ok(())
    }

    /// Step the active tab backward, wrapping at the beginning; with no
    /// active tab the last becomes active.  Fails only with no tabs at all.
    pub fn previous_tab(&mut self) -> (r: SashResult<()>)
        requires
            old(self).wf(),
        ensures
            final(self).wf(),
            final(self).spec_tabs() == old(self).spec_tabs(),
            r is Ok <==> old(self).spec_tabs().len() > 0,
            r is Ok ==> final(self).spec_active() == Some(
                match old(self).spec_active() {
                    Some(current) => if current == 0 {
                        (old(self).spec_tabs().len() - 1) as usize
                    } else {
                        (current - 1) as usize
                    },
                    None => (old(self).spec_tabs().len() - 1) as usize,
                },
            ),
    {
        if self.tabs.len() == 0 {
            return Err(SashError::NoActiveTab);
        }
        match self.active_tab {
            Some(current) => {
                let prev = if current == 0 {
                    self.tabs.len() - 1
                } else {
                    current - 1
                };
                self.active_tab = Some(prev);
            },
            None => {
                self.active_tab = Some(self.tabs.len() - 1);
            },
        }
        Ok(())
    }
}

} // verus!
