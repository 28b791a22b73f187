//! The commands that processed input turns into, their targets and
//! priorities, command results, event filtering and focus tracking.

use vstd::prelude::*;
use vstd::string::StrSliceExecFns;
use crate::sash::ids::PaneId;
use crate::pane::cursor::CursorPosition;
use crate::sill::input::InputMode;
use crate::sill::keyboard::{Key, KeyEvent, Modifiers};
use crate::sill::mouse::MouseButton;
use crate::sill::selection::{Selection, SelectionMode, SelectionPosition};

verus! {

/// Command target specification.
#[derive(Debug, Clone, Copy, PartialEq, Eq, Structural)]
pub enum CommandTarget {
    /// The currently focused pane.
    ActivePane,
    /// One specific pane.
    Pane(PaneId),
    /// Every pane.
    AllPanes,
    /// No pane: a global command.
    Global,
}

impl Default for CommandTarget {
    fn default() -> (c: Self)
        ensures
            c == CommandTarget::ActivePane,
    {
        CommandTarget::ActivePane
    }
}

/// Cursor movement directions.
#[derive(Debug, Clone, Copy, PartialEq, Eq, Structural)]
pub enum CursorDirection {
    Up,
    Down,
    Left,
    Right,
    Home,
    End,
    WordLeft,
    WordRight,
    LineStart,
    LineEnd,
    PageUp,
    PageDown,
    DocumentStart,
    DocumentEnd,
}

/// Scroll directions.
#[derive(Debug, Clone, Copy, PartialEq, Eq, Structural)]
pub enum ScrollDirection {
    Up,
    Down,
    Left,
    Right,
    PageUp,
    PageDown,
    Home,
    End,
}

/// Split directions for pane splitting.
#[derive(Debug, Clone, Copy, PartialEq, Eq, Structural)]
pub enum SplitDirection {
    Horizontal,
    Vertical,
}

/// Resize directions for pane resizing.
#[derive(Debug, Clone, Copy, PartialEq, Eq, Structural)]
pub enum ResizeDirection {
    Up,
    Down,
    Left,
    Right,
}

/// Input commands generated from processed input events.
#[derive(Debug, Clone)]
pub enum InputCommand {
    InsertText { text: String, target: CommandTarget },
    MoveCursor { direction: CursorDirection, amount: u16, target: CommandTarget },
    Scroll { direction: ScrollDirection, amount: usize, target: CommandTarget },
    StartSelection { position: SelectionPosition, mode: SelectionMode, target: CommandTarget },
    UpdateSelection { position: SelectionPosition, target: CommandTarget },
    EndSelection { target: CommandTarget },
    ClearSelection { target: CommandTarget },
    Copy { target: CommandTarget },
    Paste { target: CommandTarget },
    Cut { target: CommandTarget },
    SendSequence { sequence: String, target: CommandTarget },
    SetMode { mode: InputMode, target: CommandTarget },
    SplitPane { direction: SplitDirection, target: CommandTarget },
    ClosePane { target: CommandTarget },
    FocusPane { target: CommandTarget },
    ResizePane { direction: ResizeDirection, amount: i16, target: CommandTarget },
    Quit,
    NewWindow,
    ToggleFullscreen,
    ShowHelp,
    ReloadConfig,
    ChangeTheme { theme_name: String },
    DebugDump { component: String },
    Custom { name: String, args: Vec<String>, target: CommandTarget },
}

impl InputCommand {
    /// The target this command carries; commands without one are global.
    pub open spec fn spec_target(self) -> CommandTarget {
        match self {
            InputCommand::InsertText { target, .. } => target,
            InputCommand::MoveCursor { target, .. } => target,
            InputCommand::Scroll { target, .. } => target,
            InputCommand::StartSelection { target, .. } => target,
            InputCommand::UpdateSelection { target, .. } => target,
            InputCommand::EndSelection { target } => target,
            InputCommand::ClearSelection { target } => target,
            InputCommand::Copy { target } => target,
            InputCommand::Paste { target } => target,
            InputCommand::Cut { target } => target,
            InputCommand::SendSequence { target, .. } => target,
            InputCommand::SetMode { target, .. } => target,
            InputCommand::SplitPane { target, .. } => target,
            InputCommand::ClosePane { target } => target,
            InputCommand::FocusPane { target } => target,
            InputCommand::ResizePane { target, .. } => target,
            InputCommand::Custom { target, .. } => target,
            _ => CommandTarget::Global,
        }
    }

    /// The priority of each command kind; higher runs first.
    pub open spec fn spec_priority(self) -> u8 {
        match self {
            InputCommand::Quit => 255,
            InputCommand::InsertText { .. } => 200,
            InputCommand::MoveCursor { .. } => 180,
            InputCommand::SendSequence { .. } => 180,
            InputCommand::Copy { .. } | InputCommand::Paste { .. } | InputCommand::Cut { .. } => 150,
            InputCommand::StartSelection { .. } | InputCommand::UpdateSelection { .. }
                | InputCommand::EndSelection { .. } => 140,
            InputCommand::Scroll { .. } => 120,
            InputCommand::SetMode { .. } => 100,
            InputCommand::FocusPane { .. } => 90,
            InputCommand::SplitPane { .. } | InputCommand::ClosePane { .. }
                | InputCommand::ResizePane { .. } => 80,
            InputCommand::ChangeTheme { .. } => 70,
            InputCommand::ReloadConfig => 60,
            InputCommand::NewWindow | InputCommand::ToggleFullscreen => 50,
            InputCommand::ShowHelp => 40,
            InputCommand::DebugDump { .. } => 30,
            InputCommand::Custom { .. } => 20,
            InputCommand::ClearSelection { .. } => 10,
        }
    }

    /// Whether the command needs a focused pane to act on.
    pub open spec fn spec_requires_focus(self) -> bool {
        self is InsertText || self is MoveCursor || self is SendSequence || self is StartSelection
            || self is UpdateSelection || self is EndSelection || self is Copy || self is Paste
            || self is Cut || self is Scroll
    }

    /// The target of this command.
    pub fn target(&self) -> (r: &CommandTarget)
        ensures
            *r == self.spec_target(),
    {
        match self {
            InputCommand::InsertText { target, .. } => target,
            InputCommand::MoveCursor { target, .. } => target,
            InputCommand::Scroll { target, .. } => target,
            InputCommand::StartSelection { target, .. } => target,
            InputCommand::UpdateSelection { target, .. } => target,
            InputCommand::EndSelection { target } => target,
            InputCommand::ClearSelection { target } => target,
            InputCommand::Copy { target } => target,
            InputCommand::Paste { target } => target,
            InputCommand::Cut { target } => target,
            InputCommand::SendSequence { target, .. } => target,
            InputCommand::SetMode { target, .. } => target,
            InputCommand::SplitPane { target, .. } => target,
            InputCommand::ClosePane { target } => target,
            InputCommand::FocusPane { target } => target,
            InputCommand::ResizePane { target, .. } => target,
            InputCommand::Custom { target, .. } => target,
            _ => &CommandTarget::Global,
        }
    }

    /// The command's priority; higher runs first.
    pub fn priority(&self) -> (r: u8)
        ensures
            r == self.spec_priority(),
    {
        match self {
            InputCommand::Quit => 255,
            InputCommand::InsertText { .. } => 200,
            InputCommand::MoveCursor { .. } => 180,
            InputCommand::SendSequence { .. } => 180,
            InputCommand::Copy { .. } | InputCommand::Paste { .. } | InputCommand::Cut { .. } => 150,
            InputCommand::StartSelection { .. } | InputCommand::UpdateSelection { .. }
                | InputCommand::EndSelection { .. } => 140,
            InputCommand::Scroll { .. } => 120,
            InputCommand::SetMode { .. } => 100,
            InputCommand::FocusPane { .. } => 90,
            InputCommand::SplitPane { .. } | InputCommand::ClosePane { .. }
                | InputCommand::ResizePane { .. } => 80,
            InputCommand::ChangeTheme { .. } => 70,
            InputCommand::ReloadConfig => 60,
            InputCommand::NewWindow | InputCommand::ToggleFullscreen => 50,
            InputCommand::ShowHelp => 40,
            InputCommand::DebugDump { .. } => 30,
            InputCommand::Custom { .. } => 20,
            InputCommand::ClearSelection { .. } => 10,
        }
    }

    /// Whether this command needs a focused pane to act on.
    pub fn requires_focus(&self) -> (r: bool)
        ensures
            r == self.spec_requires_focus(),
    {
        matches!(
            self,
            InputCommand::InsertText { .. } | InputCommand::MoveCursor { .. }
                | InputCommand::SendSequence { .. } | InputCommand::StartSelection { .. }
                | InputCommand::UpdateSelection { .. } | InputCommand::EndSelection { .. }
                | InputCommand::Copy { .. } | InputCommand::Paste { .. } | InputCommand::Cut {
                ..
            } | InputCommand::Scroll { .. }
        )
    }

    /// An estimate of the execution time, in microseconds: text insertion
    /// scales with its length, and the heavyweight commands carry fixed
    /// estimates.
    pub fn estimated_duration(&self) -> (r: u64)
        ensures
            self is Paste ==> r == 5000,
            self is Scroll ==> r == 2000,
            self is ChangeTheme ==> r == 50000,
            self is ReloadConfig ==> r == 100000,
    {
        match self {
            InputCommand::InsertText { text, .. } => {
                let n = text.as_str().unicode_len();
                if n as u64 <= u64::MAX / 10 {
                    n as u64 * 10
                } else {
                    u64::MAX
                }
            },
            InputCommand::Paste { .. } => 5000,
            InputCommand::Scroll { .. } => 2000,
            InputCommand::ChangeTheme { .. } => 50000,
            InputCommand::ReloadConfig => 100000,
            _ => 100,
        }
    }
}

/// Side effects a command execution can report.
#[derive(Debug, Clone)]
pub enum SideEffect {
    CursorMoved { old_position: CursorPosition, new_position: CursorPosition },
    SelectionChanged { old_selection: Option<Selection>, new_selection: Option<Selection> },
    ScreenChanged { pane_id: PaneId, regions: Vec<String> },
    FocusChanged { old_focus: Option<PaneId>, new_focus: Option<PaneId> },
    ModeChanged { old_mode: InputMode, new_mode: InputMode },
    ConfigChanged { component: String },
    CommandGenerated { command: InputCommand },
}

/// The outcome of one command execution, with its duration in
/// microseconds.
#[derive(Debug, Clone)]
pub struct CommandResult {
    pub success: bool,
    pub message: Option<String>,
    pub duration_us: u64,
    pub side_effects: Vec<SideEffect>,
}

impl CommandResult {
    /// A bare success.
    pub fn success() -> (r: Self)
        ensures
            r.success,
            r.message is None,
            r.duration_us == 0,
            r.side_effects@.len() == 0,
    {
        CommandResult { success: true, message: None, duration_us: 0, side_effects: Vec::new() }
    }

    /// A success with a message.
    pub fn success_with_message(message: String) -> (r: Self)
        ensures
            r.success,
            r.message == Some(message),
            r.duration_us == 0,
            r.side_effects@.len() == 0,
    {
        CommandResult {
            success: true,
            message: Some(message),
            duration_us: 0,
            side_effects: Vec::new(),
        }
    }

    /// A failure with a message.
    pub fn failure(message: String) -> (r: Self)
        ensures
            !r.success,
            r.message == Some(message),
            r.duration_us == 0,
            r.side_effects@.len() == 0,
    {
        CommandResult {
            success: false,
            message: Some(message),
            duration_us: 0,
            side_effects: Vec::new(),
        }
    }

    /// The same result with the duration filled in.
    pub fn with_duration(self, duration_us: u64) -> (r: Self)
        ensures
            r.duration_us == duration_us,
            r.success == self.success,
            r.message == self.message,
            r.side_effects == self.side_effects,
    {
        CommandResult { duration_us, ..self }
    }

    /// The same result with one more side effect recorded.
    pub fn with_side_effect(self, effect: SideEffect) -> (r: Self)
        ensures
            r.side_effects@ == self.side_effects@.push(effect),
            r.success == self.success,
            r.message == self.message,
            r.duration_us == self.duration_us,
    {
        let mut side_effects = self.side_effects;
        side_effects.push(effect);
        CommandResult {
            success: self.success,
            message: self.message,
            duration_us: self.duration_us,
            side_effects,
        }
    }
}

/// Command processing statistics, with times in microseconds.
#[derive(Debug, Clone)]
pub struct CommandStats {
    pub commands_processed: u64,
    pub total_processing_us: u64,
    pub max_processing_us: u64,
}

impl CommandStats {
    /// Fresh statistics.
    pub fn new() -> (r: Self)
        ensures
            r.commands_processed == 0,
            r.total_processing_us == 0,
            r.max_processing_us == 0,
    {
        CommandStats { commands_processed: 0, total_processing_us: 0, max_processing_us: 0 }
    }

    /// The mean processing time over all commands, in microseconds.
    pub fn average_processing_time(&self) -> (r: u64)
        ensures
            self.commands_processed == 0 ==> r == 0,
            self.commands_processed > 0 ==> r == self.total_processing_us as int
                / self.commands_processed as int,
    {
        if self.commands_processed > 0 {
            self.total_processing_us / self.commands_processed
        } else {
            0
        }
    }
}

/// Whether a list of keys holds the given key.
pub open spec fn spec_key_in(keys: Seq<Key>, key: Key) -> bool {
    exists|i: int| 0 <= i < keys.len() && keys[i] == key
}

/// Whether a list of keys holds the given key.
fn key_in(keys: &Vec<Key>, key: &Key) -> (r: bool)
    ensures
        r == spec_key_in(keys@, *key),
{
    let n = keys.len();
    let mut i: usize = 0;
    while i < n
        invariant
            i <= n,
            n == keys@.len(),
            forall|j: int| 0 <= j < i ==> keys@[j] != *key,
        decreases n - i,
    {
        if keys[i] == *key {
            return true;
        }
        i = i + 1;
    }
    false
}

/// A key event filter: blocked keys lose, then only allowed keys pass,
/// then the modifiers must match exactly where constrained.
#[derive(Debug, Clone)]
pub struct KeyFilter {
    pub allowed_keys: Option<Vec<Key>>,
    pub blocked_keys: Option<Vec<Key>>,
    pub allowed_modifiers: Option<Modifiers>,
}

impl KeyFilter {
    /// Whether this filter passes the event.
    pub open spec fn spec_allows(self, event: KeyEvent) -> bool {
        &&& match self.blocked_keys {
            Some(blocked) => !spec_key_in(blocked@, event.key),
            None => true,
        }
        &&& match self.allowed_keys {
            Some(allowed) => spec_key_in(allowed@, event.key),
            None => true,
        }
        &&& match self.allowed_modifiers {
            Some(mods) => event.modifiers == mods,
            None => true,
        }
    }

    /// Whether this filter passes the event.
    pub fn allows(&self, event: &KeyEvent) -> (r: bool)
        ensures
            r == self.spec_allows(*event),
    {
        if let Some(blocked) = &self.blocked_keys {
            if key_in(blocked, &event.key) {
                return false;
            }
        }
        if let Some(allowed) = &self.allowed_keys {
            if !key_in(allowed, &event.key) {
                return false;
            }
        }
        if let Some(allowed_mods) = &self.allowed_modifiers {
            if !(event.modifiers == *allowed_mods) {
                return false;
            }
        }
        true
    }
}

/// A mouse event filter over buttons and click counts.
#[derive(Debug, Clone)]
pub struct MouseFilter {
    pub allowed_buttons: Option<Vec<MouseButton>>,
    pub blocked_buttons: Option<Vec<MouseButton>>,
    pub min_click_count: Option<u8>,
    pub max_click_count: Option<u8>,
}

/// One filter rule: a disabled rule passes everything, an enabled one
/// defers to its key filter.
#[derive(Debug, Clone)]
pub struct FilterRule {
    pub name: String,
    pub enabled: bool,
    pub key_filter: Option<KeyFilter>,
    pub mouse_filter: Option<MouseFilter>,
}

impl FilterRule {
    /// Whether this rule passes the key event.
    pub open spec fn spec_allows_key(self, event: KeyEvent) -> bool {
        if !self.enabled {
            true
        } else {
            match self.key_filter {
                Some(filter) => filter.spec_allows(event),
                None => true,
            }
        }
    }

    /// Whether this rule passes the key event.
    pub fn allows_key(&self, event: &KeyEvent) -> (r: bool)
        ensures
            r == self.spec_allows_key(*event),
    {
        if !self.enabled {
            return true;
        }
        if let Some(filter) = &self.key_filter {
            filter.allows(event)
        } else {
            true
        }
    }
}

/// Applies every filter rule in turn; an event passes only where every
/// rule passes it.
pub struct EventFilter {
    filters: Vec<FilterRule>,
}

impl EventFilter {
    /// The rules in force.
    pub closed spec fn spec_filters(self) -> Seq<FilterRule> {
        self.filters@
    }

    /// A new filter from a rule list.
    pub fn new(filters: &Vec<FilterRule>) -> (r: Self)
        ensures
            r.spec_filters().len() == filters@.len(),
    {
        EventFilter { filters: filters.clone() }
    }

    /// Whether every rule passes the key event.
    pub fn should_process_key(&self, event: &KeyEvent) -> (r: bool)
        ensures
            r == forall|i: int|
                0 <= i < self.spec_filters().len() ==> (#[trigger] self.spec_filters()[i])
                    .spec_allows_key(*event),
    {
        let n = self.filters.len();
        let mut i: usize = 0;
        while i < n
            invariant
                i <= n,
                n == self.spec_filters().len(),
                forall|j: int|
                    0 <= j < i ==> (#[trigger] self.spec_filters()[j]).spec_allows_key(*event),
            decreases n - i,
        {
            if !self.filters[i].allows_key(event) {
                return false;
            }
            i = i + 1;
        }
        true
    }

    /// Replace the rule list.
    pub fn update_config(&mut self, filters: &Vec<FilterRule>) -> (r: crate::sill::errors::SillResult<()>)
        ensures
            r is Ok,
            final(self).spec_filters().len() == filters@.len(),
    {
        self.filters = filters.clone();
        Ok(())
    }
}

/// Tracks which pane holds input focus, with a short focus history.
#[derive(Debug)]
pub struct FocusManager {
    current_focus: Option<PaneId>,
    focus_history: Vec<PaneId>,
}

impl FocusManager {
    /// The focused pane, if any.
    pub closed spec fn spec_focus(self) -> Option<PaneId> {
        self.current_focus
    }

    /// The focus history, oldest first.
    pub closed spec fn spec_history(self) -> Seq<PaneId> {
        self.focus_history@
    }

    /// A new manager with no focus.
    pub fn new() -> (r: Self)
        ensures
            r.spec_focus() is None,
            r.spec_history().len() == 0,
    {
        FocusManager { current_focus: None, focus_history: Vec::new() }
    }

    /// Set the focus; a focused pane moves to the end of the history,
    /// which keeps at most its last ten entries.
    pub fn set_focus(&mut self, pane_id: Option<PaneId>)
        ensures
            final(self).spec_focus() == pane_id,
            pane_id is Some ==> final(self).spec_history().len() >= 1 && final(self).spec_history().last() == pane_id.unwrap() && final(self).spec_history().len() <= 10,
            pane_id is None ==> final(self).spec_history() == old(self).spec_history(),
    {
        if let Some(id) = pane_id {
            let mut kept: Vec<PaneId> = Vec::new();
            let n = self.focus_history.len();
            let mut i: usize = 0;
            while i < n
                invariant
                    i <= n,
                    n == old(self).spec_history().len(),
                    self.focus_history@ == old(self).spec_history(),
                    kept@.len() <= i,
                decreases n - i,
            {
                let entry = self.focus_history[i];
                if entry != id {
                    kept.push(entry);
                }
                i = i + 1;
            }
            kept.push(id);
            while kept.len() > 10
                invariant
                    kept@.len() >= 1,
                    kept@.last() == id,
                decreases kept@.len(),
            {
                let _ = kept.remove(0);
            }
            self.focus_history = kept;
        }
        self.current_focus = pane_id;
    }

    /// The focused pane, if any.
    pub fn get_focus(&self) -> (r: Option<PaneId>)
        ensures
            r == self.spec_focus(),
    {
        self.current_focus
    }

    /// The pane focused before the current one, if the history holds one.
    pub fn get_previous_focus(&self) -> (r: Option<PaneId>)
        ensures
            self.spec_history().len() >= 2 ==> r == Some(
                self.spec_history()[self.spec_history().len() - 2],
            ),
            self.spec_history().len() < 2 ==> r is None,
    {
        if self.focus_history.len() >= 2 {
            Some(self.focus_history[self.focus_history.len() - 2])
        } else {
            None
        }
    }
}

/// Routing configuration, with the command timeout in milliseconds.
#[derive(Debug, Clone)]
pub struct RoutingConfig {
    pub filters: Vec<FilterRule>,
    pub max_input_length: usize,
    pub enable_command_queuing: bool,
    pub command_timeout_ms: u64,
}

impl Default for RoutingConfig {
    /// No filters, a kibibyte of input, queuing on, a tenth of a second.
    fn default() -> (c: Self)
        ensures
            c.filters@.len() == 0,
            c.max_input_length == 1024,
            c.enable_command_queuing,
            c.command_timeout_ms == 100,
    {
        RoutingConfig {
            filters: Vec::new(),
            max_input_length: 1024,
            enable_command_queuing: true,
            command_timeout_ms: 100,
        }
    }
}

} // verus!
