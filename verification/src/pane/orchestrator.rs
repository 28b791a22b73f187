//! The pane orchestrator: it owns one terminal, screen buffer, scrollback,
//! cursor and mode state, feeds raw bytes through the terminal, and
//! executes each resulting command against the buffers.  Process I/O and
//! event listeners live outside this library; the orchestrator only ever
//! works on values handed to it.

use vstd::prelude::*;
use crate::pane::buffer::{
    blank_cells, char_written, line_occurrence, sb_push, screen_cleared_all, spec_default_cell,
    BufferType, ClearType, Line, ScreenBuffer, ScrollbackBuffer, SearchMatch,
};
use crate::pane::config::PaneConfig;
use crate::pane::cursor::{vt_clamp, Cursor, CursorPosition};
use crate::pane::errors::{PaneError, PaneResult};
use crate::pane::events::{PaneStatistics, SearchDirection};
use crate::pane::state::{
    spec_apply_sgr_seq, spec_default_modes, CharacterSets, TabStops, TerminalModes,
};
use crate::pane::terminal::{
    commands_view, spec_terminal_run, CommandToken, ParserModel, Terminal, TerminalMode,
    VtCommand,
};
use crate::sash::ids::PaneId;
use crate::sash::theme::Theme;

verus! {

/// The core state one terminal command acts on: the screen, the
/// scrollback, the cursor, the mode flags and the tab stops.
pub ghost struct PaneCore {
    pub screen: ScreenBuffer,
    pub scrollback: ScrollbackBuffer,
    pub cursor: Cursor,
    pub modes: TerminalModes,
    pub tabs: TabStops,
}

/// Everything of the core but the cursor is unchanged, and of the cursor
/// only the position moved.
pub open spec fn only_cursor_moved(pre: PaneCore, post: PaneCore) -> bool {
    &&& post.screen == pre.screen
    &&& post.scrollback == pre.scrollback
    &&& post.modes == pre.modes
    &&& post.tabs == pre.tabs
    &&& Cursor::moved_only(pre.cursor, post.cursor)
}

/// What a scroll leaves of the screen: every line shifted up by one, a
/// blank unwrapped line at the bottom, the sizes kept, and everything
/// marked dirty.
pub open spec fn screen_scrolled(pre: ScreenBuffer, post: ScreenBuffer) -> bool {
    &&& post.width == pre.width
    &&& post.height == pre.height
    &&& post.lines@.len() == pre.lines@.len()
    &&& forall|i: int|
        0 <= i < pre.lines@.len() - 1 ==> #[trigger] post.lines@[i] == pre.lines@[i + 1]
    &&& post.lines@.last().cells@ =~= blank_cells(pre.width as nat)
    &&& !post.lines@.last().wrapped
    &&& post.dirty_regions.all_dirty
}

/// What printing one character does to the core, as the protocol
/// prescribes: the character and the current attributes land in the cell
/// at the cursor, then the cursor advances — one column right short of
/// the edge; at the edge, with auto-wrap on, to the start of the next
/// row, scrolling from the bottom row; with auto-wrap off it stays on
/// the last column.
pub open spec fn print_applied(pre: PaneCore, post: PaneCore, ch: char) -> bool {
    let row = pre.cursor.position.row;
    let col = pre.cursor.position.col;
    &&& post.modes == pre.modes
    &&& post.tabs == pre.tabs
    &&& Cursor::moved_only(pre.cursor, post.cursor)
    &&& if col + 1 < pre.screen.width {
        &&& char_written(pre.screen, post.screen, row, col, ch, pre.modes.current_attributes)
        &&& post.scrollback == pre.scrollback
        &&& post.cursor.position.col == col + 1
        &&& post.cursor.position.row == row
    } else if pre.modes.auto_wrap {
        if row + 1 < pre.screen.height {
            &&& char_written(pre.screen, post.screen, row, col, ch, pre.modes.current_attributes)
            &&& post.scrollback == pre.scrollback
            &&& post.cursor.position.col == 0
            &&& post.cursor.position.row == row + 1
        } else {
            &&& (exists|mid: ScreenBuffer|
                {
                    &&& #[trigger] char_written(
                        pre.screen,
                        mid,
                        row,
                        col,
                        ch,
                        pre.modes.current_attributes,
                    )
                    &&& screen_scrolled(mid, post.screen)
                    &&& post.scrollback.lines@ == sb_push(
                        pre.scrollback.lines@,
                        pre.scrollback.max_lines,
                        mid.lines@[0],
                    )
                })
            &&& post.scrollback.max_lines == pre.scrollback.max_lines
            &&& post.cursor.position.col == 0
            &&& post.cursor.position.row == row
        }
    } else {
        &&& char_written(pre.screen, post.screen, row, col, ch, pre.modes.current_attributes)
        &&& post.scrollback == pre.scrollback
        &&& post.cursor.position.col == pre.screen.width - 1
        &&& post.cursor.position.row == row
    }
}

/// What clearing the screen from the cursor to the end leaves: rows above
/// untouched, the cursor's row cleared from its column, every row below
/// blank, the cursor where it was, everything marked dirty.
pub open spec fn clear_to_end_applied(pre: PaneCore, post: PaneCore) -> bool {
    let row = pre.cursor.position.row as int;
    let col = pre.cursor.position.col as int;
    &&& forall|i: int|
        0 <= i < row ==> (#[trigger] post.screen.lines@[i]).cells@ == pre.screen.lines@[i].cells@
            && post.screen.lines@[i].wrapped == pre.screen.lines@[i].wrapped
    &&& forall|j: int|
        0 <= j < pre.screen.width as int && j < col ==> post.screen.lines@[row].cells@[j]
            == pre.screen.lines@[row].cells@[j]
    &&& forall|j: int|
        col <= j < pre.screen.width as int ==> post.screen.lines@[row].cells@[j]
            == spec_default_cell()
    &&& forall|i: int|
        row < i < pre.screen.height as int ==> (#[trigger] post.screen.lines@[i]).cells@
            =~= blank_cells(pre.screen.width as nat)
}

/// What clearing the screen from the start through the cursor leaves:
/// rows above blank, the cursor's row cleared through its column, rows
/// below untouched.
pub open spec fn clear_to_beginning_applied(pre: PaneCore, post: PaneCore) -> bool {
    let row = pre.cursor.position.row as int;
    let col = pre.cursor.position.col as int;
    &&& forall|i: int|
        0 <= i < row ==> (#[trigger] post.screen.lines@[i]).cells@ =~= blank_cells(
            pre.screen.width as nat,
        )
    &&& forall|j: int|
        0 <= j < pre.screen.width as int && j <= col ==> post.screen.lines@[row].cells@[j]
            == spec_default_cell()
    &&& forall|j: int|
        col < j < pre.screen.width as int ==> post.screen.lines@[row].cells@[j]
            == pre.screen.lines@[row].cells@[j]
    &&& forall|i: int|
        row < i < pre.screen.height as int ==> (#[trigger] post.screen.lines@[i]).cells@
            == pre.screen.lines@[i].cells@
}

/// What clearing part or all of the cursor's line leaves: every other
/// line untouched, the cursor's line cleared per the kind, its row marked
/// dirty.
pub open spec fn clear_line_applied(pre: PaneCore, post: PaneCore, kind: ClearType) -> bool {
    let row = pre.cursor.position.row as int;
    let col = pre.cursor.position.col as int;
    &&& forall|i: int|
        0 <= i < pre.screen.lines@.len() && i != row ==> #[trigger] post.screen.lines@[i]
            == pre.screen.lines@[i]
    &&& post.screen.lines@[row].wrapped == pre.screen.lines@[row].wrapped
    &&& (kind is All ==> forall|j: int|
        0 <= j < pre.screen.width as int ==> #[trigger] post.screen.lines@[row].cells@[j]
            == spec_default_cell())
    &&& (kind is ToEnd ==> forall|j: int|
        0 <= j < pre.screen.width as int ==> #[trigger] post.screen.lines@[row].cells@[j] == (
        if j < col {
            pre.screen.lines@[row].cells@[j]
        } else {
            spec_default_cell()
        }))
    &&& (kind is ToBeginning ==> forall|j: int|
        0 <= j < pre.screen.width as int ==> #[trigger] post.screen.lines@[row].cells@[j] == (
        if j <= col {
            spec_default_cell()
        } else {
            pre.screen.lines@[row].cells@[j]
        }))
    &&& post.screen.dirty_regions.dirty_lines@ == pre.screen.dirty_regions.dirty_lines@.update(
        row,
        true,
    )
    &&& post.screen.dirty_regions.all_dirty == pre.screen.dirty_regions.all_dirty
    &&& post.screen.width == pre.screen.width
    &&& post.screen.height == pre.screen.height
    &&& post.scrollback == pre.scrollback
    &&& post.cursor == pre.cursor
    &&& post.modes == pre.modes
    &&& post.tabs == pre.tabs
}

/// What one terminal command does to the core, command by command, under
/// the core's standing invariants.  Commands the core does not implement
/// leave it untouched.
#[verifier::opaque]
pub open spec fn command_applied(pre: PaneCore, post: PaneCore, c: CommandToken) -> bool {
    match c {
        CommandToken::PrintChar(ch) => print_applied(pre, post, ch),
        CommandToken::CursorUp(n) => {
            &&& only_cursor_moved(pre, post)
            &&& post.cursor.position.row == if pre.cursor.position.row >= n {
                (pre.cursor.position.row - n) as u16
            } else {
                0u16
            }
            &&& post.cursor.position.col == pre.cursor.position.col
        },
        CommandToken::CursorDown(n) => {
            &&& only_cursor_moved(pre, post)
            &&& post.cursor.position.row == vstd::math::min(
                pre.cursor.position.row + n,
                pre.screen.height - 1,
            )
            &&& post.cursor.position.col == pre.cursor.position.col
        },
        CommandToken::CursorForward(n) => {
            &&& only_cursor_moved(pre, post)
            &&& post.cursor.position.col == vstd::math::min(
                pre.cursor.position.col + n,
                pre.screen.width - 1,
            )
            &&& post.cursor.position.row == pre.cursor.position.row
        },
        CommandToken::CursorBack(n) => {
            &&& only_cursor_moved(pre, post)
            &&& post.cursor.position.col == if pre.cursor.position.col >= n {
                (pre.cursor.position.col - n) as u16
            } else {
                0u16
            }
            &&& post.cursor.position.row == pre.cursor.position.row
        },
        CommandToken::CursorPosition(row, col) => {
            &&& only_cursor_moved(pre, post)
            &&& post.cursor.position.row == vt_clamp(row, pre.screen.height)
            &&& post.cursor.position.col == vt_clamp(col, pre.screen.width)
        },
        CommandToken::SaveCursor => {
            &&& post.screen == pre.screen
            &&& post.scrollback == pre.scrollback
            &&& post.modes == pre.modes
            &&& post.tabs == pre.tabs
            &&& post.cursor.position == pre.cursor.position
            &&& post.cursor.style == pre.cursor.style
            &&& post.cursor.visibility == pre.cursor.visibility
            &&& post.cursor.blink_state == pre.cursor.blink_state
            &&& post.cursor.saved_positions@ == pre.cursor.saved_positions@.push(
                pre.cursor.position,
            )
        },
        CommandToken::RestoreCursor => {
            &&& post.screen == pre.screen
            &&& post.scrollback == pre.scrollback
            &&& post.modes == pre.modes
            &&& post.tabs == pre.tabs
            &&& post.cursor.style == pre.cursor.style
            &&& post.cursor.visibility == pre.cursor.visibility
            &&& post.cursor.blink_state == pre.cursor.blink_state
            &&& if pre.cursor.saved_positions@.len() == 0 {
                post.cursor == pre.cursor
            } else {
                let saved = pre.cursor.saved_positions@.last();
                &&& post.cursor.saved_positions@ == pre.cursor.saved_positions@.drop_last()
                &&& post.cursor.position.row == vstd::math::min(
                    saved.row as int,
                    if pre.screen.height == 0 {
                        0int
                    } else {
                        pre.screen.height - 1
                    },
                )
                &&& post.cursor.position.col == vstd::math::min(
                    saved.col as int,
                    if pre.screen.width == 0 {
                        0int
                    } else {
                        pre.screen.width - 1
                    },
                )
                &&& post.cursor.position.origin_mode == saved.origin_mode
            }
        },
        CommandToken::ClearScreen(kind) => {
            &&& post.scrollback == pre.scrollback
            &&& post.modes == pre.modes
            &&& post.tabs == pre.tabs
            &&& post.screen.width == pre.screen.width
            &&& post.screen.height == pre.screen.height
            &&& post.screen.dirty_regions.all_dirty
            &&& (kind is All ==> screen_cleared_all(pre.screen, post.screen)
                && Cursor::moved_only(pre.cursor, post.cursor) && post.cursor.position.row == 0
                && post.cursor.position.col == 0)
            &&& (!(kind is All) ==> post.cursor == pre.cursor)
            &&& (kind is ToEnd ==> clear_to_end_applied(pre, post))
            &&& (kind is ToBeginning ==> clear_to_beginning_applied(pre, post))
        },
        CommandToken::ClearLine(kind) => clear_line_applied(pre, post, kind),
        CommandToken::LineFeed => {
            &&& post.modes == pre.modes
            &&& post.tabs == pre.tabs
            &&& Cursor::moved_only(pre.cursor, post.cursor)
            &&& post.cursor.position.col == pre.cursor.position.col
            &&& if pre.cursor.position.row + 1 < pre.screen.height {
                &&& post.cursor.position.row == pre.cursor.position.row + 1
                &&& post.screen == pre.screen
                &&& post.scrollback == pre.scrollback
            } else {
                &&& post.cursor.position.row == pre.cursor.position.row
                &&& screen_scrolled(pre.screen, post.screen)
                &&& post.scrollback.lines@ == sb_push(
                    pre.scrollback.lines@,
                    pre.scrollback.max_lines,
                    pre.screen.lines@[0],
                )
                &&& post.scrollback.max_lines == pre.scrollback.max_lines
            }
        },
        CommandToken::CarriageReturn => {
            &&& only_cursor_moved(pre, post)
            &&& post.cursor.position.col == 0
            &&& post.cursor.position.row == pre.cursor.position.row
        },
        CommandToken::Tab => {
            &&& only_cursor_moved(pre, post)
            &&& post.cursor.position.row == pre.cursor.position.row
            &&& post.cursor.position.col == {
                let stop = TabStops::spec_next_tab_stop(
                    pre.tabs.spec_stops(),
                    pre.cursor.position.col,
                );
                let m: u16 = if pre.screen.width == 0 {
                    0u16
                } else {
                    (pre.screen.width - 1) as u16
                };
                if stop <= m {
                    stop
                } else {
                    m
                }
            }
        },
        CommandToken::Backspace => {
            &&& only_cursor_moved(pre, post)
            &&& if pre.cursor.position.col > 0 {
                post.cursor.position == (CursorPosition {
                    col: (pre.cursor.position.col - 1) as u16,
                    ..pre.cursor.position
                })
            } else if pre.cursor.position.row > 0 {
                post.cursor.position == (CursorPosition {
                    row: (pre.cursor.position.row - 1) as u16,
                    col: if pre.screen.width == 0 {
                        0u16
                    } else {
                        (pre.screen.width - 1) as u16
                    },
                    ..pre.cursor.position
                })
            } else {
                post.cursor.position == pre.cursor.position
            }
        },
        CommandToken::SetGraphicsRendition(ps) => {
            &&& post.screen == pre.screen
            &&& post.scrollback == pre.scrollback
            &&& post.cursor == pre.cursor
            &&& post.tabs == pre.tabs
            &&& post.modes == (TerminalModes {
                current_attributes: spec_apply_sgr_seq(pre.modes.current_attributes, ps),
                ..pre.modes
            })
        },
        CommandToken::InsertLines(count) => {
            &&& post.scrollback == pre.scrollback
            &&& post.cursor == pre.cursor
            &&& post.modes == pre.modes
            &&& post.tabs == pre.tabs
            &&& post.screen.width == pre.screen.width
            &&& post.screen.height == pre.screen.height
            &&& post.screen.dirty_regions.all_dirty
            &&& {
                let row = pre.cursor.position.row as int;
                let n = vstd::math::min(
                    count as int,
                    pre.screen.height - pre.cursor.position.row,
                );
                &&& forall|i: int|
                    0 <= i < row ==> #[trigger] post.screen.lines@[i] == pre.screen.lines@[i]
                &&& forall|i: int|
                    row <= i < row + n ==> crate::pane::buffer::is_blank_line(
                        #[trigger] post.screen.lines@[i],
                        pre.screen.width,
                    )
                &&& forall|i: int|
                    row + n <= i < pre.screen.height as int ==> #[trigger] post.screen.lines@[i]
                        == pre.screen.lines@[i - n]
            }
        },
        CommandToken::DeleteLines(count) => {
            &&& post.scrollback == pre.scrollback
            &&& post.cursor == pre.cursor
            &&& post.modes == pre.modes
            &&& post.tabs == pre.tabs
            &&& post.screen.width == pre.screen.width
            &&& post.screen.height == pre.screen.height
            &&& post.screen.dirty_regions.all_dirty
            &&& {
                let row = pre.cursor.position.row as int;
                let n = vstd::math::min(
                    count as int,
                    pre.screen.height - pre.cursor.position.row,
                );
                &&& forall|i: int|
                    0 <= i < row ==> #[trigger] post.screen.lines@[i] == pre.screen.lines@[i]
                &&& forall|i: int|
                    row <= i < pre.screen.height - n ==> #[trigger] post.screen.lines@[i]
                        == pre.screen.lines@[i + n]
                &&& forall|i: int|
                    pre.screen.height - n <= i < pre.screen.height as int
                        ==> crate::pane::buffer::is_blank_line(
                        #[trigger] post.screen.lines@[i],
                        pre.screen.width,
                    )
            }
        },
        CommandToken::Reset => {
            &&& post.screen == pre.screen
            &&& post.scrollback == pre.scrollback
            &&& post.modes == spec_default_modes()
            &&& post.cursor.position == (CursorPosition {
                row: 0u16,
                col: 0u16,
                origin_mode: false,
            })
            &&& post.cursor.style is Block
            &&& post.cursor.visibility is Visible
            &&& post.cursor.saved_positions@.len() == 0
            &&& post.tabs.spec_stops().len() == pre.screen.width as int
            &&& forall|i: int|
                0 <= i < pre.screen.width as int ==> post.tabs.spec_stops()[i] == (i % 8 == 0)
        },
        CommandToken::Bell => post == pre,
        CommandToken::SetMode(_) => post == pre,
        CommandToken::ResetMode(_) => post == pre,
        CommandToken::DecPrivateModeSet(_) => post == pre,
        CommandToken::DecPrivateModeReset(_) => post == pre,
        CommandToken::DeviceStatusReport => post == pre,
    }
}

/// What a whole command list does to the core: each command applied in
/// turn, through some chain of intermediate states.
#[verifier::opaque]
pub open spec fn run_applied(pre: PaneCore, post: PaneCore, cmds: Seq<CommandToken>) -> bool
    decreases cmds.len(),
{
    if cmds.len() == 0 {
        post == pre
    } else {
        exists|mid: PaneCore|
            #[trigger] command_applied(pre, mid, cmds[0]) && run_applied(
                mid,
                post,
                cmds.drop_first(),
            )
    }
}

/// A run extends by one command at its end.
pub proof fn lemma_run_applied_snoc(
    pre: PaneCore,
    mid: PaneCore,
    post: PaneCore,
    cmds: Seq<CommandToken>,
    c: CommandToken,
)
    requires
        run_applied(pre, mid, cmds),
        command_applied(mid, post, c),
    ensures
        run_applied(pre, post, cmds.push(c)),
    decreases cmds.len(),
{
    reveal(run_applied);
    if cmds.len() == 0 {
        assert(mid == pre);
        assert(cmds.push(c)[0] == c);
        assert(cmds.push(c).drop_first() =~= Seq::<CommandToken>::empty());
        assert(command_applied(pre, post, cmds.push(c)[0]));
        assert(run_applied(post, post, cmds.push(c).drop_first()));
    } else {
        let m1 = choose|m: PaneCore|
            #[trigger] command_applied(pre, m, cmds[0]) && run_applied(m, mid, cmds.drop_first());
        lemma_run_applied_snoc(m1, mid, post, cmds.drop_first(), c);
        assert(cmds.push(c)[0] == cmds[0]);
        assert(cmds.push(c).drop_first() =~= cmds.drop_first().push(c));
        assert(command_applied(pre, m1, cmds.push(c)[0]) && run_applied(
            m1,
            post,
            cmds.push(c).drop_first(),
        ));
    }
}

/// One terminal pane: the terminal emulation core and the state it drives.
pub struct Pane {
    id: PaneId,
    title: String,
    modified: bool,
    active: bool,
    terminal: Terminal,
    screen_buffer: ScreenBuffer,
    scrollback: ScrollbackBuffer,
    cursor: Cursor,
    modes: TerminalModes,
    character_sets: CharacterSets,
    tabs: TabStops,
    config: PaneConfig,
    local_theme_override: Option<Theme>,
    stats: PaneStatistics,
}

impl Pane {
    /// The screen buffer.
    pub closed spec fn spec_screen(self) -> ScreenBuffer {
        self.screen_buffer
    }

    /// The scrollback history.
    pub closed spec fn spec_scrollback(self) -> ScrollbackBuffer {
        self.scrollback
    }

    /// The cursor.
    pub closed spec fn spec_cursor(self) -> Cursor {
        self.cursor
    }

    /// The mode state.
    pub closed spec fn spec_modes(self) -> TerminalModes {
        self.modes
    }

    /// The pane identity.
    pub closed spec fn spec_id(self) -> PaneId {
        self.id
    }

    /// The title.
    pub closed spec fn spec_title(self) -> Seq<char> {
        self.title@
    }

    /// The active flag.
    pub closed spec fn spec_active(self) -> bool {
        self.active
    }

    /// The modified flag.
    pub closed spec fn spec_modified(self) -> bool {
        self.modified
    }

    /// The statistics.
    pub closed spec fn spec_stats(self) -> PaneStatistics {
        self.stats
    }

    /// The core state terminal commands act on.
    pub closed spec fn spec_core(self) -> PaneCore {
        PaneCore {
            screen: self.screen_buffer,
            scrollback: self.scrollback,
            cursor: self.cursor,
            modes: self.modes,
            tabs: self.tabs,
        }
    }

    /// The accumulation state of the byte parser.
    pub closed spec fn parser_model(self) -> ParserModel {
        self.terminal.parser@
    }

    /// The structural invariant every operation preserves: the screen and
    /// scrollback are well formed, the screen is not empty, the cursor
    /// stands inside it, and there is one tab stop flag per column.
    pub closed spec fn wf(self) -> bool {
        &&& self.screen_buffer.wf()
        &&& self.scrollback.wf()
        &&& self.screen_buffer.width > 0
        &&& self.screen_buffer.height > 0
        &&& self.cursor.position.row < self.screen_buffer.height
        &&& self.cursor.position.col < self.screen_buffer.width
        &&& self.tabs.spec_stops().len() == self.screen_buffer.width as int
    }

    /// Create a new pane with the given configuration; the screen takes the
    /// configured initial size, which must not be empty.
    pub fn new(id: PaneId, config: PaneConfig) -> (r: PaneResult<Pane>)
        requires
            config.initial_size.0 > 0,
            config.initial_size.1 > 0,
        ensures
            r is Ok,
            r.get_Ok_0().wf(),
            r.get_Ok_0().spec_id() == id,
            r.get_Ok_0().spec_title() == config.default_title@,
            !r.get_Ok_0().spec_active(),
            !r.get_Ok_0().spec_modified(),
            r.get_Ok_0().spec_screen().width == config.initial_size.0,
            r.get_Ok_0().spec_screen().height == config.initial_size.1,
            r.get_Ok_0().spec_scrollback().lines@.len() == 0,
            r.get_Ok_0().spec_scrollback().max_lines == config.scrollback_lines,
            r.get_Ok_0().spec_cursor().position.row == 0,
            r.get_Ok_0().spec_cursor().position.col == 0,
    {
        let size = config.initial_size;
        let title = config.default_title.clone();
        let terminal = Terminal::new()?;
        Ok(
            Pane {
                id,
                title,
                modified: false,
                active: false,
                terminal,
                screen_buffer: ScreenBuffer::new(size.0, size.1),
                scrollback: ScrollbackBuffer::new(config.scrollback_lines),
                cursor: Cursor::new(),
                modes: TerminalModes::default(),
                character_sets: CharacterSets::default(),
                tabs: TabStops::new(size.0),
                config,
                local_theme_override: None,
                stats: PaneStatistics::default(),
            },
        )
    }

    /// The pane identity.
    pub fn id(&self) -> (r: PaneId)
        ensures
            r == self.spec_id(),
    {
        self.id
    }

    /// Whether the pane is active.
    pub fn is_active(&self) -> (r: bool)
        ensures
            r == self.spec_active(),
    {
        self.active
    }

    /// Set the active flag.
    pub fn set_active(&mut self, active: bool)
        requires
            old(self).wf(),
        ensures
            final(self).wf(),
            final(self).spec_active() == active,
    {
        if self.active != active {
            self.active = active;
            if active {
                self.cursor.blink_state.set_visible();
            }
        }
    }

    /// The title.
    pub fn get_title(&self) -> (r: &str)
        ensures
            r@ == self.spec_title(),
    {
        self.title.as_str()
    }

    /// Set the title.
    pub fn set_title(&mut self, title: String)
        requires
            old(self).wf(),
        ensures
            final(self).wf(),
            final(self).spec_title() == title@,
    {
        self.title = title;
    }

    /// Whether the pane content changed since the flag was last cleared.
    pub fn is_modified(&self) -> (r: bool)
        ensures
            r == self.spec_modified(),
    {
        self.modified
    }

    /// Set the modified flag.
    pub fn set_modified(&mut self, modified: bool)
        requires
            old(self).wf(),
        ensures
            final(self).wf(),
            final(self).spec_modified() == modified,
    {
        self.modified = modified;
    }

    /// The screen size as (width, height).
    pub fn size(&self) -> (r: (u16, u16))
        ensures
            r == (self.spec_screen().width, self.spec_screen().height),
    {
        (self.screen_buffer.width, self.screen_buffer.height)
    }

    /// The screen size as (width, height).
    pub fn get_size(&self) -> (r: (u16, u16))
        ensures
            r == (self.spec_screen().width, self.spec_screen().height),
    {
        self.size()
    }

    /// The cursor position as (column, row).
    pub fn get_cursor_position(&self) -> (r: (u16, u16))
        ensures
            r == (self.spec_cursor().position.col, self.spec_cursor().position.row),
    {
        (self.cursor.position.col, self.cursor.position.row)
    }

    /// The current terminal operating mode.
    pub fn get_terminal_mode(&self) -> (r: TerminalMode)
        ensures
            r == self.terminal_mode(),
    {
        self.terminal.current_mode()
    }

    /// The current terminal operating mode, as seen by contracts.
    pub closed spec fn terminal_mode(self) -> TerminalMode {
        self.terminal.current_mode
    }

    /// The configured working directory, if any.
    pub fn working_directory(&self) -> (r: Option<&str>) {
        match &self.config.working_directory {
            Some(dir) => Some(dir.as_str()),
            None => None,
        }
    }

    /// The line at `index` of the visible screen.
    pub fn get_line(&self, index: usize) -> (r: Option<&Line>)
        ensures
            (index as int) < self.spec_screen().lines@.len() ==> r == Some(
                &self.spec_screen().lines@[index as int],
            ),
            (index as int) >= self.spec_screen().lines@.len() ==> r is None,
    {
        self.screen_buffer.get_line(index)
    }

    /// The whole screen buffer, read-only.
    pub fn get_screen_content(&self) -> (r: &ScreenBuffer)
        ensures
            r == &self.spec_screen(),
    {
        &self.screen_buffer
    }

    /// The scrollback history, read-only.
    pub fn get_scrollback(&self) -> (r: &ScrollbackBuffer)
        ensures
            r == &self.spec_scrollback(),
    {
        &self.scrollback
    }

    /// The cursor, read-only.
    pub fn get_cursor(&self) -> (r: &Cursor)
        ensures
            r == &self.spec_cursor(),
    {
        &self.cursor
    }

    /// The statistics.
    pub fn get_statistics(&self) -> (r: PaneStatistics)
        ensures
            r == self.spec_stats(),
    {
        self.stats
    }

    /// The configuration.
    pub fn get_config(&self) -> (r: &PaneConfig) {
        &self.config
    }

    /// Execute a list of terminal commands in order: `run_applied` folds
    /// `command_applied` over the commands' tokens.  `process_output` is
    /// exactly `Terminal::process_bytes` followed by this.
    pub fn run_commands(&mut self, commands: Vec<VtCommand>) -> (r: PaneResult<()>)
        requires
            old(self).wf(),
        ensures
            r is Ok,
            final(self).wf(),
            final(self).spec_id() == old(self).spec_id(),
            final(self).spec_title() == old(self).spec_title(),
            final(self).spec_active() == old(self).spec_active(),
            final(self).spec_modified() == old(self).spec_modified(),
            final(self).spec_stats().bytes_received == old(self).spec_stats().bytes_received,
            final(self).parser_model() == old(self).parser_model(),
            run_applied(old(self).spec_core(), final(self).spec_core(), commands_view(commands@)),
    {
        let ghost start_core = self.spec_core();
        let ghost toks = commands_view(commands@);
        let ghost all_cmds = commands@;
        let ghost total = commands@.len();
        let mut pending = commands;
        proof {
            reveal(run_applied);
            assert(toks.subrange(0, 0) =~= Seq::<CommandToken>::empty());
        }
        let ghost mut k: int = 0;
        while pending.len() > 0
            invariant
                0 <= k <= total,
                total == all_cmds.len(),
                total == toks.len(),
                pending@ =~= all_cmds.subrange(k, total as int),
                toks == commands_view(all_cmds),
                self.wf(),
                self.spec_id() == old(self).spec_id(),
                self.spec_title() == old(self).spec_title(),
                self.spec_active() == old(self).spec_active(),
                self.spec_modified() == old(self).spec_modified(),
                self.spec_stats().bytes_received == old(self).spec_stats().bytes_received,
                self.parser_model() == old(self).parser_model(),
                run_applied(start_core, self.spec_core(), toks.subrange(0, k)),
                start_core == old(self).spec_core(),
            decreases pending@.len(),
        {
            let ghost pre_core = self.spec_core();
            let command = pending.remove(0);
            proof {
                assert(command == all_cmds[k]);
                assert(command.view_token() == toks[k]);
                assert(pending@ =~= all_cmds.subrange(k + 1, total as int));
            }
            self.execute_terminal_command(command)?;
            proof {
                lemma_run_applied_snoc(
                    start_core,
                    pre_core,
                    self.spec_core(),
                    toks.subrange(0, k),
                    toks[k],
                );
                assert(toks.subrange(0, k).push(toks[k]) =~= toks.subrange(0, k + 1));
                k = k + 1;
            }
        }
        proof {
            assert(toks.subrange(0, k) =~= toks);
        }
        Ok(())
    }

    /// Process a chunk of terminal output through the emulator: every byte
    /// runs through the parser in arrival order, and every command the
    /// bytes complete is executed against the core in order, exactly as
    /// `run_applied` folds `command_applied` over the commands of
    /// `spec_terminal_run`.  Never fails, whatever the bytes: malformed
    /// input is dropped, not errored.
    pub fn process_output(&mut self, data: &[u8]) -> (r: PaneResult<()>)
        requires
            old(self).wf(),
        ensures
            r is Ok,
            final(self).wf(),
            final(self).spec_id() == old(self).spec_id(),
            final(self).spec_title() == old(self).spec_title(),
            final(self).spec_active() == old(self).spec_active(),
            final(self).spec_modified(),
            final(self).spec_stats().bytes_received == vstd::math::min(
                old(self).spec_stats().bytes_received + data@.len(),
                usize::MAX as int,
            ),
            final(self).parser_model() == spec_terminal_run(old(self).parser_model(), data@).0,
    {
        let n = data.len();
        let received = self.stats.bytes_received;
        if n < usize::MAX - received {
            self.stats.bytes_received = received + n;
        } else {
            self.stats.bytes_received = usize::MAX;
        }
        let commands = self.terminal.process_bytes(data)?;
        self.run_commands(commands)?;
        self.modified = true;
        Ok(())
    }

    /// Print one character at the cursor and advance it, wrapping and scrolling at the edges as the protocol prescribes.
    fn run_print_char(&mut self, ch: char)
        requires
            old(self).wf(),
        ensures
            final(self).wf(),
            final(self).spec_id() == old(self).spec_id(),
            final(self).spec_title() == old(self).spec_title(),
            final(self).spec_active() == old(self).spec_active(),
            final(self).spec_modified() == old(self).spec_modified(),
            final(self).spec_stats().bytes_received == old(self).spec_stats().bytes_received,
            final(self).parser_model() == old(self).parser_model(),
            command_applied(old(self).spec_core(), final(self).spec_core(), CommandToken::PrintChar(ch)),
    {
        proof {
            reveal(command_applied);
        }
        let _ = self.screen_buffer.write_char_at_cursor(ch, &self.cursor, &self.modes);
        if self.cursor.position.col + 1 < self.screen_buffer.width {
            let _ = self.cursor.advance(&self.screen_buffer, &self.modes);
        } else if self.modes.auto_wrap {
            if self.cursor.position.row + 1 < self.screen_buffer.height {
                let _ = self.cursor.advance(&self.screen_buffer, &self.modes);
            } else {
                let ghost mid = self.screen_buffer;
                let _ = self.cursor.carriage_return();
                let _ = self.cursor.line_feed(
                    &mut self.screen_buffer,
                    &mut self.scrollback,
                    &self.modes,
                );
                proof {
                    assert(char_written(
                        old(self).spec_core().screen,
                        mid,
                        old(self).spec_core().cursor.position.row,
                        old(self).spec_core().cursor.position.col,
                        ch,
                        old(self).spec_core().modes.current_attributes,
                    ));
                    assert(screen_scrolled(mid, self.screen_buffer));
                }
            }
        } else {
            let _ = self.cursor.advance(&self.screen_buffer, &self.modes);
        }
    }

    /// Move the cursor up.
    fn run_cursor_up(&mut self, n: u16)
        requires
            old(self).wf(),
        ensures
            final(self).wf(),
            final(self).spec_id() == old(self).spec_id(),
            final(self).spec_title() == old(self).spec_title(),
            final(self).spec_active() == old(self).spec_active(),
            final(self).spec_modified() == old(self).spec_modified(),
            final(self).spec_stats().bytes_received == old(self).spec_stats().bytes_received,
            final(self).parser_model() == old(self).parser_model(),
            command_applied(old(self).spec_core(), final(self).spec_core(), CommandToken::CursorUp(n)),
    {
        proof {
            reveal(command_applied);
        }
        let _ = self.cursor.move_up(n, &self.screen_buffer);
    }

    /// Move the cursor down.
    fn run_cursor_down(&mut self, n: u16)
        requires
            old(self).wf(),
        ensures
            final(self).wf(),
            final(self).spec_id() == old(self).spec_id(),
            final(self).spec_title() == old(self).spec_title(),
            final(self).spec_active() == old(self).spec_active(),
            final(self).spec_modified() == old(self).spec_modified(),
            final(self).spec_stats().bytes_received == old(self).spec_stats().bytes_received,
            final(self).parser_model() == old(self).parser_model(),
            command_applied(old(self).spec_core(), final(self).spec_core(), CommandToken::CursorDown(n)),
    {
        proof {
            reveal(command_applied);
        }
        let _ = self.cursor.move_down(n, &self.screen_buffer);
    }

    /// Move the cursor right.
    fn run_cursor_forward(&mut self, n: u16)
        requires
            old(self).wf(),
        ensures
            final(self).wf(),
            final(self).spec_id() == old(self).spec_id(),
            final(self).spec_title() == old(self).spec_title(),
            final(self).spec_active() == old(self).spec_active(),
            final(self).spec_modified() == old(self).spec_modified(),
            final(self).spec_stats().bytes_received == old(self).spec_stats().bytes_received,
            final(self).parser_model() == old(self).parser_model(),
            command_applied(old(self).spec_core(), final(self).spec_core(), CommandToken::CursorForward(n)),
    {
        proof {
            reveal(command_applied);
        }
        let _ = self.cursor.move_forward(n, &self.screen_buffer);
    }

    /// Move the cursor left.
    fn run_cursor_back(&mut self, n: u16)
        requires
            old(self).wf(),
        ensures
            final(self).wf(),
            final(self).spec_id() == old(self).spec_id(),
            final(self).spec_title() == old(self).spec_title(),
            final(self).spec_active() == old(self).spec_active(),
            final(self).spec_modified() == old(self).spec_modified(),
            final(self).spec_stats().bytes_received == old(self).spec_stats().bytes_received,
            final(self).parser_model() == old(self).parser_model(),
            command_applied(old(self).spec_core(), final(self).spec_core(), CommandToken::CursorBack(n)),
    {
        proof {
            reveal(command_applied);
        }
        let _ = self.cursor.move_back(n);
    }

    /// Address the cursor with one-based coordinates.
    fn run_cursor_position(&mut self, row: u16, col: u16)
        requires
            old(self).wf(),
        ensures
            final(self).wf(),
            final(self).spec_id() == old(self).spec_id(),
            final(self).spec_title() == old(self).spec_title(),
            final(self).spec_active() == old(self).spec_active(),
            final(self).spec_modified() == old(self).spec_modified(),
            final(self).spec_stats().bytes_received == old(self).spec_stats().bytes_received,
            final(self).parser_model() == old(self).parser_model(),
            command_applied(old(self).spec_core(), final(self).spec_core(), CommandToken::CursorPosition(row, col)),
    {
        proof {
            reveal(command_applied);
        }
        let _ = self.cursor.set_position(row, col, &self.screen_buffer);
    }

    /// Clear part or all of the screen relative to the cursor.
    fn run_clear_screen(&mut self, clear_type: ClearType)
        requires
            old(self).wf(),
        ensures
            final(self).wf(),
            final(self).spec_id() == old(self).spec_id(),
            final(self).spec_title() == old(self).spec_title(),
            final(self).spec_active() == old(self).spec_active(),
            final(self).spec_modified() == old(self).spec_modified(),
            final(self).spec_stats().bytes_received == old(self).spec_stats().bytes_received,
            final(self).parser_model() == old(self).parser_model(),
            command_applied(old(self).spec_core(), final(self).spec_core(), CommandToken::ClearScreen(clear_type)),
    {
        proof {
            reveal(command_applied);
        }
        let _ = self.screen_buffer.clear_screen(clear_type, &mut self.cursor);
    }

    /// Clear part or all of the cursor's line.
    fn run_clear_line(&mut self, clear_type: ClearType)
        requires
            old(self).wf(),
        ensures
            final(self).wf(),
            final(self).spec_id() == old(self).spec_id(),
            final(self).spec_title() == old(self).spec_title(),
            final(self).spec_active() == old(self).spec_active(),
            final(self).spec_modified() == old(self).spec_modified(),
            final(self).spec_stats().bytes_received == old(self).spec_stats().bytes_received,
            final(self).parser_model() == old(self).parser_model(),
            command_applied(old(self).spec_core(), final(self).spec_core(), CommandToken::ClearLine(clear_type)),
    {
        proof {
            reveal(command_applied);
        }
        let _ = self.screen_buffer.clear_line(clear_type, &self.cursor);
    }

    /// Move down one row, scrolling from the bottom row.
    fn run_line_feed(&mut self)
        requires
            old(self).wf(),
        ensures
            final(self).wf(),
            final(self).spec_id() == old(self).spec_id(),
            final(self).spec_title() == old(self).spec_title(),
            final(self).spec_active() == old(self).spec_active(),
            final(self).spec_modified() == old(self).spec_modified(),
            final(self).spec_stats().bytes_received == old(self).spec_stats().bytes_received,
            final(self).parser_model() == old(self).parser_model(),
            command_applied(old(self).spec_core(), final(self).spec_core(), CommandToken::LineFeed),
    {
        proof {
            reveal(command_applied);
        }
        let _ = self.cursor.line_feed(
            &mut self.screen_buffer,
            &mut self.scrollback,
            &self.modes,
        );
    }

    /// Return the cursor to column zero.
    fn run_carriage_return(&mut self)
        requires
            old(self).wf(),
        ensures
            final(self).wf(),
            final(self).spec_id() == old(self).spec_id(),
            final(self).spec_title() == old(self).spec_title(),
            final(self).spec_active() == old(self).spec_active(),
            final(self).spec_modified() == old(self).spec_modified(),
            final(self).spec_stats().bytes_received == old(self).spec_stats().bytes_received,
            final(self).parser_model() == old(self).parser_model(),
            command_applied(old(self).spec_core(), final(self).spec_core(), CommandToken::CarriageReturn),
    {
        proof {
            reveal(command_applied);
        }
        let _ = self.cursor.carriage_return();
    }

    /// Move the cursor to the next tab stop.
    fn run_tab(&mut self)
        requires
            old(self).wf(),
        ensures
            final(self).wf(),
            final(self).spec_id() == old(self).spec_id(),
            final(self).spec_title() == old(self).spec_title(),
            final(self).spec_active() == old(self).spec_active(),
            final(self).spec_modified() == old(self).spec_modified(),
            final(self).spec_stats().bytes_received == old(self).spec_stats().bytes_received,
            final(self).parser_model() == old(self).parser_model(),
            command_applied(old(self).spec_core(), final(self).spec_core(), CommandToken::Tab),
    {
        proof {
            reveal(command_applied);
        }
        let _ = self.cursor.tab_forward(&self.tabs, &self.screen_buffer);
    }

    /// Move the cursor one cell back.
    fn run_backspace(&mut self)
        requires
            old(self).wf(),
        ensures
            final(self).wf(),
            final(self).spec_id() == old(self).spec_id(),
            final(self).spec_title() == old(self).spec_title(),
            final(self).spec_active() == old(self).spec_active(),
            final(self).spec_modified() == old(self).spec_modified(),
            final(self).spec_stats().bytes_received == old(self).spec_stats().bytes_received,
            final(self).parser_model() == old(self).parser_model(),
            command_applied(old(self).spec_core(), final(self).spec_core(), CommandToken::Backspace),
    {
        proof {
            reveal(command_applied);
        }
        let _ = self.cursor.backspace(&self.screen_buffer);
    }

    /// Push the cursor position onto the save stack.
    fn run_save_cursor(&mut self)
        requires
            old(self).wf(),
        ensures
            final(self).wf(),
            final(self).spec_id() == old(self).spec_id(),
            final(self).spec_title() == old(self).spec_title(),
            final(self).spec_active() == old(self).spec_active(),
            final(self).spec_modified() == old(self).spec_modified(),
            final(self).spec_stats().bytes_received == old(self).spec_stats().bytes_received,
            final(self).parser_model() == old(self).parser_model(),
            command_applied(old(self).spec_core(), final(self).spec_core(), CommandToken::SaveCursor),
    {
        proof {
            reveal(command_applied);
        }
        self.cursor.save_position();
    }

    /// Pop and restore the last saved cursor position.
    fn run_restore_cursor(&mut self)
        requires
            old(self).wf(),
        ensures
            final(self).wf(),
            final(self).spec_id() == old(self).spec_id(),
            final(self).spec_title() == old(self).spec_title(),
            final(self).spec_active() == old(self).spec_active(),
            final(self).spec_modified() == old(self).spec_modified(),
            final(self).spec_stats().bytes_received == old(self).spec_stats().bytes_received,
            final(self).parser_model() == old(self).parser_model(),
            command_applied(old(self).spec_core(), final(self).spec_core(), CommandToken::RestoreCursor),
    {
        proof {
            reveal(command_applied);
        }
        let _ = self.cursor.restore_position(&self.screen_buffer);
    }

    /// Insert blank lines at the cursor row.
    fn run_insert_lines(&mut self, n: u16)
        requires
            old(self).wf(),
        ensures
            final(self).wf(),
            final(self).spec_id() == old(self).spec_id(),
            final(self).spec_title() == old(self).spec_title(),
            final(self).spec_active() == old(self).spec_active(),
            final(self).spec_modified() == old(self).spec_modified(),
            final(self).spec_stats().bytes_received == old(self).spec_stats().bytes_received,
            final(self).parser_model() == old(self).parser_model(),
            command_applied(old(self).spec_core(), final(self).spec_core(), CommandToken::InsertLines(n)),
    {
        proof {
            reveal(command_applied);
        }
        let _ = self.screen_buffer.insert_lines(n, &self.cursor);
    }

    /// Delete lines at the cursor row.
    fn run_delete_lines(&mut self, n: u16)
        requires
            old(self).wf(),
        ensures
            final(self).wf(),
            final(self).spec_id() == old(self).spec_id(),
            final(self).spec_title() == old(self).spec_title(),
            final(self).spec_active() == old(self).spec_active(),
            final(self).spec_modified() == old(self).spec_modified(),
            final(self).spec_stats().bytes_received == old(self).spec_stats().bytes_received,
            final(self).parser_model() == old(self).parser_model(),
            command_applied(old(self).spec_core(), final(self).spec_core(), CommandToken::DeleteLines(n)),
    {
        proof {
            reveal(command_applied);
        }
        let _ = self.screen_buffer.delete_lines(n, &self.cursor);
    }

    /// Reinitialize the modes, the cursor and the tab stops.
    fn run_reset(&mut self)
        requires
            old(self).wf(),
        ensures
            final(self).wf(),
            final(self).spec_id() == old(self).spec_id(),
            final(self).spec_title() == old(self).spec_title(),
            final(self).spec_active() == old(self).spec_active(),
            final(self).spec_modified() == old(self).spec_modified(),
            final(self).spec_stats().bytes_received == old(self).spec_stats().bytes_received,
            final(self).parser_model() == old(self).parser_model(),
            command_applied(old(self).spec_core(), final(self).spec_core(), CommandToken::Reset),
    {
        proof {
            reveal(command_applied);
        }
        self.modes = TerminalModes::default();
        self.cursor = Cursor::new();
        self.tabs = TabStops::new(self.screen_buffer.width);
    }

    /// Apply a graphic-rendition parameter list to the current attributes.
    fn run_graphics_rendition(&mut self, params: Vec<u8>)
        requires
            old(self).wf(),
        ensures
            final(self).wf(),
            final(self).spec_id() == old(self).spec_id(),
            final(self).spec_title() == old(self).spec_title(),
            final(self).spec_active() == old(self).spec_active(),
            final(self).spec_modified() == old(self).spec_modified(),
            final(self).spec_stats().bytes_received == old(self).spec_stats().bytes_received,
            final(self).parser_model() == old(self).parser_model(),
            command_applied(
                old(self).spec_core(),
                final(self).spec_core(),
                CommandToken::SetGraphicsRendition(params@),
            ),
    {
        proof {
            reveal(command_applied);
        }
        let _ = self.modes.set_graphics_attributes(params.as_slice());
    }

    /// Execute one terminal command against the buffers, the cursor and the
    /// mode state, exactly as `command_applied` prescribes per command;
    /// commands the core does not implement only bump the unhandled
    /// counter.  Never fails.
    pub fn execute_terminal_command(&mut self, command: VtCommand) -> (r: PaneResult<()>)
        requires
            old(self).wf(),
        ensures
            r is Ok,
            final(self).wf(),
            final(self).spec_id() == old(self).spec_id(),
            final(self).spec_title() == old(self).spec_title(),
            final(self).spec_active() == old(self).spec_active(),
            final(self).spec_modified() == old(self).spec_modified(),
            final(self).spec_stats().bytes_received == old(self).spec_stats().bytes_received,
            final(self).parser_model() == old(self).parser_model(),
            command_applied(old(self).spec_core(), final(self).spec_core(), command.view_token()),
    {
        match command {
            VtCommand::PrintChar(ch) => self.run_print_char(ch),
            VtCommand::CursorUp(n) => self.run_cursor_up(n),
            VtCommand::CursorDown(n) => self.run_cursor_down(n),
            VtCommand::CursorForward(n) => self.run_cursor_forward(n),
            VtCommand::CursorBack(n) => self.run_cursor_back(n),
            VtCommand::CursorPosition(row, col) => self.run_cursor_position(row, col),
            VtCommand::ClearScreen(clear_type) => self.run_clear_screen(clear_type),
            VtCommand::ClearLine(clear_type) => self.run_clear_line(clear_type),
            VtCommand::LineFeed => self.run_line_feed(),
            VtCommand::CarriageReturn => self.run_carriage_return(),
            VtCommand::Tab => self.run_tab(),
            VtCommand::Backspace => self.run_backspace(),
            VtCommand::SetGraphicsRendition(params) => self.run_graphics_rendition(params),
            VtCommand::SaveCursor => self.run_save_cursor(),
            VtCommand::RestoreCursor => self.run_restore_cursor(),
            VtCommand::InsertLines(n) => self.run_insert_lines(n),
            VtCommand::DeleteLines(n) => self.run_delete_lines(n),
            VtCommand::Reset => self.run_reset(),
            _ => {
                if self.stats.unhandled_sequences < usize::MAX {
                    self.stats.unhandled_sequences = self.stats.unhandled_sequences + 1;
                }
                proof {
                    reveal(command_applied);
                }
            },
        }
        Ok(())
    }

    /// Resize the terminal to `rows` by `cols`; a zero size is refused.
    /// The screen keeps its content where it fits, the tab stops are
    /// recomputed, and the cursor is clamped back into bounds.
    pub fn resize(&mut self, rows: u16, cols: u16) -> (r: PaneResult<()>)
        requires
            old(self).wf(),
        ensures
            final(self).wf(),
            r is Ok <==> (rows > 0 && cols > 0),
            r is Err ==> *final(self) == *old(self) && r.get_Err_0() is ValidationError,
            r is Ok ==> {
                &&& final(self).spec_screen().width == cols
                &&& final(self).spec_screen().height == rows
                &&& final(self).spec_screen().lines@.len() == rows as int
                &&& forall|i: int|
                    0 <= i < rows as int ==> (#[trigger] final(self).spec_screen().lines@[i]).cells@.len() == cols as int
                &&& forall|i: int, j: int|
                    0 <= i < rows as int && i < old(self).spec_screen().height as int && 0 <= j
                        < cols as int ==> #[trigger] final(self).spec_screen().lines@[i].cells@[j]
                        == (if j < old(self).spec_screen().width as int {
                        old(self).spec_screen().lines@[i].cells@[j]
                    } else {
                        spec_default_cell()
                    })
                &&& forall|i: int|
                    old(self).spec_screen().height as int <= i < rows as int
                        ==> crate::pane::buffer::is_blank_line(
                        #[trigger] final(self).spec_screen().lines@[i],
                        cols,
                    )
                &&& final(self).spec_screen().dirty_regions.all_dirty
                &&& final(self).spec_cursor().position.row == vstd::math::min(
                    old(self).spec_cursor().position.row as int,
                    rows - 1,
                )
                &&& final(self).spec_cursor().position.col == vstd::math::min(
                    old(self).spec_cursor().position.col as int,
                    cols - 1,
                )
                &&& final(self).spec_core().tabs.spec_stops().len() == cols as int
                &&& forall|i: int|
                    0 <= i < cols as int ==> final(self).spec_core().tabs.spec_stops()[i] == (i % 8
                        == 0)
            },
    {
        if rows == 0 || cols == 0 {
            return Err(PaneError::validation("Invalid size"));
        }
        let _ = self.screen_buffer.resize(cols, rows);
        self.tabs = TabStops::new(cols);
        if self.cursor.position.row >= rows {
            self.cursor.position.row = rows - 1;
        }
        if self.cursor.position.col >= cols {
            self.cursor.position.col = cols - 1;
        }
        Ok(())
    }

    /// Search screen and scrollback for a pattern; scrollback matches come
    /// first, and a backward search reverses the order.
    pub fn search(&self, pattern: &str, direction: SearchDirection) -> (r: Vec<SearchMatch>)
        requires
            pattern@.len() > 0,
    {
        let mut matches = self.scrollback.search(pattern, true);
        let mut screen_matches = search_screen_lines(&self.screen_buffer, pattern);
        matches.append(&mut screen_matches);
        if let SearchDirection::Backward = direction {
            let mut reversed: Vec<SearchMatch> = Vec::new();
            let mut i: usize = matches.len();
            while i > 0
                invariant
                    i <= matches@.len(),
                decreases i,
            {
                i = i - 1;
                reversed.push(matches[i].clone());
            }
            return reversed;
        }
        matches
    }

    /// Clear the whole screen and home the cursor.
    pub fn clear_screen(&mut self) -> (r: PaneResult<()>)
        requires
            old(self).wf(),
        ensures
            r is Ok,
            final(self).wf(),
            crate::pane::buffer::screen_cleared_all(
                old(self).spec_screen(),
                final(self).spec_screen(),
            ),
            final(self).spec_cursor().position.row == 0,
            final(self).spec_cursor().position.col == 0,
    {
        self.screen_buffer.clear_screen(ClearType::All, &mut self.cursor)
    }

    /// Drop the whole scrollback history.
    pub fn clear_scrollback(&mut self) -> (r: PaneResult<()>)
        requires
            old(self).wf(),
        ensures
            r is Ok,
            final(self).wf(),
            final(self).spec_scrollback().lines@.len() == 0,
    {
        self.scrollback.clear();
        Ok(())
    }

    /// Apply a theme to every cell of the screen and the scrollback, and
    /// mark everything dirty.
    pub fn apply_theme(&mut self, theme: &Theme) -> (r: PaneResult<()>)
        requires
            old(self).wf(),
        ensures
            r is Ok,
            final(self).wf(),
            final(self).spec_screen().dirty_regions.all_dirty,
    {
        let n = self.screen_buffer.lines.len();
        let mut i: usize = 0;
        while i < n
            invariant
                i <= n,
                n == self.screen_buffer.lines@.len(),
                self.screen_buffer.wf(),
                self.screen_buffer.width == old(self).spec_screen().width,
                self.screen_buffer.height == old(self).spec_screen().height,
                self.scrollback == old(self).spec_scrollback(),
                self.cursor == old(self).spec_cursor(),
                self.tabs == old(self).tabs,
                old(self).wf(),
            decreases n - i,
        {
            let line = &mut self.screen_buffer.lines[i];
            apply_theme_to_line(line, theme);
            i = i + 1;
        }
        apply_theme_to_scrollback(&mut self.scrollback, theme);
        self.screen_buffer.mark_all_dirty();
        Ok(())
    }

    /// Check the structural invariants explicitly, as a recovery aid: a
    /// cursor out of bounds or a line count that disagrees with the
    /// configured size is reported as a state error.
    pub fn validate_state(&self) -> (r: PaneResult<()>)
        ensures
            r is Ok <==> {
                &&& self.spec_cursor().position.row < self.spec_screen().height
                &&& self.spec_cursor().position.col < self.spec_screen().width
                &&& self.spec_screen().lines@.len() == self.spec_screen().height as int
                &&& forall|i: int|
                    0 <= i < self.spec_screen().lines@.len() ==> (#[trigger] self.spec_screen().lines@[i]).cells@.len()
                        == self.spec_screen().width as int
            },
            self.wf() ==> r is Ok,
            r is Err ==> r.get_Err_0() is StateError,
    {
        let (width, height) = self.get_size();
        if self.cursor.position.row >= height || self.cursor.position.col >= width {
            return Err(PaneError::state("Cursor position is outside the screen"));
        }
        if self.screen_buffer.lines.len() != height as usize {
            return Err(PaneError::state("Screen line count does not match the height"));
        }
        let n = self.screen_buffer.lines.len();
        let mut i: usize = 0;
        while i < n
            invariant
                i <= n,
                n == self.screen_buffer.lines@.len(),
                forall|k: int|
                    0 <= k < i ==> (#[trigger] self.screen_buffer.lines@[k]).cells@.len()
                        == width as int,
                width == self.screen_buffer.width,
            decreases n - i,
        {
            if self.screen_buffer.lines[i].cells.len() != width as usize {
                return Err(PaneError::state("A line's cell count does not match the width"));
            }
            i = i + 1;
        }
        Ok(())
    }

    /// Mark the whole screen as needing a redraw.
    pub fn refresh(&mut self) -> (r: PaneResult<()>)
        requires
            old(self).wf(),
        ensures
            r is Ok,
            final(self).wf(),
            final(self).spec_screen().dirty_regions.all_dirty,
    {
        self.screen_buffer.mark_all_dirty();
        Ok(())
    }

    /// Whether anything is waiting to be rendered.
    pub fn needs_render(&self) -> (r: bool)
        ensures
            r == (self.spec_screen().dirty_regions.all_dirty || exists|i: int|
                0 <= i < self.spec_screen().dirty_regions.dirty_lines@.len()
                    && self.spec_screen().dirty_regions.dirty_lines@[i]),
    {
        if self.screen_buffer.dirty_regions.all_dirty {
            return true;
        }
        let n = self.screen_buffer.dirty_regions.dirty_lines.len();
        let mut i: usize = 0;
        while i < n
            invariant
                i <= n,
                n == self.spec_screen().dirty_regions.dirty_lines@.len(),
                forall|k: int|
                    0 <= k < i ==> !self.spec_screen().dirty_regions.dirty_lines@[k],
            decreases n - i,
        {
            if self.screen_buffer.dirty_regions.dirty_lines[i] {
                return true;
            }
            i = i + 1;
        }
        false
    }
}

/// Apply a theme to every cell of one line and mark it dirty.
fn apply_theme_to_line(line: &mut Line, theme: &Theme)
    ensures
        final(line).cells@.len() == old(line).cells@.len(),
        final(line).wrapped == old(line).wrapped,
        final(line).dirty,
{
    let n = line.cells.len();
    let mut i: usize = 0;
    while i < n
        invariant
            i <= n,
            n == line.cells@.len(),
            line.wrapped == old(line).wrapped,
        decreases n - i,
    {
        let cell = &mut line.cells[i];
        cell.apply_theme(theme);
        i = i + 1;
    }
    line.dirty = true;
}

/// Apply a theme to every line of the scrollback history.
fn apply_theme_to_scrollback(scrollback: &mut ScrollbackBuffer, theme: &Theme)
    requires
        old(scrollback).wf(),
    ensures
        final(scrollback).wf(),
        final(scrollback).max_lines == old(scrollback).max_lines,
        final(scrollback).lines@.len() == old(scrollback).lines@.len(),
{
    let n = scrollback.lines.len();
    let mut i: usize = 0;
    while i < n
        invariant
            i <= n,
            n == scrollback.lines@.len(),
            scrollback.wf(),
            scrollback.max_lines == old(scrollback).max_lines,
        decreases n - i,
    {
        if let Some(mut line) = scrollback.lines.pop_front() {
            apply_theme_to_line(&mut line, theme);
            scrollback.lines.push_back(line);
            proof {
                assert(scrollback.lines@.len() == n);
            }
        }
        i = i + 1;
    }
}

/// Scan the visible screen for every occurrence of a pattern.
fn search_screen_lines(screen: &ScreenBuffer, pattern: &str) -> (r: Vec<SearchMatch>)
    requires
        pattern@.len() > 0,
{
    let pat = crate::text::str_chars(pattern);
    let mut matches: Vec<SearchMatch> = Vec::new();
    let n = screen.lines.len();
    let mut line_idx: usize = 0;
    while line_idx < n
        invariant
            line_idx <= n,
            n == screen.lines@.len(),
            pat@.len() == pattern@.len() > 0,
        decreases n - line_idx,
    {
        let line = &screen.lines[line_idx];
        let width = line.cells.len();
        let m = pat.len();
        if m <= width {
            let last_start = width - m;
            let mut start: usize = 0;
            while start <= last_start
                invariant
                    start <= last_start + 1,
                    last_start == width - m,
                    m == pat@.len() > 0,
                    width == line.cells@.len(),
                decreases last_start + 1 - start,
            {
                let mut j: usize = 0;
                let mut hit = true;
                while j < m
                    invariant
                        j <= m,
                        m == pat@.len(),
                        start + m <= width,
                        width == line.cells@.len(),
                    decreases m - j,
                {
                    if line.cells[start + j].character != pat[j] {
                        hit = false;
                        j = m;
                    } else {
                        j = j + 1;
                    }
                }
                if hit {
                    matches.push(
                        SearchMatch {
                            buffer_type: BufferType::Screen,
                            line: line_idx,
                            start_col: start,
                            end_col: start + m,
                            text: pattern.to_owned(),
                        },
                    );
                }
                start = start + 1;
            }
        }
        line_idx = line_idx + 1;
    }
    matches
}

} // verus!
