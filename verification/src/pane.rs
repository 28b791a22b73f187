//! The terminal core of one pane: screen and scrollback buffers, the cursor,
//! the byte-level sequence parser and interpreter, and the state the
//! interpreter's operations read and mutate.

pub mod buffer;
pub mod config;
pub mod cursor;
pub mod events;
pub mod laws;
pub mod orchestrator;
pub mod errors;
pub mod pty;
pub mod state;
pub mod terminal;

pub use config::{BellAction, BuiltinProfiles, PaneConfig, PaneProfile};
pub use events::{
    ContentRegion, EventPriority, PaneEventType, PaneStatistics, ScrollPosition, SearchDirection,
    Selection, SelectionPoint, SelectionType,
};
pub use orchestrator::Pane;
pub use cursor::{BlinkState, Cursor, CursorPosition, CursorStyle, CursorVisibility};
pub use errors::{ErrorCategory, PaneError, PaneResult};
pub use state::{CharacterSet, CharacterSetSlot, CharacterSets, TabStops, TerminalModes};
pub use pty::{BasicPty, PtyConfig, PtyError, PtyFactory, PtyInterface, PtyResult};
pub use terminal::{
    ControlCode, CsiCommand, EscapeSequence, OscCommand, ParserState, Terminal, TerminalMode,
    VtCommand, VtInterpreter, VtParser, VtSequence,
};
pub use buffer::{
    BlinkType, BufferType, Cell, CellAttributes, ClearType, DirtyTracker, Line, ScreenBuffer,
    ScrollbackBuffer, SearchMatch, UnderlineType,
};
