//! The input layer: keyboard and selection state, input statistics, and the
//! errors and events of input handling.

pub mod clipboard;
pub mod commands;
pub mod errors;
pub mod events;
pub mod input;
pub mod keyboard;
pub mod mouse;
pub mod selection;

pub use clipboard::{ClipboardConfig, ClipboardFormat, ClipboardManager, SelectionBuffer, SystemClipboard};
pub use commands::{CommandResult, CommandStats, CommandTarget, CursorDirection, EventFilter, FilterRule, FocusManager, InputCommand, KeyFilter, MouseFilter, ResizeDirection, RoutingConfig, ScrollDirection, SideEffect, SplitDirection};
pub use errors::{ContextualError, ErrorContext, ErrorReporter, ErrorSeverity, ErrorStatistics, SillError, SillResult};
pub use events::{ClipboardOperation, DebugEventListener, EventStatistics, PerformanceMetric, SillEventType};
pub use input::{InputMode, InputPerformanceTracker, InputStatistics, RawKeyEvent, RawModifiers};
pub use keyboard::{Key, KeyEvent, KeyMapping, KeySequence, KeyState, KeyboardConfig, Modifiers, NormalizedKeyEvent};
pub use mouse::{CoordinateMapper, EventTranslator, MouseButton, MouseEventType, MouseMode, MouseModeManager, MousePosition};
pub use selection::{Selection, SelectionConfig, SelectionEngine, SelectionHistory, SelectionMode, SelectionPosition};
