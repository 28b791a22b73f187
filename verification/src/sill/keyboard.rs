//! Keyboard data: keys, modifier state, key events, sequences and
//! mappings.  Timestamps are plain milliseconds handed in by the platform
//! layer.

use vstd::prelude::*;
use crate::sill::input::InputMode;

verus! {

/// Every key the input layer can name.
#[derive(Debug, Clone, PartialEq, Eq, Structural, Hash, Copy)]
pub enum Key {
    Character(char),
    Backspace,
    Tab,
    Enter,
    Escape,
    Space,
    Delete,
    ArrowLeft,
    ArrowRight,
    ArrowUp,
    ArrowDown,
    ApplicationCursorLeft,
    ApplicationCursorRight,
    ApplicationCursorUp,
    ApplicationCursorDown,
    Function(u8),
    Shift,
    Control,
    Alt,
    Meta,
    Home,
    End,
    PageUp,
    PageDown,
    Insert,
    KeypadEnter,
    KeypadPlus,
    KeypadMinus,
    KeypadMultiply,
    KeypadDivide,
    KeypadDecimal,
    KeypadNumber(u8),
    VolumeUp,
    VolumeDown,
    VolumeMute,
    PrintScreen,
    ScrollLock,
    Pause,
    Menu,
    Unknown(u32),
}

/// Modifier key state.
#[derive(Debug, Clone, Copy, Default, PartialEq, Eq, Structural, Hash)]
pub struct Modifiers {
    pub ctrl: bool,
    pub alt: bool,
    pub shift: bool,
    pub meta: bool,
}

impl Modifiers {
    /// Whether any modifier is held.
    pub fn any(&self) -> (r: bool)
        ensures
            r == (self.ctrl || self.alt || self.shift || self.meta),
    {
        self.ctrl || self.alt || self.shift || self.meta
    }

    /// Whether exactly the given combination is held.
    pub fn matches(&self, ctrl: bool, alt: bool, shift: bool, meta: bool) -> (r: bool)
        ensures
            r == (self.ctrl == ctrl && self.alt == alt && self.shift == shift && self.meta
                == meta),
    {
        self.ctrl == ctrl && self.alt == alt && self.shift == shift && self.meta == meta
    }
}

/// Press, release or repeat.
#[derive(Debug, Clone, Copy, PartialEq, Eq, Structural)]
pub enum KeyState {
    Press,
    Release,
    Repeat,
}

/// A key event after platform normalization.
#[derive(Debug, Clone, Copy, PartialEq, Eq, Structural)]
pub struct NormalizedKeyEvent {
    pub key: Key,
    pub character: Option<char>,
    pub modifiers: Modifiers,
    pub state: KeyState,
    pub timestamp_ms: u64,
}

/// A fully processed key event.
#[derive(Debug, Clone, Copy, PartialEq, Eq, Structural)]
pub struct KeyEvent {
    pub key: Key,
    pub character: Option<char>,
    pub modifiers: Modifiers,
    pub state: KeyState,
    pub timestamp_ms: u64,
    pub input_mode: InputMode,
}

/// A named multi-key sequence.
#[derive(Debug, Clone, PartialEq, Eq, Hash)]
pub struct KeySequence {
    pub keys: Vec<Key>,
    pub name: String,
    pub timeout_ms: u64,
}

/// One user key mapping: a source key and modifiers, the key it maps to,
/// and the input mode it is restricted to, if any.
#[derive(Debug, Clone, Copy, PartialEq, Eq, Structural, Hash)]
pub struct KeyMapping {
    pub source_key: Key,
    pub modifiers: Modifiers,
    pub target_key: Key,
    pub mode: Option<InputMode>,
}

impl KeyMapping {
    /// Whether this mapping applies to the given event in the given mode.
    pub fn matches(&self, event: &NormalizedKeyEvent, mode: &InputMode) -> (r: bool)
        ensures
            r == (event.key == self.source_key && event.modifiers == self.modifiers && (self.mode
                is None || self.mode == Some(*mode))),
    {
        event.key == self.source_key && event.modifiers == self.modifiers && (self.mode.is_none()
            || self.mode == Some(*mode))
    }
}

/// Keyboard configuration: mappings, sequences and repeat timing in
/// milliseconds.
#[derive(Debug, Clone)]
pub struct KeyboardConfig {
    pub mappings: Vec<KeyMapping>,
    pub sequences: Vec<KeySequence>,
    pub repeat_delay_ms: u64,
    pub repeat_rate_ms: u64,
    pub sequence_timeout_ms: u64,
    pub enable_application_mode: bool,
    pub enable_bracketed_paste: bool,
}

impl Default for KeyboardConfig {
    /// No mappings or sequences, stock repeat timing.
    fn default() -> (c: Self)
        ensures
            c.mappings@.len() == 0,
            c.sequences@.len() == 0,
            c.repeat_delay_ms == 500,
            c.repeat_rate_ms == 33,
            c.sequence_timeout_ms == 1000,
            c.enable_application_mode,
            c.enable_bracketed_paste,
    {
        KeyboardConfig {
            mappings: Vec::new(),
            sequences: Vec::new(),
            repeat_delay_ms: 500,
            repeat_rate_ms: 33,
            sequence_timeout_ms: 1000,
            enable_application_mode: true,
            enable_bracketed_paste: true,
        }
    }
}

} // verus!
