//! Application-level configuration values: key shortcuts, fonts and
//! notification settings.

use vstd::prelude::*;

verus! {

/// Key modifiers for shortcuts.
#[derive(Debug, Clone, Copy, PartialEq, Eq, Structural, Hash)]
pub enum KeyModifier {
    Ctrl,
    Alt,
    Shift,
    Meta,
}

/// Individual keys for shortcuts.
#[derive(Debug, Clone, Copy, PartialEq, Eq, Structural, Hash)]
pub enum Key {
    Char(char),
    Function(u8),
    Tab,
    Enter,
    Escape,
    Backspace,
    Delete,
    Insert,
    Home,
    End,
    PageUp,
    PageDown,
    Up,
    Down,
    Left,
    Right,
}

/// Key combination for shortcuts.
#[derive(Debug, Clone, PartialEq, Eq, Hash)]
pub struct KeyCombination {
    pub modifiers: Vec<KeyModifier>,
    pub key: Key,
}

/// Notification settings.
#[derive(Debug, Clone, Copy, PartialEq, Eq, Structural)]
pub struct NotificationSettings {
    pub enabled: bool,
    pub show_system_notifications: bool,
    pub play_sound: bool,
    pub flash_window: bool,
}

impl Default for NotificationSettings {
    fn default() -> (c: Self)
        ensures
            c == (NotificationSettings {
                enabled: true,
                show_system_notifications: true,
                play_sound: false,
                flash_window: true,
            }),
    {
        NotificationSettings {
            enabled: true,
            show_system_notifications: true,
            play_sound: false,
            flash_window: true,
        }
    }
}

/// Font weight.
#[derive(Debug, Clone, Copy, PartialEq, Eq, Structural)]
pub enum FontWeight {
    Normal,
    Bold,
    Light,
    ExtraLight,
    SemiBold,
    ExtraBold,
}

/// Font style.
#[derive(Debug, Clone, Copy, PartialEq, Eq, Structural)]
pub enum FontStyle {
    Normal,
    Italic,
    Oblique,
}

/// Color scheme preference.
#[derive(Debug, Clone, Copy, PartialEq, Eq, Structural)]
pub enum ColorScheme {
    Light,
    Dark,
    Auto,
}

} // verus!
