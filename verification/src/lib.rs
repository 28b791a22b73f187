//! A terminal-emulator core: a byte-level VT/ANSI sequence parser, a sequence
//! interpreter, a screen buffer with scrollback history, a cursor model, and
//! the surrounding mode, tab-stop and input state that a terminal session
//! needs.  Malformed input is dropped, never an error: feeding bytes can
//! neither fail nor panic.

pub mod frame;
pub mod glazing;
pub mod pane;
pub mod sill;
pub mod sash;
pub mod text;
