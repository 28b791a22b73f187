//! Mouse data and the pure parts of mouse handling: positions, buttons,
//! event kinds, reporting modes, coordinate mapping between pixels and
//! cells, and mode bookkeeping.

use vstd::prelude::*;
use crate::sill::errors::SillResult;
use crate::sill::input::InputMode;

verus! {

/// Mouse position in terminal coordinates.
#[derive(Debug, Clone, Copy, PartialEq, Eq, Structural)]
pub struct MousePosition {
    pub row: u16,
    pub col: u16,
}

/// Mouse buttons.
#[derive(Debug, Clone, Copy, PartialEq, Eq, Structural)]
pub enum MouseButton {
    Left,
    Right,
    Middle,
    Back,
    Forward,
    WheelUp,
    WheelDown,
    WheelLeft,
    WheelRight,
    Other(u8),
}

/// Mouse event kinds.
#[derive(Debug, Clone, Copy, PartialEq, Eq, Structural)]
pub enum MouseEventType {
    Press,
    Release,
    Move,
    Drag,
    Scroll,
}

/// Mouse reporting modes of the terminal protocol.
#[derive(Debug, Clone, Copy, PartialEq, Eq, Structural)]
pub enum MouseMode {
    /// No reporting to the terminal application.
    Normal,
    /// Early compatibility mode: button presses only.
    X10,
    /// Press and release reporting.
    ButtonTracking,
    /// Reporting of every mouse event.
    AnyEventTracking,
    /// Focus change reporting.
    FocusTracking,
}

/// Translates platform mouse codes into the normalized forms; the
/// normalized forms are already platform-free here, so the translation
/// is the identity.
#[derive(Debug, Clone, Copy, PartialEq, Eq, Structural)]
pub struct EventTranslator;

impl EventTranslator {
    pub fn new() -> (r: Self) {
        EventTranslator
    }

    /// Translate a platform button code.
    pub fn translate_button(&self, button: MouseButton) -> (r: SillResult<MouseButton>)
        ensures
            r == Ok::<MouseButton, crate::sill::errors::SillError>(button),
    {
        Ok(button)
    }

    /// Translate a platform event kind.
    pub fn translate_event_type(&self, event_type: MouseEventType) -> (r: SillResult<
        MouseEventType,
    >)
        ensures
            r == Ok::<MouseEventType, crate::sill::errors::SillError>(event_type),
    {
        Ok(event_type)
    }
}

/// Maps between screen pixel coordinates and terminal cell coordinates.
#[derive(Debug, Clone, Copy, PartialEq, Eq, Structural)]
pub struct CoordinateMapper {
    cell_width: u16,
    cell_height: u16,
    terminal_width: u16,
    terminal_height: u16,
}

impl CoordinateMapper {
    /// The cell size in pixels.
    pub closed spec fn spec_cell_size(self) -> (u16, u16) {
        (self.cell_width, self.cell_height)
    }

    /// The terminal size in cells.
    pub closed spec fn spec_terminal_size(self) -> (u16, u16) {
        (self.terminal_width, self.terminal_height)
    }

    /// A mapper for the stock cell size of eight by sixteen pixels on an
    /// eighty-by-24 terminal.
    pub fn new() -> (r: Self)
        ensures
            r.spec_cell_size() == (8u16, 16u16),
            r.spec_terminal_size() == (80u16, 24u16),
    {
        CoordinateMapper { cell_width: 8, cell_height: 16, terminal_width: 80, terminal_height: 24 }
    }

    /// Convert pixel coordinates to a cell position: each coordinate is
    /// divided by the cell size and clamped into the terminal; negative
    /// coordinates are refused.
    pub fn screen_to_terminal(&self, x: i32, y: i32) -> (r: SillResult<MousePosition>)
        requires
            self.spec_cell_size().0 > 0,
            self.spec_cell_size().1 > 0,
        ensures
            r is Ok <==> (x >= 0 && y >= 0),
            r is Ok ==> ({
                let col = vstd::math::min(
                    ((x as u16) as int) / (self.spec_cell_size().0 as int),
                    vstd::math::max(self.spec_terminal_size().0 - 1, 0),
                );
                let row = vstd::math::min(
                    ((y as u16) as int) / (self.spec_cell_size().1 as int),
                    vstd::math::max(self.spec_terminal_size().1 - 1, 0),
                );
                r.get_Ok_0() == (MousePosition { row: row as u16, col: col as u16 })
            }),
    {
        if x < 0 || y < 0 {
            return Err(crate::sill::errors::SillError::mouse_processing("Negative coordinates"));
        }
        let max_col: u16 = if self.terminal_width == 0 {
            0
        } else {
            self.terminal_width - 1
        };
        let max_row: u16 = if self.terminal_height == 0 {
            0
        } else {
            self.terminal_height - 1
        };
        let x16: u16 = #[verifier::truncate] (x as u16);
        let y16: u16 = #[verifier::truncate] (y as u16);
        let col_raw = x16 / self.cell_width;
        let row_raw = y16 / self.cell_height;
        let col = if col_raw <= max_col {
            col_raw
        } else {
            max_col
        };
        let row = if row_raw <= max_row {
            row_raw
        } else {
            max_row
        };
        Ok(MousePosition { row, col })
    }

    /// Convert a cell position back to the pixel coordinates of its
    /// upper-left corner, stopping at the largest representable
    /// coordinate.
    pub fn terminal_to_screen(&self, position: MousePosition) -> (r: (i32, i32))
        ensures
            r.0 == vstd::math::min(
                position.col as int * self.spec_cell_size().0 as int,
                i32::MAX as int,
            ),
            r.1 == vstd::math::min(
                position.row as int * self.spec_cell_size().1 as int,
                i32::MAX as int,
            ),
    {
        proof {
            assert(position.col as int * self.cell_width as int <= 0xffff * 0xffffi64)
                by (nonlinear_arith)
                requires
                    0 <= position.col as int <= 0xffff,
                    0 <= self.cell_width as int <= 0xffff,
            ;
            assert(position.row as int * self.cell_height as int <= 0xffff * 0xffffi64)
                by (nonlinear_arith)
                requires
                    0 <= position.row as int <= 0xffff,
                    0 <= self.cell_height as int <= 0xffff,
            ;
        }
        let xw: i64 = position.col as i64 * self.cell_width as i64;
        let yw: i64 = position.row as i64 * self.cell_height as i64;
        let x: i32 = if xw <= i32::MAX as i64 {
            xw as i32
        } else {
            i32::MAX
        };
        let y: i32 = if yw <= i32::MAX as i64 {
            yw as i32
        } else {
            i32::MAX
        };
        (x, y)
    }

    /// Set the terminal dimensions.
    pub fn set_terminal_size(&mut self, width: u16, height: u16)
        ensures
            final(self).spec_terminal_size() == (width, height),
            final(self).spec_cell_size() == old(self).spec_cell_size(),
    {
        self.terminal_width = width;
        self.terminal_height = height;
    }
}

/// Tracks the mouse reporting mode and whether events reach the terminal
/// application.
#[derive(Debug, Clone, Copy, PartialEq, Eq, Structural)]
pub struct MouseModeManager {
    current_mode: MouseMode,
    input_mode: InputMode,
    tracking_enabled: bool,
}

impl MouseModeManager {
    /// The reporting mode in force.
    pub closed spec fn spec_mode(self) -> MouseMode {
        self.current_mode
    }

    /// The input mode in force.
    pub closed spec fn spec_input_mode(self) -> InputMode {
        self.input_mode
    }

    /// Whether the mode in force tracks events.
    pub closed spec fn spec_tracking(self) -> bool {
        self.tracking_enabled
    }

    /// A new manager: normal modes, no tracking.
    pub fn new() -> (r: Self)
        ensures
            r.spec_mode() == MouseMode::Normal,
            r.spec_input_mode() == InputMode::Normal,
            !r.spec_tracking(),
    {
        MouseModeManager {
            current_mode: MouseMode::Normal,
            input_mode: InputMode::Normal,
            tracking_enabled: false,
        }
    }

    /// Set the reporting mode; the tracking modes enable tracking.
    pub fn set_mouse_mode(&mut self, mode: MouseMode)
        ensures
            final(self).spec_mode() == mode,
            final(self).spec_input_mode() == old(self).spec_input_mode(),
            final(self).spec_tracking() == (mode is ButtonTracking || mode is AnyEventTracking
                || mode is FocusTracking),
    {
        self.current_mode = mode;
        self.tracking_enabled = matches!(
            mode,
            MouseMode::ButtonTracking | MouseMode::AnyEventTracking | MouseMode::FocusTracking
        );
    }

    /// Set the input mode.
    pub fn set_input_mode(&mut self, mode: InputMode)
        ensures
            final(self).spec_input_mode() == mode,
            final(self).spec_mode() == old(self).spec_mode(),
            final(self).spec_tracking() == old(self).spec_tracking(),
    {
        self.input_mode = mode;
    }

    /// Whether mouse events should be reported to the terminal
    /// application: only with tracking on and the application input mode
    /// in force.
    pub fn should_report_to_terminal(&self) -> (r: bool)
        ensures
            r == (self.spec_tracking() && self.spec_input_mode() == InputMode::Application),
    {
        self.tracking_enabled && matches!(self.input_mode, InputMode::Application)
    }
}

} // verus!
