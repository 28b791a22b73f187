//! Errors of the window (sash) layer.

use vstd::prelude::*;
use crate::sash::ids::PaneId;

verus! {

/// Main error type for the sash layer.
#[derive(Debug, Clone)]
pub enum SashError {
    PaneNotFound(PaneId),
    TabNotFound(usize),
    InvalidLayout(String),
    SplitFailed(String),
    ThemeError(String),
    ConfigError(String),
    LayoutConstraintViolation(String),
    MaxPanesExceeded(usize),
    MaxTabsExceeded(usize),
    PaneCreationFailed(String),
    EventError(String),
    NoActivePane,
    NoActiveTab,
    CannotCloseLastPane,
    CannotCloseLastTab,
    LayoutNotFound(String),
    InvalidPaneConfig(String),
    FocusFailed(String),
    TabOperationFailed(String),
    ThemeNotFound(String),
    InvalidColor(String),
    StateValidationFailed(String),
}

pub type SashResult<T> = Result<T, SashError>;

} // verus!
