//! Errors of the pane layer, with recoverability and categories.

use vstd::prelude::*;
use crate::pane::pty::PtyError;

verus! {

/// Pane-specific error type.
#[derive(Debug, Clone)]
pub enum PaneError {
    PtyError(PtyError),
    ParseError(String),
    InvalidCursorPosition(u16, u16),
    BufferOverflow(usize, usize),
    ConfigError(String),
    ProcessError(String),
    SearchError(String),
    StateError(String),
    ResizeError(String),
    IoError(String),
    ThemeError(String),
    EventError(String),
    ValidationError(String),
    NotImplemented(String),
    InternalError(String),
}

pub type PaneResult<T> = Result<T, PaneError>;

/// Error categories for classification.
#[derive(Debug, Clone, Copy, PartialEq, Eq, Structural)]
pub enum ErrorCategory {
    Process,
    Terminal,
    Memory,
    Configuration,
    Content,
    State,
    Display,
    IO,
    Event,
    Validation,
    Implementation,
    Internal,
}

impl PaneError {
    /// Whether this error is recoverable.
    pub open spec fn spec_is_recoverable(self) -> bool {
        match self {
            PaneError::PtyError(pty_err) => match pty_err {
                PtyError::ProcessNotRunning => true,
                PtyError::InvalidSize { .. } => true,
                _ => false,
            },
            PaneError::ParseError(_) => true,
            PaneError::InvalidCursorPosition(_, _) => true,
            PaneError::ConfigError(_) => true,
            PaneError::SearchError(_) => true,
            PaneError::ThemeError(_) => true,
            PaneError::ValidationError(_) => true,
            PaneError::NotImplemented(_) => true,
            _ => false,
        }
    }

    /// The category each error kind falls into.
    pub open spec fn spec_category(self) -> ErrorCategory {
        match self {
            PaneError::PtyError(_) => ErrorCategory::Process,
            PaneError::ParseError(_) => ErrorCategory::Terminal,
            PaneError::InvalidCursorPosition(_, _) => ErrorCategory::Terminal,
            PaneError::BufferOverflow(_, _) => ErrorCategory::Memory,
            PaneError::ConfigError(_) => ErrorCategory::Configuration,
            PaneError::ProcessError(_) => ErrorCategory::Process,
            PaneError::SearchError(_) => ErrorCategory::Content,
            PaneError::StateError(_) => ErrorCategory::State,
            PaneError::ResizeError(_) => ErrorCategory::Display,
            PaneError::IoError(_) => ErrorCategory::IO,
            PaneError::ThemeError(_) => ErrorCategory::Display,
            PaneError::EventError(_) => ErrorCategory::Event,
            PaneError::ValidationError(_) => ErrorCategory::Validation,
            PaneError::NotImplemented(_) => ErrorCategory::Implementation,
            PaneError::InternalError(_) => ErrorCategory::Internal,
        }
    }

    /// Create a parse error.
    pub fn parse(msg: &str) -> (r: Self)
        ensures
            r is ParseError,
            r->ParseError_0@ == msg@,
    {
        PaneError::ParseError(msg.to_owned())
    }

    /// Create a configuration error.
    pub fn config(msg: &str) -> (r: Self)
        ensures
            r is ConfigError,
            r->ConfigError_0@ == msg@,
    {
        PaneError::ConfigError(msg.to_owned())
    }

    /// Create a process error.
    pub fn process(msg: &str) -> (r: Self)
        ensures
            r is ProcessError,
            r->ProcessError_0@ == msg@,
    {
        PaneError::ProcessError(msg.to_owned())
    }

    /// Create a state error.
    pub fn state(msg: &str) -> (r: Self)
        ensures
            r is StateError,
            r->StateError_0@ == msg@,
    {
        PaneError::StateError(msg.to_owned())
    }

    /// Create an I/O error.
    pub fn io(msg: &str) -> (r: Self)
        ensures
            r is IoError,
            r->IoError_0@ == msg@,
    {
        PaneError::IoError(msg.to_owned())
    }

    /// Create a validation error.
    pub fn validation(msg: &str) -> (r: Self)
        ensures
            r is ValidationError,
            r->ValidationError_0@ == msg@,
    {
        PaneError::ValidationError(msg.to_owned())
    }

    /// Create a not-implemented error.
    pub fn not_implemented(feature: &str) -> (r: Self)
        ensures
            r is NotImplemented,
            r->NotImplemented_0@ == feature@,
    {
        PaneError::NotImplemented(feature.to_owned())
    }

    /// Whether this error is recoverable.
    pub fn is_recoverable(&self) -> (r: bool)
        ensures
            r == self.spec_is_recoverable(),
    {
        match self {
            PaneError::PtyError(pty_err) => match pty_err {
                PtyError::ProcessNotRunning => true,
                PtyError::InvalidSize { .. } => true,
                _ => false,
            },
            PaneError::ParseError(_) => true,
            PaneError::InvalidCursorPosition(_, _) => true,
            PaneError::ConfigError(_) => true,
            PaneError::SearchError(_) => true,
            PaneError::ThemeError(_) => true,
            PaneError::ValidationError(_) => true,
            PaneError::NotImplemented(_) => true,
            _ => false,
        }
    }

    /// The category of this error, for reporting.
    pub fn category(&self) -> (r: ErrorCategory)
        ensures
            r == self.spec_category(),
    {
        match self {
            PaneError::PtyError(_) => ErrorCategory::Process,
            PaneError::ParseError(_) => ErrorCategory::Terminal,
            PaneError::InvalidCursorPosition(_, _) => ErrorCategory::Terminal,
            PaneError::BufferOverflow(_, _) => ErrorCategory::Memory,
            PaneError::ConfigError(_) => ErrorCategory::Configuration,
            PaneError::ProcessError(_) => ErrorCategory::Process,
            PaneError::SearchError(_) => ErrorCategory::Content,
            PaneError::StateError(_) => ErrorCategory::State,
            PaneError::ResizeError(_) => ErrorCategory::Display,
            PaneError::IoError(_) => ErrorCategory::IO,
            PaneError::ThemeError(_) => ErrorCategory::Display,
            PaneError::EventError(_) => ErrorCategory::Event,
            PaneError::ValidationError(_) => ErrorCategory::Validation,
            PaneError::NotImplemented(_) => ErrorCategory::Implementation,
            PaneError::InternalError(_) => ErrorCategory::Internal,
        }
    }
}

impl ErrorCategory {
    /// Human-readable category name.
    pub fn name(&self) -> (r: &'static str) {
        match self {
            ErrorCategory::Process => "Process Management",
            ErrorCategory::Terminal => "Terminal Emulation",
            ErrorCategory::Memory => "Memory Management",
            ErrorCategory::Configuration => "Configuration",
            ErrorCategory::Content => "Content Management",
            ErrorCategory::State => "State Management",
            ErrorCategory::Display => "Display/Rendering",
            ErrorCategory::IO => "Input/Output",
            ErrorCategory::Event => "Event Handling",
            ErrorCategory::Validation => "Validation",
            ErrorCategory::Implementation => "Implementation",
            ErrorCategory::Internal => "Internal Error",
        }
    }

    /// Suggested user action for this category.
    pub fn user_action(&self) -> (r: &'static str) {
        match self {
            ErrorCategory::Process => "Check process permissions and availability",
            ErrorCategory::Terminal => "Verify terminal compatibility",
            ErrorCategory::Memory => "Free up system memory",
            ErrorCategory::Configuration => "Check configuration settings",
            ErrorCategory::Content => "Verify content format",
            ErrorCategory::State => "Restart the pane",
            ErrorCategory::Display => "Check display settings",
            ErrorCategory::IO => "Check file permissions and network connectivity",
            ErrorCategory::Event => "Report this issue",
            ErrorCategory::Validation => "Check input parameters",
            ErrorCategory::Implementation => "Feature not yet available",
            ErrorCategory::Internal => "Report this issue",
        }
    }
}

impl From<PtyError> for PaneError {
    fn from(err: PtyError) -> (r: PaneError) {
        PaneError::PtyError(err)
    }
}

impl vstd::std_specs::convert::FromSpecImpl<PtyError> for PaneError {
    open spec fn obeys_from_spec() -> bool {
        true
    }

    open spec fn from_spec(err: PtyError) -> PaneError {
        PaneError::PtyError(err)
    }
}

impl From<String> for PaneError {
    fn from(err: String) -> (r: PaneError) {
        PaneError::InternalError(err)
    }
}

impl vstd::std_specs::convert::FromSpecImpl<String> for PaneError {
    open spec fn obeys_from_spec() -> bool {
        true
    }

    open spec fn from_spec(err: String) -> PaneError {
        PaneError::InternalError(err)
    }
}

} // verus!
