//! Errors of the application layer, with user-facing messages, error codes
//! and severities.

use vstd::prelude::*;
use vstd::string::StringExecFns;
use crate::frame::ids::SashId;
use crate::frame::events::ListenerId;

verus! {

/// Main error type for the application layer.
#[derive(Debug)]
pub enum FrameError {
    InitializationFailed(String),
    WindowNotFound(SashId),
    InvalidWindowState(String),
    CommandFailed(String),
    ConfigurationError(ConfigError),
    EventError(EventError),
    ShutdownError(String),
    ResourceError(String),
    StateError(String),
    Io(String),
    ThreadError(String),
    TimeoutError(String),
}

/// Configuration-related errors.
#[derive(Debug)]
pub enum ConfigError {
    LoadFailed(String),
    SaveFailed(String),
    ValidationFailed(String),
    InvalidValue(String),
    MissingRequired(String),
    FileNotFound(String),
    ParseError(String),
    PermissionError(String),
    Io(String),
    SerializationError(String),
    DeserializationError(String),
}

/// Command execution errors.
#[derive(Debug)]
pub enum CommandError {
    ExecutionFailed(String),
    InvalidCommand(String),
    NotSupported(String),
    NoHandler(String),
    HandlerRegistrationFailed(String),
    Timeout(String),
    ValidationFailed(String),
    PermissionDenied(String),
    ResourceNotAvailable(String),
    StateError(String),
    FrameError(FrameError),
}

/// Event system errors.
#[derive(Debug)]
pub enum EventError {
    ListenerFailed(String),
    DispatchFailed(String),
    InvalidEvent(String),
    SerializationFailed(String),
    DeserializationFailed(String),
    RegistrationFailed(String),
    ListenerNotFound(ListenerId),
    QueueOverflow(String),
    ProcessingTimeout(String),
    RecursiveDispatch(String),
    ThreadError(String),
}

/// Window management errors.
#[derive(Debug)]
pub enum WindowError {
    CreationFailed(String),
    DestructionFailed(String),
    WindowNotFound(SashId),
    WindowAlreadyExists(SashId),
    InvalidConfiguration(String),
    OperationNotAllowed(String),
    StateError(String),
    FocusError(String),
    ResizeError(String),
    MoveError(String),
}

/// Resource management errors.
#[derive(Debug)]
pub enum ResourceError {
    AllocationFailed(String),
    DeallocationFailed(String),
    NotFound(String),
    AlreadyExists(String),
    AccessDenied(String),
    Exhausted(String),
    LockFailed(String),
    Corrupted(String),
    VersionMismatch(String),
    DependencyError(String),
}

/// Error severity levels.
#[derive(Debug, Clone, Copy, PartialEq, Eq, Structural, PartialOrd, Ord)]
pub enum ErrorSeverity {
    Info,
    Warning,
    Error,
    Critical,
}

/// Converting errors to user-friendly messages.
pub trait UserFriendlyError {
    fn user_message(&self) -> String;

    fn error_code(&self) -> Option<u32>;

    fn severity(&self) -> ErrorSeverity;
}

impl FrameError {
    /// The user-facing message for each error kind.
    pub open spec fn spec_user_message(self) -> Seq<char> {
        match self {
            FrameError::InitializationFailed(_) => "Failed to start the application. Please try again."@,
            FrameError::WindowNotFound(_) => "The requested window could not be found."@,
            FrameError::InvalidWindowState(_) => "The window is in an invalid state."@,
            FrameError::CommandFailed(_) => "The requested operation could not be completed."@,
            FrameError::ConfigurationError(_) => "There was a problem with the application configuration."@,
            FrameError::EventError(_) => "An internal communication error occurred."@,
            FrameError::ShutdownError(_) => "There was a problem shutting down the application."@,
            FrameError::ResourceError(_) => "A system resource could not be accessed."@,
            FrameError::StateError(_) => "The application is in an unexpected state."@,
            FrameError::Io(_) => "A file or network operation failed."@,
            FrameError::ThreadError(_) => "A background operation failed."@,
            FrameError::TimeoutError(_) => "The operation timed out."@,
        }
    }

    /// The numeric code for each error kind.
    pub open spec fn spec_error_code(self) -> u32 {
        match self {
            FrameError::InitializationFailed(_) => 1001,
            FrameError::WindowNotFound(_) => 1002,
            FrameError::InvalidWindowState(_) => 1003,
            FrameError::CommandFailed(_) => 1004,
            FrameError::ConfigurationError(_) => 1005,
            FrameError::EventError(_) => 1006,
            FrameError::ShutdownError(_) => 1007,
            FrameError::ResourceError(_) => 1008,
            FrameError::StateError(_) => 1009,
            FrameError::Io(_) => 1010,
            FrameError::ThreadError(_) => 1011,
            FrameError::TimeoutError(_) => 1012,
        }
    }

    /// The severity for each error kind.
    pub open spec fn spec_severity(self) -> ErrorSeverity {
        match self {
            FrameError::InitializationFailed(_) | FrameError::ShutdownError(_) => ErrorSeverity::Critical,
            FrameError::WindowNotFound(_) | FrameError::InvalidWindowState(_)
                | FrameError::CommandFailed(_) => ErrorSeverity::Error,
            FrameError::ConfigurationError(_) | FrameError::EventError(_)
                | FrameError::ResourceError(_) | FrameError::StateError(_) => ErrorSeverity::Warning,
            FrameError::Io(_) | FrameError::ThreadError(_) | FrameError::TimeoutError(_) =>
                ErrorSeverity::Error,
        }
    }

    /// The user-facing message of this error.
    pub fn user_message(&self) -> (r: String)
        ensures
            r@ == self.spec_user_message(),
            r@.len() > 0,
    {
        proof {
            reveal_strlit("Failed to start the application. Please try again.");
            reveal_strlit("The requested window could not be found.");
            reveal_strlit("The window is in an invalid state.");
            reveal_strlit("The requested operation could not be completed.");
            reveal_strlit("There was a problem with the application configuration.");
            reveal_strlit("An internal communication error occurred.");
            reveal_strlit("There was a problem shutting down the application.");
            reveal_strlit("A system resource could not be accessed.");
            reveal_strlit("The application is in an unexpected state.");
            reveal_strlit("A file or network operation failed.");
            reveal_strlit("A background operation failed.");
            reveal_strlit("The operation timed out.");
        }
        match self {
            FrameError::InitializationFailed(_) => "Failed to start the application. Please try again.".to_owned(),
            FrameError::WindowNotFound(_) => "The requested window could not be found.".to_owned(),
            FrameError::InvalidWindowState(_) => "The window is in an invalid state.".to_owned(),
            FrameError::CommandFailed(_) => "The requested operation could not be completed.".to_owned(),
            FrameError::ConfigurationError(_) => "There was a problem with the application configuration.".to_owned(),
            FrameError::EventError(_) => "An internal communication error occurred.".to_owned(),
            FrameError::ShutdownError(_) => "There was a problem shutting down the application.".to_owned(),
            FrameError::ResourceError(_) => "A system resource could not be accessed.".to_owned(),
            FrameError::StateError(_) => "The application is in an unexpected state.".to_owned(),
            FrameError::Io(_) => "A file or network operation failed.".to_owned(),
            FrameError::ThreadError(_) => "A background operation failed.".to_owned(),
            FrameError::TimeoutError(_) => "The operation timed out.".to_owned(),
        }
    }

    /// The numeric code of this error; every kind has one.
    pub fn error_code(&self) -> (r: Option<u32>)
        ensures
            r == Some(self.spec_error_code()),
    {
        Some(
            match self {
                FrameError::InitializationFailed(_) => 1001,
                FrameError::WindowNotFound(_) => 1002,
                FrameError::InvalidWindowState(_) => 1003,
                FrameError::CommandFailed(_) => 1004,
                FrameError::ConfigurationError(_) => 1005,
                FrameError::EventError(_) => 1006,
                FrameError::ShutdownError(_) => 1007,
                FrameError::ResourceError(_) => 1008,
                FrameError::StateError(_) => 1009,
                FrameError::Io(_) => 1010,
                FrameError::ThreadError(_) => 1011,
                FrameError::TimeoutError(_) => 1012,
            },
        )
    }

    /// The severity of this error.
    pub fn severity(&self) -> (r: ErrorSeverity)
        ensures
            r == self.spec_severity(),
    {
        match self {
            FrameError::InitializationFailed(_) | FrameError::ShutdownError(_) => ErrorSeverity::Critical,
            FrameError::WindowNotFound(_) | FrameError::InvalidWindowState(_)
                | FrameError::CommandFailed(_) => ErrorSeverity::Error,
            FrameError::ConfigurationError(_) | FrameError::EventError(_)
                | FrameError::ResourceError(_) | FrameError::StateError(_) => ErrorSeverity::Warning,
            FrameError::Io(_) | FrameError::ThreadError(_) | FrameError::TimeoutError(_) =>
                ErrorSeverity::Error,
        }
    }
}

impl UserFriendlyError for FrameError {
    fn user_message(&self) -> String {
        FrameError::user_message(self)
    }

    fn error_code(&self) -> Option<u32> {
        FrameError::error_code(self)
    }

    fn severity(&self) -> ErrorSeverity {
        FrameError::severity(self)
    }
}

impl From<ConfigError> for FrameError {
    fn from(err: ConfigError) -> (r: FrameError) {
        FrameError::ConfigurationError(err)
    }
}

impl vstd::std_specs::convert::FromSpecImpl<ConfigError> for FrameError {
    open spec fn obeys_from_spec() -> bool {
        true
    }

    open spec fn from_spec(err: ConfigError) -> FrameError {
        FrameError::ConfigurationError(err)
    }
}

impl From<EventError> for FrameError {
    fn from(err: EventError) -> (r: FrameError) {
        FrameError::EventError(err)
    }
}

impl vstd::std_specs::convert::FromSpecImpl<EventError> for FrameError {
    open spec fn obeys_from_spec() -> bool {
        true
    }

    open spec fn from_spec(err: EventError) -> FrameError {
        FrameError::EventError(err)
    }
}

/// Error context for debugging: where an error arose and what was known.
#[derive(Debug, Clone)]
pub struct ErrorContext {
    pub operation: String,
    pub component: String,
    pub stack_trace: Option<String>,
    pub additional_info: Vec<(String, String)>,
}

impl ErrorContext {
    pub fn new(operation: &str, component: &str) -> (r: Self)
        ensures
            r.operation@ == operation@,
            r.component@ == component@,
            r.stack_trace is None,
            r.additional_info@.len() == 0,
    {
        ErrorContext {
            operation: operation.to_owned(),
            component: component.to_owned(),
            stack_trace: None,
            additional_info: Vec::new(),
        }
    }

    /// Record one more key/value pair of context.
    pub fn with_info(self, key: &str, value: &str) -> (r: Self)
        ensures
            r.operation == self.operation,
            r.component == self.component,
            r.stack_trace == self.stack_trace,
            r.additional_info@.len() == self.additional_info@.len() + 1,
            r.additional_info@.last().0@ == key@,
            r.additional_info@.last().1@ == value@,
    {
        let mut info = self.additional_info;
        info.push((key.to_owned(), value.to_owned()));
        ErrorContext {
            operation: self.operation,
            component: self.component,
            stack_trace: self.stack_trace,
            additional_info: info,
        }
    }

    /// Attach a stack trace.
    pub fn with_stack_trace(self, trace: String) -> (r: Self)
        ensures
            r.operation == self.operation,
            r.component == self.component,
            r.stack_trace == Some(trace),
            r.additional_info == self.additional_info,
    {
        ErrorContext {
            operation: self.operation,
            component: self.component,
            stack_trace: Some(trace),
            additional_info: self.additional_info,
        }
    }
}

/// An error together with the context it arose in.
#[derive(Debug)]
pub struct ContextualError {
    pub error: FrameError,
    pub context: ErrorContext,
}

impl ContextualError {
    /// One-line description: the user message, then the component and
    /// operation the error arose in.
    pub fn message(&self) -> (r: String)
        ensures
            r@ == self.error.spec_user_message() + " (in "@ + self.context.component@
                + " during "@ + self.context.operation@ + ")"@,
    {
        let mut s = self.error.user_message();
        s.append(" (in ");
        s.append(self.context.component.as_str());
        s.append(" during ");
        s.append(self.context.operation.as_str());
        s.append(")");
        s
    }
}

} // verus!
