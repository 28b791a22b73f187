//! Errors of the display layer, with severities, recovery suggestions and
//! a bounded error reporter.

use vstd::prelude::*;
use vstd::slice::slice_subrange;

verus! {

/// Errors that can occur in the display layer.
#[derive(Debug, Clone)]
pub enum GlazingError {
    RenderingError(String),
    ThemeError(String),
    LayoutError(String),
    FontError(String),
    ConfigError(String),
    PerformanceError(String),
    BackendError(String),
    ResourceError(String),
    ViewportError(String),
    ColorError(String),
    InvalidState(String),
    NotSupported(String),
    IoError(String),
    ParseError(String),
    TimeoutError(String),
    MemoryError(String),
    GpuError(String),
    ThreadError(String),
    InitializationError(String),
    ShutdownError(String),
}

pub type GlazingResult<T> = Result<T, GlazingError>;

/// Error severity levels.
#[derive(Debug, Clone, Copy, PartialEq, Eq, Structural, PartialOrd, Ord, Hash)]
pub enum ErrorSeverity {
    Info,
    Warning,
    Error,
    Fatal,
}

impl GlazingError {
    /// Whether the error is recoverable.
    pub open spec fn spec_is_recoverable(self) -> bool {
        match self {
            GlazingError::RenderingError(_) => true,
            GlazingError::ThemeError(_) => true,
            GlazingError::LayoutError(_) => true,
            GlazingError::FontError(_) => false,
            GlazingError::ConfigError(_) => true,
            GlazingError::PerformanceError(_) => true,
            GlazingError::BackendError(_) => false,
            GlazingError::ResourceError(_) => true,
            GlazingError::ViewportError(_) => true,
            GlazingError::ColorError(_) => true,
            GlazingError::InvalidState(_) => false,
            GlazingError::NotSupported(_) => false,
            GlazingError::IoError(_) => false,
            GlazingError::ParseError(_) => true,
            GlazingError::TimeoutError(_) => true,
            GlazingError::MemoryError(_) => false,
            GlazingError::GpuError(_) => true,
            GlazingError::ThreadError(_) => false,
            GlazingError::InitializationError(_) => false,
            GlazingError::ShutdownError(_) => false,
        }
    }

    /// The severity of each error kind.
    pub open spec fn spec_severity(self) -> ErrorSeverity {
        match self {
            GlazingError::RenderingError(_) => ErrorSeverity::Warning,
            GlazingError::ThemeError(_) => ErrorSeverity::Warning,
            GlazingError::LayoutError(_) => ErrorSeverity::Warning,
            GlazingError::FontError(_) => ErrorSeverity::Error,
            GlazingError::ConfigError(_) => ErrorSeverity::Warning,
            GlazingError::PerformanceError(_) => ErrorSeverity::Info,
            GlazingError::BackendError(_) => ErrorSeverity::Fatal,
            GlazingError::ResourceError(_) => ErrorSeverity::Warning,
            GlazingError::ViewportError(_) => ErrorSeverity::Warning,
            GlazingError::ColorError(_) => ErrorSeverity::Warning,
            GlazingError::InvalidState(_) => ErrorSeverity::Error,
            GlazingError::NotSupported(_) => ErrorSeverity::Error,
            GlazingError::IoError(_) => ErrorSeverity::Error,
            GlazingError::ParseError(_) => ErrorSeverity::Warning,
            GlazingError::TimeoutError(_) => ErrorSeverity::Warning,
            GlazingError::MemoryError(_) => ErrorSeverity::Fatal,
            GlazingError::GpuError(_) => ErrorSeverity::Warning,
            GlazingError::ThreadError(_) => ErrorSeverity::Error,
            GlazingError::InitializationError(_) => ErrorSeverity::Fatal,
            GlazingError::ShutdownError(_) => ErrorSeverity::Error,
        }
    }

    /// Whether a recovery suggestion exists: only rendering, theme,
    /// layout, font, configuration, performance, graphics and memory
    /// failures come with one.
    pub open spec fn spec_has_suggestion(self) -> bool {
        match self {
            GlazingError::RenderingError(_) => true,
            GlazingError::ThemeError(_) => true,
            GlazingError::LayoutError(_) => true,
            GlazingError::FontError(_) => true,
            GlazingError::ConfigError(_) => true,
            GlazingError::PerformanceError(_) => true,
            GlazingError::GpuError(_) => true,
            GlazingError::MemoryError(_) => true,
            _ => false,
        }
    }

    /// A stable index for each error kind, used to count kinds.
    pub open spec fn spec_kind(self) -> int {
        match self {
            GlazingError::RenderingError(_) => 0,
            GlazingError::ThemeError(_) => 1,
            GlazingError::LayoutError(_) => 2,
            GlazingError::FontError(_) => 3,
            GlazingError::ConfigError(_) => 4,
            GlazingError::PerformanceError(_) => 5,
            GlazingError::BackendError(_) => 6,
            GlazingError::ResourceError(_) => 7,
            GlazingError::ViewportError(_) => 8,
            GlazingError::ColorError(_) => 9,
            GlazingError::InvalidState(_) => 10,
            GlazingError::NotSupported(_) => 11,
            GlazingError::IoError(_) => 12,
            GlazingError::ParseError(_) => 13,
            GlazingError::TimeoutError(_) => 14,
            GlazingError::MemoryError(_) => 15,
            GlazingError::GpuError(_) => 16,
            GlazingError::ThreadError(_) => 17,
            GlazingError::InitializationError(_) => 18,
            GlazingError::ShutdownError(_) => 19,
        }
    }

    /// Create a rendering error.
    pub fn rendering(msg: &str) -> (r: Self)
        ensures
            r is RenderingError,
    {
        GlazingError::RenderingError(msg.to_owned())
    }

    /// Create a theme error.
    pub fn theme(msg: &str) -> (r: Self)
        ensures
            r is ThemeError,
    {
        GlazingError::ThemeError(msg.to_owned())
    }

    /// Create a layout error.
    pub fn layout(msg: &str) -> (r: Self)
        ensures
            r is LayoutError,
    {
        GlazingError::LayoutError(msg.to_owned())
    }

    /// Create a font error.
    pub fn font(msg: &str) -> (r: Self)
        ensures
            r is FontError,
    {
        GlazingError::FontError(msg.to_owned())
    }

    /// Create a configuration error.
    pub fn config(msg: &str) -> (r: Self)
        ensures
            r is ConfigError,
    {
        GlazingError::ConfigError(msg.to_owned())
    }

    /// Create a performance error.
    pub fn performance(msg: &str) -> (r: Self)
        ensures
            r is PerformanceError,
    {
        GlazingError::PerformanceError(msg.to_owned())
    }

    /// Create a backend error.
    pub fn backend(msg: &str) -> (r: Self)
        ensures
            r is BackendError,
    {
        GlazingError::BackendError(msg.to_owned())
    }

    /// Create a resource error.
    pub fn resource(msg: &str) -> (r: Self)
        ensures
            r is ResourceError,
    {
        GlazingError::ResourceError(msg.to_owned())
    }

    /// Create a viewport error.
    pub fn viewport(msg: &str) -> (r: Self)
        ensures
            r is ViewportError,
    {
        GlazingError::ViewportError(msg.to_owned())
    }

    /// Create a color error.
    pub fn color(msg: &str) -> (r: Self)
        ensures
            r is ColorError,
    {
        GlazingError::ColorError(msg.to_owned())
    }

    /// Create an invalid state error.
    pub fn invalid_state(msg: &str) -> (r: Self)
        ensures
            r is InvalidState,
    {
        GlazingError::InvalidState(msg.to_owned())
    }

    /// Create a not supported error.
    pub fn not_supported(msg: &str) -> (r: Self)
        ensures
            r is NotSupported,
    {
        GlazingError::NotSupported(msg.to_owned())
    }

    /// Create a parse error.
    pub fn parse(msg: &str) -> (r: Self)
        ensures
            r is ParseError,
    {
        GlazingError::ParseError(msg.to_owned())
    }

    /// Create a timeout error.
    pub fn timeout(msg: &str) -> (r: Self)
        ensures
            r is TimeoutError,
    {
        GlazingError::TimeoutError(msg.to_owned())
    }

    /// Create a memory error.
    pub fn memory(msg: &str) -> (r: Self)
        ensures
            r is MemoryError,
    {
        GlazingError::MemoryError(msg.to_owned())
    }

    /// Create a graphics processor error.
    pub fn gpu(msg: &str) -> (r: Self)
        ensures
            r is GpuError,
    {
        GlazingError::GpuError(msg.to_owned())
    }

    /// Create a thread error.
    pub fn thread(msg: &str) -> (r: Self)
        ensures
            r is ThreadError,
    {
        GlazingError::ThreadError(msg.to_owned())
    }

    /// Create an initialization error.
    pub fn initialization(msg: &str) -> (r: Self)
        ensures
            r is InitializationError,
    {
        GlazingError::InitializationError(msg.to_owned())
    }

    /// Create a shutdown error.
    pub fn shutdown(msg: &str) -> (r: Self)
        ensures
            r is ShutdownError,
    {
        GlazingError::ShutdownError(msg.to_owned())
    }

    /// Whether this error is recoverable.
    pub fn is_recoverable(&self) -> (r: bool)
        ensures
            r == self.spec_is_recoverable(),
    {
        match self {
            GlazingError::RenderingError(_) => true,
            GlazingError::ThemeError(_) => true,
            GlazingError::LayoutError(_) => true,
            GlazingError::FontError(_) => false,
            GlazingError::ConfigError(_) => true,
            GlazingError::PerformanceError(_) => true,
            GlazingError::BackendError(_) => false,
            GlazingError::ResourceError(_) => true,
            GlazingError::ViewportError(_) => true,
            GlazingError::ColorError(_) => true,
            GlazingError::InvalidState(_) => false,
            GlazingError::NotSupported(_) => false,
            GlazingError::IoError(_) => false,
            GlazingError::ParseError(_) => true,
            GlazingError::TimeoutError(_) => true,
            GlazingError::MemoryError(_) => false,
            GlazingError::GpuError(_) => true,
            GlazingError::ThreadError(_) => false,
            GlazingError::InitializationError(_) => false,
            GlazingError::ShutdownError(_) => false,
        }
    }

    /// The severity of this error.
    pub fn severity(&self) -> (r: ErrorSeverity)
        ensures
            r == self.spec_severity(),
    {
        match self {
            GlazingError::RenderingError(_) => ErrorSeverity::Warning,
            GlazingError::ThemeError(_) => ErrorSeverity::Warning,
            GlazingError::LayoutError(_) => ErrorSeverity::Warning,
            GlazingError::FontError(_) => ErrorSeverity::Error,
            GlazingError::ConfigError(_) => ErrorSeverity::Warning,
            GlazingError::PerformanceError(_) => ErrorSeverity::Info,
            GlazingError::BackendError(_) => ErrorSeverity::Fatal,
            GlazingError::ResourceError(_) => ErrorSeverity::Warning,
            GlazingError::ViewportError(_) => ErrorSeverity::Warning,
            GlazingError::ColorError(_) => ErrorSeverity::Warning,
            GlazingError::InvalidState(_) => ErrorSeverity::Error,
            GlazingError::NotSupported(_) => ErrorSeverity::Error,
            GlazingError::IoError(_) => ErrorSeverity::Error,
            GlazingError::ParseError(_) => ErrorSeverity::Warning,
            GlazingError::TimeoutError(_) => ErrorSeverity::Warning,
            GlazingError::MemoryError(_) => ErrorSeverity::Fatal,
            GlazingError::GpuError(_) => ErrorSeverity::Warning,
            GlazingError::ThreadError(_) => ErrorSeverity::Error,
            GlazingError::InitializationError(_) => ErrorSeverity::Fatal,
            GlazingError::ShutdownError(_) => ErrorSeverity::Error,
        }
    }

    /// A suggested recovery action, where one exists.
    pub fn recovery_suggestion(&self) -> (r: Option<String>)
        ensures
            r is Some <==> self.spec_has_suggestion(),
    {
        match self {
            GlazingError::RenderingError(_) => Some(
                "Try refreshing the display or reducing rendering quality".to_owned(),
            ),
            GlazingError::ThemeError(_) => Some("Try switching to the default theme".to_owned()),
            GlazingError::LayoutError(_) => Some(
                "Try resizing the window or changing the layout".to_owned(),
            ),
            GlazingError::FontError(_) => Some(
                "Check font installation and try using a different font".to_owned(),
            ),
            GlazingError::ConfigError(_) => Some(
                "Check configuration settings and reset to defaults if needed".to_owned(),
            ),
            GlazingError::PerformanceError(_) => Some(
                "Try reducing rendering quality or closing other applications".to_owned(),
            ),
            GlazingError::GpuError(_) => Some("Try disabling hardware acceleration".to_owned()),
            GlazingError::MemoryError(_) => Some(
                "Close other applications to free memory".to_owned(),
            ),
            _ => None,
        }
    }

    /// A stable index for this error's kind.
    fn kind_index(&self) -> (r: usize)
        ensures
            r == self.spec_kind(),
            r < 20,
    {
        match self {
            GlazingError::RenderingError(_) => 0,
            GlazingError::ThemeError(_) => 1,
            GlazingError::LayoutError(_) => 2,
            GlazingError::FontError(_) => 3,
            GlazingError::ConfigError(_) => 4,
            GlazingError::PerformanceError(_) => 5,
            GlazingError::BackendError(_) => 6,
            GlazingError::ResourceError(_) => 7,
            GlazingError::ViewportError(_) => 8,
            GlazingError::ColorError(_) => 9,
            GlazingError::InvalidState(_) => 10,
            GlazingError::NotSupported(_) => 11,
            GlazingError::IoError(_) => 12,
            GlazingError::ParseError(_) => 13,
            GlazingError::TimeoutError(_) => 14,
            GlazingError::MemoryError(_) => 15,
            GlazingError::GpuError(_) => 16,
            GlazingError::ThreadError(_) => 17,
            GlazingError::InitializationError(_) => 18,
            GlazingError::ShutdownError(_) => 19,
        }
    }
}

/// Where an error arose, with free-form context pairs.
#[derive(Debug, Clone)]
pub struct ErrorContext {
    pub operation: String,
    pub component: String,
    pub thread_id: String,
    pub additional_info: Vec<(String, String)>,
}

impl ErrorContext {
    /// A new context; the thread label is a fixed word, since this
    /// library never inspects threads itself.
    pub fn new(operation: String, component: String) -> (r: Self)
        ensures
            r.operation@ == operation@,
            r.component@ == component@,
            r.thread_id@.len() > 0,
            r.additional_info@.len() == 0,
    {
        proof {
            reveal_strlit("untracked");
        }
        ErrorContext {
            operation,
            component,
            thread_id: "untracked".to_owned(),
            additional_info: Vec::new(),
        }
    }

    /// Record one more key/value pair of context.
    pub fn with_info(self, key: &str, value: &str) -> (r: Self)
        ensures
            r.operation == self.operation,
            r.component == self.component,
            r.additional_info@.len() == self.additional_info@.len() + 1,
    {
        let mut info = self.additional_info;
        info.push((key.to_owned(), value.to_owned()));
        ErrorContext {
            operation: self.operation,
            component: self.component,
            thread_id: self.thread_id,
            additional_info: info,
        }
    }
}

/// An error together with the context it arose in.
#[derive(Debug)]
pub struct ContextualError {
    pub error: GlazingError,
    pub context: ErrorContext,
}

impl ContextualError {
    pub fn new(error: GlazingError, context: ErrorContext) -> (r: Self)
        ensures
            r.error == error,
            r.context == context,
    {
        ContextualError { error, context }
    }
}

/// Error recovery strategies.
#[derive(Debug, Clone)]
pub enum RecoveryStrategy {
    Retry { max_attempts: u32, delay_ms: u64 },
    Fallback { description: String },
    Reset { component: String },
    SafeMode,
    Abort,
}

/// Error statistics for monitoring.
#[derive(Debug, Clone)]
pub struct ErrorStatistics {
    pub total_errors: usize,
    pub unique_types: usize,
    pub most_common: Option<(String, usize)>,
    pub severity_distribution: Vec<(ErrorSeverity, usize)>,
}

/// How many kind counters are nonzero.
pub open spec fn count_nonzero_usize(s: Seq<usize>) -> int
    decreases s.len(),
{
    if s.len() == 0 {
        0
    } else {
        count_nonzero_usize(s.drop_last()) + if s.last() > 0 {
            1int
        } else {
            0int
        }
    }
}

/// Collects recent errors, bounded in count, with per-kind counters.
#[derive(Debug)]
pub struct ErrorReporter {
    errors: Vec<ContextualError>,
    max_errors: usize,
    error_counts: Vec<usize>,
}

impl ErrorReporter {
    /// One counter per error kind, and no more stored errors than the
    /// configured bound allows (a bound of zero still stores the latest).
    pub closed spec fn wf(self) -> bool {
        &&& self.error_counts@.len() == 20
        &&& self.errors@.len() <= vstd::math::max(self.max_errors as int, 1)
    }

    /// The stored errors, oldest first.
    pub closed spec fn spec_errors(self) -> Seq<ContextualError> {
        self.errors@
    }

    /// The per-kind counters.
    pub closed spec fn spec_counts(self) -> Seq<usize> {
        self.error_counts@
    }

    /// The configured bound.
    pub closed spec fn spec_max(self) -> usize {
        self.max_errors
    }

    /// A new reporter that keeps at most `max_errors` errors.
    pub fn new(max_errors: usize) -> (r: Self)
        ensures
            r.wf(),
            r.spec_errors().len() == 0,
            forall|i: int| 0 <= i < 20 ==> r.spec_counts()[i] == 0,
    {
        let mut error_counts: Vec<usize> = Vec::new();
        let mut i: usize = 0;
        while i < 20
            invariant
                i <= 20,
                error_counts@.len() == i,
                forall|j: int| 0 <= j < i ==> error_counts@[j] == 0,
            decreases 20 - i,
        {
            error_counts.push(0);
            i = i + 1;
        }
        ErrorReporter { errors: Vec::new(), max_errors, error_counts }
    }

    /// Record an error: its kind counter grows by one and it joins the
    /// stored errors, the oldest leaving once the bound is reached.
    pub fn report(&mut self, error: ContextualError)
        requires
            old(self).wf(),
        ensures
            final(self).wf(),
            old(self).spec_max() > 0 ==> final(self).spec_errors().len() >= 1 && final(self).spec_errors().last() == error,
            final(self).spec_counts()[error.error.spec_kind()] == vstd::math::min(
                old(self).spec_counts()[error.error.spec_kind()] as int + 1,
                usize::MAX as int,
            ),
    {
        let kind = error.error.kind_index();
        let count = self.error_counts[kind];
        if count < usize::MAX {
            self.error_counts.set(kind, count + 1);
        }
        self.errors.push(error);
        if self.errors.len() > self.max_errors {
            let _ = self.errors.remove(0);
        }
    }

    /// The most recent `count` stored errors, oldest first.
    pub fn recent_errors(&self, count: usize) -> (r: &[ContextualError])
        ensures
            r@.len() == vstd::math::min(count as int, self.spec_errors().len() as int),
    {
        let len = self.errors.len();
        let start = if len >= count {
            len - count
        } else {
            0
        };
        slice_subrange(self.errors.as_slice(), start, len)
    }

    /// The totals: how many errors are stored, how many kinds occurred,
    /// which kind occurred most, and how the severities are distributed.
    pub fn statistics(&self) -> (r: ErrorStatistics)
        requires
            self.wf(),
        ensures
            r.total_errors == self.spec_errors().len(),
            r.unique_types == count_nonzero_usize(self.spec_counts()),
    {
        let total_errors = self.errors.len();
        let mut unique: usize = 0;
        let mut best: usize = 0;
        let mut best_kind: usize = 0;
        let n = self.error_counts.len();
        let mut i: usize = 0;
        while i < n
            invariant
                i <= n,
                n == 20,
                n == self.spec_counts().len(),
                unique == count_nonzero_usize(self.spec_counts().subrange(0, i as int)),
                unique <= i,
            decreases n - i,
        {
            let c = self.error_counts[i];
            proof {
                assert(self.spec_counts().subrange(0, i + 1).drop_last() =~= self.spec_counts()
                    .subrange(0, i as int));
                assert(self.spec_counts().subrange(0, i + 1).last() == self.spec_counts()[i as int]);
            }
            if c > 0 {
                unique = unique + 1;
                if c > best {
                    best = c;
                    best_kind = i;
                }
            }
            i = i + 1;
        }
        proof {
            assert(self.spec_counts().subrange(0, n as int) =~= self.spec_counts());
        }
        let most_common: Option<(String, usize)> = if best > 0 {
            Some((glazing_kind_name(best_kind).to_owned(), best))
        } else {
            None
        };
        let mut info: usize = 0;
        let mut warning: usize = 0;
        let mut error_count: usize = 0;
        let mut fatal: usize = 0;
        let m = self.errors.len();
        let mut k: usize = 0;
        while k < m
            invariant
                k <= m,
                m == self.spec_errors().len(),
            decreases m - k,
        {
            match self.errors[k].error.severity() {
                ErrorSeverity::Info => {
                    if info < usize::MAX {
                        info = info + 1;
                    }
                },
                ErrorSeverity::Warning => {
                    if warning < usize::MAX {
                        warning = warning + 1;
                    }
                },
                ErrorSeverity::Error => {
                    if error_count < usize::MAX {
                        error_count = error_count + 1;
                    }
                },
                ErrorSeverity::Fatal => {
                    if fatal < usize::MAX {
                        fatal = fatal + 1;
                    }
                },
            }
            k = k + 1;
        }
        let mut severity_distribution: Vec<(ErrorSeverity, usize)> = Vec::new();
        severity_distribution.push((ErrorSeverity::Info, info));
        severity_distribution.push((ErrorSeverity::Warning, warning));
        severity_distribution.push((ErrorSeverity::Error, error_count));
        severity_distribution.push((ErrorSeverity::Fatal, fatal));
        ErrorStatistics { total_errors, unique_types: unique, most_common, severity_distribution }
    }

    /// Drop everything recorded so far.
    pub fn clear(&mut self)
        requires
            old(self).wf(),
        ensures
            final(self).wf(),
            final(self).spec_errors().len() == 0,
    {
        self.errors.clear();
        let mut i: usize = 0;
        while i < 20
            invariant
                i <= 20,
                self.error_counts@.len() == 20,
                self.errors@.len() == 0,
                self.max_errors == old(self).max_errors,
            decreases 20 - i,
        {
            self.error_counts.set(i, 0);
            i = i + 1;
        }
    }
}

impl Default for ErrorReporter {
    /// A reporter keeping the last thousand errors.
    fn default() -> (r: Self)
        ensures
            r.wf(),
    {
        ErrorReporter::new(1000)
    }
}

/// The display name of an error kind index.
fn glazing_kind_name(kind: usize) -> (r: &'static str) {
    match kind {
        0 => "RenderingError",
        1 => "ThemeError",
        2 => "LayoutError",
        3 => "FontError",
        4 => "ConfigError",
        5 => "PerformanceError",
        6 => "BackendError",
        7 => "ResourceError",
        8 => "ViewportError",
        9 => "ColorError",
        10 => "InvalidState",
        11 => "NotSupported",
        12 => "IoError",
        13 => "ParseError",
        14 => "TimeoutError",
        15 => "MemoryError",
        16 => "GpuError",
        17 => "ThreadError",
        18 => "InitializationError",
        _ => "ShutdownError",
    }
}

} // verus!
