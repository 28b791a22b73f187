//! Errors of the input layer, with severities, recovery suggestions and a
//! bounded error reporter.

use vstd::prelude::*;
use vstd::slice::slice_subrange;

verus! {

/// Errors that can occur in the input layer.
#[derive(Debug, Clone)]
pub enum SillError {
    KeyProcessing(String),
    MouseProcessing(String),
    InputNormalization(String),
    InvalidSequence(String),
    RoutingError(String),
    InvalidTarget(String),
    FocusError(String),
    SelectionError(String),
    NoSelection(String),
    InvalidSelection(String),
    ClipboardAccess(String),
    ClipboardFormat(String),
    ClipboardUnavailable(String),
    ConfigurationError(String),
    InvalidMapping(String),
    InvalidMode(String),
    PlatformError(String),
    PermissionDenied(String),
    ResourceUnavailable(String),
    InputOverload(String),
    ProcessingTimeout(String),
    Internal(String),
    NotImplemented(String),
}

pub type SillResult<T> = Result<T, SillError>;

/// Error severity levels.
#[derive(Debug, Clone, Copy, PartialEq, Eq, Structural, Hash)]
pub enum ErrorSeverity {
    Info,
    Warning,
    Error,
    Fatal,
}

impl SillError {
    /// Whether the error is recoverable: platform, permission, resource and
    /// internal failures are not, everything else is.
    pub open spec fn spec_is_recoverable(self) -> bool {
        match self {
            SillError::PermissionDenied(_) => false,
            SillError::ResourceUnavailable(_) => false,
            SillError::PlatformError(_) => false,
            SillError::Internal(_) => false,
            _ => true,
        }
    }

    /// The severity of each error kind.
    pub open spec fn spec_severity(self) -> ErrorSeverity {
        match self {
            SillError::KeyProcessing(_) => ErrorSeverity::Warning,
            SillError::MouseProcessing(_) => ErrorSeverity::Warning,
            SillError::InputNormalization(_) => ErrorSeverity::Warning,
            SillError::InvalidSequence(_) => ErrorSeverity::Info,
            SillError::RoutingError(_) => ErrorSeverity::Error,
            SillError::InvalidTarget(_) => ErrorSeverity::Warning,
            SillError::FocusError(_) => ErrorSeverity::Warning,
            SillError::SelectionError(_) => ErrorSeverity::Warning,
            SillError::NoSelection(_) => ErrorSeverity::Info,
            SillError::InvalidSelection(_) => ErrorSeverity::Warning,
            SillError::ClipboardAccess(_) => ErrorSeverity::Error,
            SillError::ClipboardFormat(_) => ErrorSeverity::Warning,
            SillError::ClipboardUnavailable(_) => ErrorSeverity::Warning,
            SillError::ConfigurationError(_) => ErrorSeverity::Error,
            SillError::InvalidMapping(_) => ErrorSeverity::Warning,
            SillError::InvalidMode(_) => ErrorSeverity::Warning,
            SillError::PlatformError(_) => ErrorSeverity::Fatal,
            SillError::PermissionDenied(_) => ErrorSeverity::Fatal,
            SillError::ResourceUnavailable(_) => ErrorSeverity::Error,
            SillError::InputOverload(_) => ErrorSeverity::Warning,
            SillError::ProcessingTimeout(_) => ErrorSeverity::Warning,
            SillError::Internal(_) => ErrorSeverity::Fatal,
            SillError::NotImplemented(_) => ErrorSeverity::Error,
        }
    }

    /// Whether a recovery suggestion exists: platform and internal errors
    /// have none.
    pub open spec fn spec_has_suggestion(self) -> bool {
        !(self is PlatformError || self is Internal)
    }

    /// A stable index for each error kind, used to count kinds.
    pub open spec fn spec_kind(self) -> int {
        match self {
            SillError::KeyProcessing(_) => 0,
            SillError::MouseProcessing(_) => 1,
            SillError::InputNormalization(_) => 2,
            SillError::InvalidSequence(_) => 3,
            SillError::RoutingError(_) => 4,
            SillError::InvalidTarget(_) => 5,
            SillError::FocusError(_) => 6,
            SillError::SelectionError(_) => 7,
            SillError::NoSelection(_) => 8,
            SillError::InvalidSelection(_) => 9,
            SillError::ClipboardAccess(_) => 10,
            SillError::ClipboardFormat(_) => 11,
            SillError::ClipboardUnavailable(_) => 12,
            SillError::ConfigurationError(_) => 13,
            SillError::InvalidMapping(_) => 14,
            SillError::InvalidMode(_) => 15,
            SillError::PlatformError(_) => 16,
            SillError::PermissionDenied(_) => 17,
            SillError::ResourceUnavailable(_) => 18,
            SillError::InputOverload(_) => 19,
            SillError::ProcessingTimeout(_) => 20,
            SillError::Internal(_) => 21,
            SillError::NotImplemented(_) => 22,
        }
    }

    /// Create a key processing error.
    pub fn key_processing(msg: &str) -> (r: Self)
        ensures
            r is KeyProcessing,
    {
        SillError::KeyProcessing(msg.to_owned())
    }

    /// Create a mouse processing error.
    pub fn mouse_processing(msg: &str) -> (r: Self)
        ensures
            r is MouseProcessing,
    {
        SillError::MouseProcessing(msg.to_owned())
    }

    /// Create an input normalization error.
    pub fn input_normalization(msg: &str) -> (r: Self)
        ensures
            r is InputNormalization,
    {
        SillError::InputNormalization(msg.to_owned())
    }

    /// Create an invalid sequence error.
    pub fn invalid_sequence(msg: &str) -> (r: Self)
        ensures
            r is InvalidSequence,
    {
        SillError::InvalidSequence(msg.to_owned())
    }

    /// Create a routing error.
    pub fn routing(msg: &str) -> (r: Self)
        ensures
            r is RoutingError,
    {
        SillError::RoutingError(msg.to_owned())
    }

    /// Create an invalid target error.
    pub fn invalid_target(msg: &str) -> (r: Self)
        ensures
            r is InvalidTarget,
    {
        SillError::InvalidTarget(msg.to_owned())
    }

    /// Create a focus error.
    pub fn focus(msg: &str) -> (r: Self)
        ensures
            r is FocusError,
    {
        SillError::FocusError(msg.to_owned())
    }

    /// Create a selection error.
    pub fn selection(msg: &str) -> (r: Self)
        ensures
            r is SelectionError,
    {
        SillError::SelectionError(msg.to_owned())
    }

    /// Create a no-selection error.
    pub fn no_selection(msg: &str) -> (r: Self)
        ensures
            r is NoSelection,
    {
        SillError::NoSelection(msg.to_owned())
    }

    /// Create an invalid selection error.
    pub fn invalid_selection(msg: &str) -> (r: Self)
        ensures
            r is InvalidSelection,
    {
        SillError::InvalidSelection(msg.to_owned())
    }

    /// Create a clipboard access error.
    pub fn clipboard_access(msg: &str) -> (r: Self)
        ensures
            r is ClipboardAccess,
    {
        SillError::ClipboardAccess(msg.to_owned())
    }

    /// Create a clipboard format error.
    pub fn clipboard_format(msg: &str) -> (r: Self)
        ensures
            r is ClipboardFormat,
    {
        SillError::ClipboardFormat(msg.to_owned())
    }

    /// Create a clipboard unavailable error.
    pub fn clipboard_unavailable(msg: &str) -> (r: Self)
        ensures
            r is ClipboardUnavailable,
    {
        SillError::ClipboardUnavailable(msg.to_owned())
    }

    /// Create a configuration error.
    pub fn configuration(msg: &str) -> (r: Self)
        ensures
            r is ConfigurationError,
    {
        SillError::ConfigurationError(msg.to_owned())
    }

    /// Create an invalid mapping error.
    pub fn invalid_mapping(msg: &str) -> (r: Self)
        ensures
            r is InvalidMapping,
    {
        SillError::InvalidMapping(msg.to_owned())
    }

    /// Create an invalid mode error.
    pub fn invalid_mode(msg: &str) -> (r: Self)
        ensures
            r is InvalidMode,
    {
        SillError::InvalidMode(msg.to_owned())
    }

    /// Create a platform error.
    pub fn platform(msg: &str) -> (r: Self)
        ensures
            r is PlatformError,
    {
        SillError::PlatformError(msg.to_owned())
    }

    /// Create a permission denied error.
    pub fn permission_denied(msg: &str) -> (r: Self)
        ensures
            r is PermissionDenied,
    {
        SillError::PermissionDenied(msg.to_owned())
    }

    /// Create a resource unavailable error.
    pub fn resource_unavailable(msg: &str) -> (r: Self)
        ensures
            r is ResourceUnavailable,
    {
        SillError::ResourceUnavailable(msg.to_owned())
    }

    /// Create an input overload error.
    pub fn input_overload(msg: &str) -> (r: Self)
        ensures
            r is InputOverload,
    {
        SillError::InputOverload(msg.to_owned())
    }

    /// Create a processing timeout error.
    pub fn processing_timeout(msg: &str) -> (r: Self)
        ensures
            r is ProcessingTimeout,
    {
        SillError::ProcessingTimeout(msg.to_owned())
    }

    /// Create an internal error.
    pub fn internal(msg: &str) -> (r: Self)
        ensures
            r is Internal,
    {
        SillError::Internal(msg.to_owned())
    }

    /// Create a not-implemented error.
    pub fn not_implemented(msg: &str) -> (r: Self)
        ensures
            r is NotImplemented,
    {
        SillError::NotImplemented(msg.to_owned())
    }

    /// Whether the error is recoverable.
    pub fn is_recoverable(&self) -> (r: bool)
        ensures
            r == self.spec_is_recoverable(),
    {
        match self {
            SillError::PermissionDenied(_) => false,
            SillError::ResourceUnavailable(_) => false,
            SillError::PlatformError(_) => false,
            SillError::Internal(_) => false,
            _ => true,
        }
    }

    /// The severity of this error.
    pub fn severity(&self) -> (r: ErrorSeverity)
        ensures
            r == self.spec_severity(),
    {
        match self {
            SillError::KeyProcessing(_) => ErrorSeverity::Warning,
            SillError::MouseProcessing(_) => ErrorSeverity::Warning,
            SillError::InputNormalization(_) => ErrorSeverity::Warning,
            SillError::InvalidSequence(_) => ErrorSeverity::Info,
            SillError::RoutingError(_) => ErrorSeverity::Error,
            SillError::InvalidTarget(_) => ErrorSeverity::Warning,
            SillError::FocusError(_) => ErrorSeverity::Warning,
            SillError::SelectionError(_) => ErrorSeverity::Warning,
            SillError::NoSelection(_) => ErrorSeverity::Info,
            SillError::InvalidSelection(_) => ErrorSeverity::Warning,
            SillError::ClipboardAccess(_) => ErrorSeverity::Error,
            SillError::ClipboardFormat(_) => ErrorSeverity::Warning,
            SillError::ClipboardUnavailable(_) => ErrorSeverity::Warning,
            SillError::ConfigurationError(_) => ErrorSeverity::Error,
            SillError::InvalidMapping(_) => ErrorSeverity::Warning,
            SillError::InvalidMode(_) => ErrorSeverity::Warning,
            SillError::PlatformError(_) => ErrorSeverity::Fatal,
            SillError::PermissionDenied(_) => ErrorSeverity::Fatal,
            SillError::ResourceUnavailable(_) => ErrorSeverity::Error,
            SillError::InputOverload(_) => ErrorSeverity::Warning,
            SillError::ProcessingTimeout(_) => ErrorSeverity::Warning,
            SillError::Internal(_) => ErrorSeverity::Fatal,
            SillError::NotImplemented(_) => ErrorSeverity::Error,
        }
    }

    /// A recovery suggestion; platform and internal failures have none.
    pub fn recovery_suggestion(&self) -> (r: Option<&'static str>)
        ensures
            r is Some <==> self.spec_has_suggestion(),
    {
        match self {
            SillError::KeyProcessing(_) => Some("Check keyboard input mode and mappings"),
            SillError::MouseProcessing(_) => Some("Verify mouse mode settings"),
            SillError::InputNormalization(_) => Some("Check input encoding and platform settings"),
            SillError::InvalidSequence(_) => Some("Review input sequence configuration"),
            SillError::RoutingError(_) => Some("Check event routing configuration"),
            SillError::InvalidTarget(_) => Some("Verify target pane exists and is accessible"),
            SillError::FocusError(_) => Some("Check focus management state"),
            SillError::SelectionError(_) => Some("Clear selection and try again"),
            SillError::NoSelection(_) => Some("Make a text selection first"),
            SillError::InvalidSelection(_) => Some("Check selection boundaries"),
            SillError::ClipboardAccess(_) => Some("Check clipboard permissions and system state"),
            SillError::ClipboardFormat(_) => Some("Try copying as plain text"),
            SillError::ClipboardUnavailable(_) => Some("Wait and retry clipboard operation"),
            SillError::ConfigurationError(_) => Some("Reset to default configuration"),
            SillError::InvalidMapping(_) => Some("Check key mapping syntax"),
            SillError::InvalidMode(_) => Some("Switch to a supported input mode"),
            SillError::PlatformError(_) => None,
            SillError::PermissionDenied(_) => Some("Check application permissions"),
            SillError::ResourceUnavailable(_) => Some("Free up system resources and retry"),
            SillError::InputOverload(_) => Some("Reduce input rate or enable throttling"),
            SillError::ProcessingTimeout(_) => Some("Increase processing timeout limits"),
            SillError::Internal(_) => None,
            SillError::NotImplemented(_) => Some("Feature not yet available"),
        }
    }

    /// A stable index for this error's kind.
    fn kind_index(&self) -> (r: usize)
        ensures
            r == self.spec_kind(),
            r < 23,
    {
        match self {
            SillError::KeyProcessing(_) => 0,
            SillError::MouseProcessing(_) => 1,
            SillError::InputNormalization(_) => 2,
            SillError::InvalidSequence(_) => 3,
            SillError::RoutingError(_) => 4,
            SillError::InvalidTarget(_) => 5,
            SillError::FocusError(_) => 6,
            SillError::SelectionError(_) => 7,
            SillError::NoSelection(_) => 8,
            SillError::InvalidSelection(_) => 9,
            SillError::ClipboardAccess(_) => 10,
            SillError::ClipboardFormat(_) => 11,
            SillError::ClipboardUnavailable(_) => 12,
            SillError::ConfigurationError(_) => 13,
            SillError::InvalidMapping(_) => 14,
            SillError::InvalidMode(_) => 15,
            SillError::PlatformError(_) => 16,
            SillError::PermissionDenied(_) => 17,
            SillError::ResourceUnavailable(_) => 18,
            SillError::InputOverload(_) => 19,
            SillError::ProcessingTimeout(_) => 20,
            SillError::Internal(_) => 21,
            SillError::NotImplemented(_) => 22,
        }
    }
}

/// Where an error arose.
#[derive(Debug, Clone)]
pub struct ErrorContext {
    pub operation: String,
    pub component: String,
}

impl ErrorContext {
    pub fn new(operation: String, component: String) -> (r: Self)
        ensures
            r.operation@ == operation@,
            r.component@ == component@,
    {
        ErrorContext { operation, component }
    }
}

/// An error together with the context it arose in.
#[derive(Debug, Clone)]
pub struct ContextualError {
    pub error: SillError,
    pub context: ErrorContext,
}

impl ContextualError {
    pub fn new(error: SillError, context: ErrorContext) -> (r: Self)
        ensures
            r.error == error,
            r.context == context,
    {
        ContextualError { error, context }
    }
}

/// The sum of all kind counters.
pub open spec fn sum_counts(s: Seq<u64>) -> int
    decreases s.len(),
{
    if s.len() == 0 {
        0
    } else {
        sum_counts(s.drop_last()) + s.last()
    }
}

/// How many kind counters are nonzero.
pub open spec fn count_nonzero(s: Seq<u64>) -> int
    decreases s.len(),
{
    if s.len() == 0 {
        0
    } else {
        count_nonzero(s.drop_last()) + if s.last() > 0 {
            1int
        } else {
            0int
        }
    }
}

/// Error statistics for monitoring.
#[derive(Debug, Clone)]
pub struct ErrorStatistics {
    pub total_errors: u64,
    pub unique_types: usize,
    pub most_frequent: Option<(String, u64)>,
}

/// Collects recent errors, bounded in count, with per-kind counters.
#[derive(Debug)]
pub struct ErrorReporter {
    errors: Vec<ContextualError>,
    max_errors: usize,
    error_counts: Vec<u64>,
}

impl ErrorReporter {
    /// One counter per error kind, and no more stored errors than the
    /// configured bound allows (a bound of zero still stores the latest).
    pub closed spec fn wf(self) -> bool {
        &&& self.error_counts@.len() == 23
        &&& self.errors@.len() <= vstd::math::max(self.max_errors as int, 1)
    }

    /// The per-kind counters.
    pub closed spec fn spec_counts(self) -> Seq<u64> {
        self.error_counts@
    }

    /// The stored errors, oldest first.
    pub closed spec fn spec_errors(self) -> Seq<ContextualError> {
        self.errors@
    }

    /// The configured bound.
    pub closed spec fn spec_max(self) -> usize {
        self.max_errors
    }

    /// A new reporter that keeps at most `max_errors` errors.
    pub fn new(max_errors: usize) -> (r: Self)
        ensures
            r.wf(),
            r.spec_errors().len() == 0,
            forall|i: int| 0 <= i < 23 ==> r.spec_counts()[i] == 0,
    {
        let mut error_counts: Vec<u64> = Vec::new();
        let mut i: usize = 0;
        while i < 23
            invariant
                i <= 23,
                error_counts@.len() == i,
                forall|j: int| 0 <= j < i ==> error_counts@[j] == 0,
            decreases 23 - i,
        {
            error_counts.push(0);
            i = i + 1;
        }
        ErrorReporter { errors: Vec::new(), max_errors, error_counts }
    }

    /// Record an error: its kind counter grows by one and it joins the
    /// stored errors, the oldest leaving once the bound is reached.
    pub fn report(&mut self, error: ContextualError)
        requires
            old(self).wf(),
        ensures
            final(self).wf(),
            final(self).spec_counts().len() == 23,
            old(self).spec_max() > 0 ==> final(self).spec_errors().len() >= 1 && final(self).spec_errors().last() == error,
            final(self).spec_counts()[error.error.spec_kind()] == vstd::math::min(
                old(self).spec_counts()[error.error.spec_kind()] as int + 1,
                u64::MAX as int,
            ),
    {
        let kind = error.error.kind_index();
        let count = self.error_counts[kind];
        if count < u64::MAX {
            self.error_counts.set(kind, count + 1);
        }
        self.errors.push(error);
        if self.errors.len() > self.max_errors {
            let _ = self.errors.remove(0);
        }
    }

    /// The most recent `count` stored errors, oldest first.
    pub fn recent_errors(&self, count: usize) -> (r: &[ContextualError])
        ensures
            r@.len() == vstd::math::min(count as int, self.spec_errors().len() as int),
    {
        let len = self.errors.len();
        let start = if len >= count {
            len - count
        } else {
            0
        };
        slice_subrange(self.errors.as_slice(), start, len)
    }

    /// The totals: how many errors were recorded, how many kinds occurred,
    /// and which kind occurred most with its count.
    pub fn statistics(&self) -> (r: ErrorStatistics)
        requires
            self.wf(),
        ensures
            sum_counts(self.spec_counts()) <= u64::MAX as int ==> r.total_errors == sum_counts(
                self.spec_counts(),
            ),
            r.unique_types == count_nonzero(self.spec_counts()),
    {
        let mut total: u64 = 0;
        let mut unique: usize = 0;
        let mut best: u64 = 0;
        let mut best_kind: usize = 0;
        let n = self.error_counts.len();
        let mut i: usize = 0;
        while i < n
            invariant
                i <= n,
                n == 23,
                n == self.spec_counts().len(),
                sum_counts(self.spec_counts().subrange(0, i as int)) <= u64::MAX as int ==> total
                    == sum_counts(self.spec_counts().subrange(0, i as int)),
                unique == count_nonzero(self.spec_counts().subrange(0, i as int)),
                unique <= i,
            decreases n - i,
        {
            let c = self.error_counts[i];
            proof {
                assert(self.spec_counts().subrange(0, i + 1).drop_last() =~= self.spec_counts()
                    .subrange(0, i as int));
                assert(self.spec_counts().subrange(0, i + 1).last() == self.spec_counts()[i as int]);
                lemma_sum_counts_nonneg(self.spec_counts().subrange(0, i as int));
            }
            total = if total <= u64::MAX - c {
                total + c
            } else {
                u64::MAX
            };
            if c > 0 {
                unique = unique + 1;
                if c > best {
                    best = c;
                    best_kind = i;
                }
            }
            i = i + 1;
        }
        proof {
            assert(self.spec_counts().subrange(0, n as int) =~= self.spec_counts());
        }
        let most_frequent: Option<(String, u64)> = if best > 0 {
            Some((kind_name(best_kind).to_owned(), best))
        } else {
            None
        };
        ErrorStatistics { total_errors: total, unique_types: unique, most_frequent }
    }
}

/// The sum of kind counters is never negative.
proof fn lemma_sum_counts_nonneg(s: Seq<u64>)
    ensures
        sum_counts(s) >= 0,
    decreases s.len(),
{
    if s.len() > 0 {
        lemma_sum_counts_nonneg(s.drop_last());
    }
}

/// The display name of an error kind index.
fn kind_name(kind: usize) -> (r: &'static str) {
    match kind {
        0 => "KeyProcessing",
        1 => "MouseProcessing",
        2 => "InputNormalization",
        3 => "InvalidSequence",
        4 => "RoutingError",
        5 => "InvalidTarget",
        6 => "FocusError",
        7 => "SelectionError",
        8 => "NoSelection",
        9 => "InvalidSelection",
        10 => "ClipboardAccess",
        11 => "ClipboardFormat",
        12 => "ClipboardUnavailable",
        13 => "ConfigurationError",
        14 => "InvalidMapping",
        15 => "InvalidMode",
        16 => "PlatformError",
        17 => "PermissionDenied",
        18 => "ResourceUnavailable",
        19 => "InputOverload",
        20 => "ProcessingTimeout",
        21 => "Internal",
        _ => "NotImplemented",
    }
}

} // verus!
