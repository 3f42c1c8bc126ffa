//! Errors raised when display modes are created or used, and the context
//! that can be attached to them.
use vstd::prelude::*;
use crate::strs::{decimal, join_seq, join_strings, owned, push_decimal, push_str, strings};

verus! {

/// The character sequence held by an optional string.
pub open spec fn opt_str(o: Option<String>) -> Option<Seq<char>> {
    match o {
        Some(s) => Some(s@),
        None => None,
    }
}

/// The text appended to a message for an optional reason: `" - reason"` or nothing.
pub open spec fn reason_suffix(r: Option<String>) -> Seq<char> {
    match r {
        Some(s) => " - "@ + s@,
        None => Seq::<char>::empty(),
    }
}

fn push_reason(s: &mut String, r: &Option<String>)
    ensures
        final(s)@ == old(s)@ + reason_suffix(*r),
{
    match r {
        Some(x) => {
            push_str(s, " - ");
            push_str(s, x.as_str());
            assert(s@ =~= old(s)@ + reason_suffix(*r));
        },
        None => {
            assert(s@ =~= old(s)@ + reason_suffix(*r));
        },
    }
}

/// Errors that can occur when creating or configuring a display mode.
#[derive(Debug)]
pub enum ModeCreationError {
    /// Window size is invalid (e.g., zero or too small)
    InvalidWindowSize {
        /// The size that was provided
        size: usize,
        /// The minimum required size
        min_size: usize,
        /// The mode that was being created
        mode_name: String,
        /// Optional reason for the failure
        reason: Option<String>,
    },
    /// A required window parameter is missing (e.g., title)
    MissingParameter {
        /// The name of the missing parameter
        param_name: String,
        /// The mode that was being created
        mode_name: String,
        /// Optional reason why the parameter is required
        reason: Option<String>,
    },
    /// An error occurred in the underlying mode implementation
    Implementation(String),
    /// Operation attempted on a mode that does not support titles
    TitleNotSupported {
        /// The mode that was being used
        mode_name: String,
        /// Optional reason why titles are not supported
        reason: Option<String>,
    },
    /// Operation attempted on a mode that does not support emojis
    EmojiNotSupported {
        /// The mode that was being used
        mode_name: String,
        /// Optional reason why emojis are not supported
        reason: Option<String>,
    },
    /// The mode is not registered in the factory
    ModeNotRegistered {
        /// The name of the mode that was requested
        mode_name: String,
        /// List of available modes
        available_modes: Vec<String>,
    },
    /// The mode is not compatible with the current configuration
    IncompatibleConfiguration {
        /// The mode that was being used
        mode_name: String,
        /// The configuration that caused the incompatibility
        config: String,
        /// Optional reason for the incompatibility
        reason: Option<String>,
    },
    /// The mode requires a feature that is not available
    FeatureNotAvailable {
        /// The mode that was being used
        mode_name: String,
        /// The feature that is not available
        feature: String,
        /// Optional reason why the feature is not available
        reason: Option<String>,
    },
    /// Validation failed before mode creation
    ValidationError {
        /// The mode that was being created
        mode_name: String,
        /// The validation rule that failed
        rule: String,
        /// The value that failed validation
        value: String,
        /// Optional reason for the validation failure
        reason: Option<String>,
    },
}

/// The abstract value of a `ModeCreationError`, with strings as character sequences.
pub enum ModeErrorView {
    InvalidWindowSize { size: usize, min_size: usize, mode_name: Seq<char>, reason: Option<Seq<char>> },
    MissingParameter { param_name: Seq<char>, mode_name: Seq<char>, reason: Option<Seq<char>> },
    Implementation(Seq<char>),
    TitleNotSupported { mode_name: Seq<char>, reason: Option<Seq<char>> },
    EmojiNotSupported { mode_name: Seq<char>, reason: Option<Seq<char>> },
    ModeNotRegistered { mode_name: Seq<char>, available_modes: Seq<Seq<char>> },
    IncompatibleConfiguration { mode_name: Seq<char>, config: Seq<char>, reason: Option<Seq<char>> },
    FeatureNotAvailable { mode_name: Seq<char>, feature: Seq<char>, reason: Option<Seq<char>> },
    ValidationError { mode_name: Seq<char>, rule: Seq<char>, value: Seq<char>, reason: Option<Seq<char>> },
}

impl View for ModeCreationError {
    type V = ModeErrorView;

    open spec fn view(&self) -> ModeErrorView {
        match self {
            ModeCreationError::InvalidWindowSize { size, min_size, mode_name, reason } =>
                ModeErrorView::InvalidWindowSize { size: *size, min_size: *min_size, mode_name: mode_name@, reason: opt_str(*reason) },
            ModeCreationError::MissingParameter { param_name, mode_name, reason } =>
                ModeErrorView::MissingParameter { param_name: param_name@, mode_name: mode_name@, reason: opt_str(*reason) },
            ModeCreationError::Implementation(msg) => ModeErrorView::Implementation(msg@),
            ModeCreationError::TitleNotSupported { mode_name, reason } =>
                ModeErrorView::TitleNotSupported { mode_name: mode_name@, reason: opt_str(*reason) },
            ModeCreationError::EmojiNotSupported { mode_name, reason } =>
                ModeErrorView::EmojiNotSupported { mode_name: mode_name@, reason: opt_str(*reason) },
            ModeCreationError::ModeNotRegistered { mode_name, available_modes } =>
                ModeErrorView::ModeNotRegistered { mode_name: mode_name@, available_modes: strings(available_modes@) },
            ModeCreationError::IncompatibleConfiguration { mode_name, config, reason } =>
                ModeErrorView::IncompatibleConfiguration { mode_name: mode_name@, config: config@, reason: opt_str(*reason) },
            ModeCreationError::FeatureNotAvailable { mode_name, feature, reason } =>
                ModeErrorView::FeatureNotAvailable { mode_name: mode_name@, feature: feature@, reason: opt_str(*reason) },
            ModeCreationError::ValidationError { mode_name, rule, value, reason } =>
                ModeErrorView::ValidationError { mode_name: mode_name@, rule: rule@, value: value@, reason: opt_str(*reason) },
        }
    }
}

impl ModeCreationError {
    /// The human-readable description of the error.
    pub open spec fn message(&self) -> Seq<char> {
        match self {
            ModeCreationError::InvalidWindowSize { size, min_size, mode_name, reason } => "Invalid window size for "@
                + mode_name@ + " mode: "@ + decimal(*size as nat) + " (minimum: "@ + decimal(
                *min_size as nat,
            ) + ")"@ + reason_suffix(*reason),
            ModeCreationError::MissingParameter { param_name, mode_name, reason } =>
                "Missing required parameter '"@ + param_name@ + "' for "@ + mode_name@ + " mode"@
                + reason_suffix(*reason),
            ModeCreationError::Implementation(msg) => "Mode implementation error: "@ + msg@,
            ModeCreationError::TitleNotSupported { mode_name, reason } => "Operation attempted on "@
                + mode_name@ + " mode which does not support titles"@ + reason_suffix(*reason),
            ModeCreationError::EmojiNotSupported { mode_name, reason } => "Operation attempted on "@
                + mode_name@ + " mode which does not support emojis"@ + reason_suffix(*reason),
            ModeCreationError::ModeNotRegistered { mode_name, available_modes } => "Mode '"@
                + mode_name@ + "' is not registered. Available modes: "@ + join_seq(
                strings(available_modes@),
                ", "@,
            ),
            ModeCreationError::IncompatibleConfiguration { mode_name, config, reason } => "Mode '"@
                + mode_name@ + "' is not compatible with configuration: "@ + config@
                + reason_suffix(*reason),
            ModeCreationError::FeatureNotAvailable { mode_name, feature, reason } => "Mode '"@
                + mode_name@ + "' requires feature '"@ + feature@ + "' which is not available"@
                + reason_suffix(*reason),
            ModeCreationError::ValidationError { mode_name, rule, value, reason } =>
                "Validation failed for "@ + mode_name@ + " mode: rule '"@ + rule@
                + "' failed for value '"@ + value@ + "'"@ + reason_suffix(*reason),
        }
    }

    /// Renders the error as a human-readable message.
    pub fn to_string(&self) -> (s: String)
        ensures
            s@ == self.message(),
    {
        let mut s = String::new();
        match self {
            ModeCreationError::InvalidWindowSize { size, min_size, mode_name, reason } => {
                push_str(&mut s, "Invalid window size for ");
                push_str(&mut s, mode_name.as_str());
                push_str(&mut s, " mode: ");
                push_decimal(&mut s, *size as u64);
                push_str(&mut s, " (minimum: ");
                push_decimal(&mut s, *min_size as u64);
                push_str(&mut s, ")");
                push_reason(&mut s, reason);
            },
            ModeCreationError::MissingParameter { param_name, mode_name, reason } => {
                push_str(&mut s, "Missing required parameter '");
                push_str(&mut s, param_name.as_str());
                push_str(&mut s, "' for ");
                push_str(&mut s, mode_name.as_str());
                push_str(&mut s, " mode");
                push_reason(&mut s, reason);
            },
            ModeCreationError::Implementation(msg) => {
                push_str(&mut s, "Mode implementation error: ");
                push_str(&mut s, msg.as_str());
            },
            ModeCreationError::TitleNotSupported { mode_name, reason } => {
                push_str(&mut s, "Operation attempted on ");
                push_str(&mut s, mode_name.as_str());
                push_str(&mut s, " mode which does not support titles");
                push_reason(&mut s, reason);
            },
            ModeCreationError::EmojiNotSupported { mode_name, reason } => {
                push_str(&mut s, "Operation attempted on ");
                push_str(&mut s, mode_name.as_str());
                push_str(&mut s, " mode which does not support emojis");
                push_reason(&mut s, reason);
            },
            ModeCreationError::ModeNotRegistered { mode_name, available_modes } => {
                push_str(&mut s, "Mode '");
                push_str(&mut s, mode_name.as_str());
                push_str(&mut s, "' is not registered. Available modes: ");
                let joined = join_strings(available_modes.as_slice(), ", ");
                push_str(&mut s, joined.as_str());
            },
            ModeCreationError::IncompatibleConfiguration { mode_name, config, reason } => {
                push_str(&mut s, "Mode '");
                push_str(&mut s, mode_name.as_str());
                push_str(&mut s, "' is not compatible with configuration: ");
                push_str(&mut s, config.as_str());
                push_reason(&mut s, reason);
            },
            ModeCreationError::FeatureNotAvailable { mode_name, feature, reason } => {
                push_str(&mut s, "Mode '");
                push_str(&mut s, mode_name.as_str());
                push_str(&mut s, "' requires feature '");
                push_str(&mut s, feature.as_str());
                push_str(&mut s, "' which is not available");
                push_reason(&mut s, reason);
            },
            ModeCreationError::ValidationError { mode_name, rule, value, reason } => {
                push_str(&mut s, "Validation failed for ");
                push_str(&mut s, mode_name.as_str());
                push_str(&mut s, " mode: rule '");
                push_str(&mut s, rule.as_str());
                push_str(&mut s, "' failed for value '");
                push_str(&mut s, value.as_str());
                push_str(&mut s, "'");
                push_reason(&mut s, reason);
            },
        }
        assert(s@ =~= self.message());
        s
    }
}

/// Context information for errors.
#[derive(Debug, Clone)]
pub struct ErrorContext {
    /// The operation that failed
    pub operation: String,
    /// The component where the error occurred
    pub component: String,
    /// Additional context information
    pub details: Option<String>,
    /// Thread ID if applicable
    pub thread_id: Option<usize>,
}

impl ErrorContext {
    /// Create a new error context.
    pub fn new(operation: &str, component: &str) -> (r: Self)
        ensures
            r.operation@ == operation@,
            r.component@ == component@,
            r.details is None,
            r.thread_id is None,
    {
        ErrorContext { operation: owned(operation), component: owned(component), details: None, thread_id: None }
    }

    /// Add details to the context.
    pub fn with_details(self, details: &str) -> (r: Self)
        ensures
            r.operation == self.operation,
            r.component == self.component,
            opt_str(r.details) == Some(details@),
            r.thread_id == self.thread_id,
    {
        ErrorContext { details: Some(owned(details)), ..self }
    }

    /// Add a thread ID to the context.
    pub fn with_thread_id(self, thread_id: usize) -> (r: Self)
        ensures
            r.operation == self.operation,
            r.component == self.component,
            r.details == self.details,
            r.thread_id == Some(thread_id),
    {
        ErrorContext { thread_id: Some(thread_id), ..self }
    }

    /// The human-readable description of the context.
    pub open spec fn message(&self) -> Seq<char> {
        "in "@ + self.component@ + " during "@ + self.operation@ + match self.thread_id {
            Some(id) => " (thread "@ + decimal(id as nat) + ")"@,
            None => Seq::<char>::empty(),
        } + match self.details {
            Some(d) => ": "@ + d@,
            None => Seq::<char>::empty(),
        }
    }

    /// Renders the context as a human-readable message.
    pub fn to_string(&self) -> (s: String)
        ensures
            s@ == self.message(),
    {
        let mut s = String::new();
        push_str(&mut s, "in ");
        push_str(&mut s, self.component.as_str());
        push_str(&mut s, " during ");
        push_str(&mut s, self.operation.as_str());
        let ghost mid = s@;
        if let Some(id) = self.thread_id {
            push_str(&mut s, " (thread ");
            push_decimal(&mut s, id as u64);
            push_str(&mut s, ")");
        }
        let ghost mid2 = s@;
        if let Some(d) = &self.details {
            push_str(&mut s, ": ");
            push_str(&mut s, d.as_str());
        }
        assert(s@ =~= self.message());
        s
    }
}

/// Context builder for ProgressDisplay operations.
pub fn display(operation: &str) -> (r: ErrorContext)
    ensures
        r.operation@ == operation@,
        r.component@ == "ProgressDisplay"@,
        r.details is None,
        r.thread_id is None,
{
    ErrorContext::new(operation, "ProgressDisplay")
}

/// Context builder for TaskHandle operations.
pub fn task(operation: &str, thread_id: usize) -> (r: ErrorContext)
    ensures
        r.operation@ == operation@,
        r.component@ == "TaskHandle"@,
        r.details is None,
        r.thread_id == Some(thread_id),
{
    ErrorContext::new(operation, "TaskHandle").with_thread_id(thread_id)
}

/// Context builder for ThreadLogger operations.
pub fn logger(operation: &str, thread_id: usize) -> (r: ErrorContext)
    ensures
        r.operation@ == operation@,
        r.component@ == "ThreadLogger"@,
        r.details is None,
        r.thread_id == Some(thread_id),
{
    ErrorContext::new(operation, "ThreadLogger").with_thread_id(thread_id)
}

/// Context builder for Config operations.
pub fn config(operation: &str) -> (r: ErrorContext)
    ensures
        r.operation@ == operation@,
        r.component@ == "Config"@,
        r.details is None,
        r.thread_id is None,
{
    ErrorContext::new(operation, "Config")
}

/// Context builder for Template operations.
pub fn template(operation: &str) -> (r: ErrorContext)
    ensures
        r.operation@ == operation@,
        r.component@ == "ProgressTemplate"@,
        r.details is None,
        r.thread_id is None,
{
    ErrorContext::new(operation, "ProgressTemplate")
}

/// Errors that can occur when working with the library.
#[derive(Debug)]
pub enum ProgressError {
    /// Error when creating or configuring a display mode
    ModeCreation(ModeCreationError),
    /// Error when interacting with a task handle
    TaskOperation(String),
    /// Error when operating on the progress display
    DisplayOperation(String),
    /// Error with context information
    WithContext(Box<ProgressError>, ErrorContext),
}

impl ProgressError {
    /// Add context to an existing error.
    pub fn into_context(self, ctx: ErrorContext) -> (r: Self)
        ensures
            r == ProgressError::WithContext(Box::new(self), ctx),
    {
        ProgressError::WithContext(Box::new(self), ctx)
    }

    /// The human-readable description of the error.
    pub open spec fn message(&self) -> Seq<char>
        decreases self,
    {
        match self {
            ProgressError::ModeCreation(e) => "Mode creation error: "@ + e.message(),
            ProgressError::TaskOperation(m) => "Task operation error: "@ + m@,
            ProgressError::DisplayOperation(m) => "Display operation error: "@ + m@,
            ProgressError::WithContext(e, ctx) => e.message() + " ("@ + ctx.message() + ")"@,
        }
    }

    /// Renders the error as a human-readable message.
    pub fn to_string(&self) -> (s: String)
        ensures
            s@ == self.message(),
        decreases self,
    {
        let mut s = String::new();
        match self {
            ProgressError::ModeCreation(e) => {
                push_str(&mut s, "Mode creation error: ");
                let m = e.to_string();
                push_str(&mut s, m.as_str());
            },
            ProgressError::TaskOperation(m) => {
                push_str(&mut s, "Task operation error: ");
                push_str(&mut s, m.as_str());
            },
            ProgressError::DisplayOperation(m) => {
                push_str(&mut s, "Display operation error: ");
                push_str(&mut s, m.as_str());
            },
            ProgressError::WithContext(e, ctx) => {
                let inner = e.to_string();
                push_str(&mut s, inner.as_str());
                push_str(&mut s, " (");
                let c = ctx.to_string();
                push_str(&mut s, c.as_str());
                push_str(&mut s, ")");
            },
        }
        assert(s@ =~= self.message());
        s
    }
}

impl From<ModeCreationError> for ProgressError {
    fn from(err: ModeCreationError) -> (r: Self) {
        ProgressError::ModeCreation(err)
    }
}

impl vstd::std_specs::convert::FromSpecImpl<ModeCreationError> for ProgressError {
    open spec fn obeys_from_spec() -> bool {
        true
    }

    open spec fn from_spec(v: ModeCreationError) -> Self {
        ProgressError::ModeCreation(v)
    }
}

impl From<String> for ModeCreationError {
    fn from(msg: String) -> (r: Self) {
        ModeCreationError::Implementation(msg)
    }
}

impl vstd::std_specs::convert::FromSpecImpl<String> for ModeCreationError {
    open spec fn obeys_from_spec() -> bool {
        true
    }

    open spec fn from_spec(v: String) -> Self {
        ModeCreationError::Implementation(v)
    }
}

} // verus!
