//! Display-mode selection and the parameters that a mode is created from.
use vstd::prelude::*;
use crate::errors::{opt_str, ModeCreationError, ModeErrorView};
use crate::strs::{decimal, decimal_string, fold_case, folded, owned, str_eq};

verus! {

/// The available thread display modes.
#[derive(Debug, Clone, Copy, PartialEq, Eq, Structural)]
pub enum ThreadMode {
    /// Limited mode shows only the most recent message.
    Limited,
    /// Capturing mode captures output without displaying.
    Capturing,
    /// Window mode shows the last N messages in a scrolling window.
    Window(usize),
    /// WindowWithTitle mode shows a window with a title bar; the size includes the title.
    WindowWithTitle(usize),
}

/// Parameters for creating a display mode.
#[derive(Debug, Clone)]
pub struct ModeParameters {
    /// The total number of jobs to track
    pub total_jobs: usize,
    /// The maximum number of lines to display (if applicable)
    pub max_lines: Option<usize>,
    /// The title to display (if applicable)
    pub title: Option<String>,
    /// Whether to enable emoji support (if applicable)
    pub emoji_support: Option<bool>,
    /// Whether to enable title support (if applicable)
    pub title_support: Option<bool>,
    /// Whether to enable passthrough (if applicable)
    pub passthrough: Option<bool>,
}

/// The abstract value of `ModeParameters`.
pub struct ModeParametersView {
    pub total_jobs: usize,
    pub max_lines: Option<usize>,
    pub title: Option<Seq<char>>,
    pub emoji_support: Option<bool>,
    pub title_support: Option<bool>,
    pub passthrough: Option<bool>,
}

impl View for ModeParameters {
    type V = ModeParametersView;

    open spec fn view(&self) -> ModeParametersView {
        ModeParametersView {
            total_jobs: self.total_jobs,
            max_lines: self.max_lines,
            title: opt_str(self.title),
            emoji_support: self.emoji_support,
            title_support: self.title_support,
            passthrough: self.passthrough,
        }
    }
}

/// Parameters with only the job count set.
pub open spec fn plain_params(total_jobs: usize) -> ModeParametersView {
    ModeParametersView {
        total_jobs,
        max_lines: None,
        title: None,
        emoji_support: None,
        title_support: None,
        passthrough: None,
    }
}

/// Whether a lowercased mode name denotes Window mode.
pub open spec fn is_window_name(m: Seq<char>) -> bool {
    m == "window"@
}

/// Whether a lowercased mode name denotes WindowWithTitle mode.
pub open spec fn is_titled_name(m: Seq<char>) -> bool {
    m == "window_with_title"@ || m == "windowwithtitle"@
}

/// Whether a lowercased mode name denotes one of the single-line modes.
pub open spec fn is_single_line_name(m: Seq<char>) -> bool {
    m == "limited"@ || m == "capturing"@
}

/// The reason given when a window mode lacks `max_lines`.
pub open spec fn max_lines_reason() -> Seq<char> {
    "A window mode requires the max_lines parameter"@
}

/// The reason given when WindowWithTitle lacks a title.
pub open spec fn title_reason() -> Seq<char> {
    "Title is required for WindowWithTitle mode"@
}

/// The error for a missing required parameter of the mode called `name`, if any.
pub open spec fn required_params_error(p: ModeParametersView, name: Seq<char>) -> Option<ModeErrorView> {
    let m = folded(name);
    if is_window_name(m) || is_titled_name(m) {
        if p.max_lines is None {
            Some(ModeErrorView::MissingParameter { param_name: "max_lines"@, mode_name: name, reason: Some(max_lines_reason()) })
        } else if is_titled_name(m) && p.title is None {
            Some(ModeErrorView::MissingParameter { param_name: "title"@, mode_name: name, reason: Some(title_reason()) })
        } else {
            None
        }
    } else if is_single_line_name(m) {
        None
    } else {
        Some(ModeErrorView::Implementation("Unknown mode: "@ + name))
    }
}

/// The error for an invalid parameter value of the mode called `name`, if any.
pub open spec fn param_values_error(p: ModeParametersView, name: Seq<char>) -> Option<ModeErrorView> {
    let m = folded(name);
    if p.total_jobs == 0 {
        Some(ModeErrorView::ValidationError {
            mode_name: name,
            rule: "total_jobs"@,
            value: decimal(0),
            reason: Some("total_jobs must be greater than 0"@),
        })
    } else {
        match p.max_lines {
            Some(l) => if is_window_name(m) && l < 1 {
                Some(ModeErrorView::InvalidWindowSize {
                    size: l,
                    min_size: 1,
                    mode_name: name,
                    reason: Some("Window mode requires at least 1 lines"@),
                })
            } else if is_titled_name(m) && l < 2 {
                Some(ModeErrorView::InvalidWindowSize {
                    size: l,
                    min_size: 2,
                    mode_name: name,
                    reason: Some("WindowWithTitle requires at least 2 lines (1 for title, 1 for content)"@),
                })
            } else {
                None
            },
            None => None,
        }
    }
}

/// The error that validating `p` for the mode called `name` gives, if any.
pub open spec fn validation_error(p: ModeParametersView, name: Seq<char>) -> Option<ModeErrorView> {
    match required_params_error(p, name) {
        Some(e) => Some(e),
        None => param_values_error(p, name),
    }
}

/// The outcome of a check, as a result with a unit value.
pub open spec fn check_result(r: Result<(), ModeCreationError>) -> Option<ModeErrorView> {
    match r {
        Ok(_) => None,
        Err(e) => Some(e@),
    }
}

impl ModeParameters {
    /// Create new parameters with only the job count set.
    pub fn new(total_jobs: usize) -> (r: Self)
        ensures
            r@ == plain_params(total_jobs),
    {
        ModeParameters {
            total_jobs,
            max_lines: None,
            title: None,
            emoji_support: None,
            title_support: None,
            passthrough: None,
        }
    }

    /// Parameters for Limited mode.
    pub fn limited(total_jobs: usize) -> (r: Self)
        ensures
            r@ == (ModeParametersView { passthrough: Some(false), ..plain_params(total_jobs) }),
    {
        Self::new(total_jobs).with_passthrough(false)
    }

    /// Parameters for Capturing mode.
    pub fn capturing(total_jobs: usize) -> (r: Self)
        ensures
            r@ == plain_params(total_jobs),
    {
        Self::new(total_jobs)
    }

    /// Parameters for Window mode.
    pub fn window(total_jobs: usize, max_lines: usize) -> (r: Self)
        ensures
            r@ == (ModeParametersView {
                max_lines: Some(max_lines),
                emoji_support: Some(false),
                title_support: Some(false),
                ..plain_params(total_jobs)
            }),
    {
        Self::new(total_jobs).with_max_lines(max_lines).with_emoji_support(false).with_title_support(false)
    }

    /// Parameters for WindowWithTitle mode.
    pub fn window_with_title(total_jobs: usize, max_lines: usize, title: String) -> (r: Self)
        ensures
            r@ == (ModeParametersView {
                max_lines: Some(max_lines),
                title: Some(title@),
                emoji_support: Some(true),
                title_support: Some(true),
                ..plain_params(total_jobs)
            }),
    {
        Self::new(total_jobs).with_max_lines(max_lines).with_title(title).with_emoji_support(
            true,
        ).with_title_support(true)
    }

    /// Validate the parameters for the mode called `mode_name` (compared case-insensitively):
    /// first that the required parameters are present, then that their values are valid.
    pub fn validate(&self, mode_name: &str) -> (r: Result<(), ModeCreationError>)
        ensures
            check_result(r) == validation_error(self@, mode_name@),
    {
        self.validate_required_params(mode_name)?;
        self.validate_param_values(mode_name)?;
        Ok(())
    }

    /// Get the total number of jobs.
    pub fn total_jobs(&self) -> (r: usize)
        ensures
            r == self.total_jobs,
    {
        self.total_jobs
    }

    /// Get the maximum number of lines to display.
    pub fn max_lines(&self) -> (r: Option<usize>)
        ensures
            r == self.max_lines,
    {
        self.max_lines
    }

    /// Get the title string.
    pub fn title(&self) -> (r: Option<&str>)
        ensures
            match r {
                Some(t) => self@.title == Some(t@),
                None => self.title is None,
            },
    {
        match &self.title {
            Some(t) => Some(t.as_str()),
            None => None,
        }
    }

    /// Whether emoji support is requested.
    pub fn emoji_support(&self) -> (r: Option<bool>)
        ensures
            r == self.emoji_support,
    {
        self.emoji_support
    }

    /// Whether title support is requested.
    pub fn title_support(&self) -> (r: Option<bool>)
        ensures
            r == self.title_support,
    {
        self.title_support
    }

    /// Whether passthrough is requested.
    pub fn passthrough(&self) -> (r: Option<bool>)
        ensures
            r == self.passthrough,
    {
        self.passthrough
    }

    /// Set the maximum number of lines to display.
    pub fn with_max_lines(self, max_lines: usize) -> (r: Self)
        ensures
            r@ == (ModeParametersView { max_lines: Some(max_lines), ..self@ }),
    {
        ModeParameters { max_lines: Some(max_lines), ..self }
    }

    /// Set the title string.
    pub fn with_title(self, title: String) -> (r: Self)
        ensures
            r@ == (ModeParametersView { title: Some(title@), ..self@ }),
    {
        ModeParameters { title: Some(title), ..self }
    }

    /// Set whether emoji support is enabled.
    pub fn with_emoji_support(self, enabled: bool) -> (r: Self)
        ensures
            r@ == (ModeParametersView { emoji_support: Some(enabled), ..self@ }),
    {
        ModeParameters { emoji_support: Some(enabled), ..self }
    }

    /// Set whether title support is enabled.
    pub fn with_title_support(self, enabled: bool) -> (r: Self)
        ensures
            r@ == (ModeParametersView { title_support: Some(enabled), ..self@ }),
    {
        ModeParameters { title_support: Some(enabled), ..self }
    }

    /// Set whether passthrough is enabled.
    pub fn with_passthrough(self, enabled: bool) -> (r: Self)
        ensures
            r@ == (ModeParametersView { passthrough: Some(enabled), ..self@ }),
    {
        ModeParameters { passthrough: Some(enabled), ..self }
    }

    /// Check that the parameters the mode requires are present.
    fn validate_required_params(&self, mode_name: &str) -> (r: Result<(), ModeCreationError>)
        ensures
            check_result(r) == required_params_error(self@, mode_name@),
    {
        let lower = fold_case(mode_name);
        let is_window = str_eq(lower.as_str(), "window");
        let is_titled = str_eq(lower.as_str(), "window_with_title") || str_eq(
            lower.as_str(),
            "windowwithtitle",
        );
        let is_single = str_eq(lower.as_str(), "limited") || str_eq(lower.as_str(), "capturing");
        if is_window || is_titled {
            if self.max_lines.is_none() {
                return Err(
                    ModeCreationError::MissingParameter {
                        param_name: owned("max_lines"),
                        mode_name: owned(mode_name),
                        reason: Some(owned("A window mode requires the max_lines parameter")),
                    },
                );
            }
            if is_titled && self.title.is_none() {
                return Err(
                    ModeCreationError::MissingParameter {
                        param_name: owned("title"),
                        mode_name: owned(mode_name),
                        reason: Some(owned("Title is required for WindowWithTitle mode")),
                    },
                );
            }
            Ok(())
        } else if is_single {
            Ok(())
        } else {
            let mut msg = owned("Unknown mode: ");
            crate::strs::push_str(&mut msg, mode_name);
            Err(ModeCreationError::Implementation(msg))
        }
    }

    /// Check that the parameter values are valid for the mode.
    fn validate_param_values(&self, mode_name: &str) -> (r: Result<(), ModeCreationError>)
        ensures
            check_result(r) == param_values_error(self@, mode_name@),
    {
        if self.total_jobs == 0 {
            return Err(
                ModeCreationError::ValidationError {
                    mode_name: owned(mode_name),
                    rule: owned("total_jobs"),
                    value: decimal_string(0),
                    reason: Some(owned("total_jobs must be greater than 0")),
                },
            );
        }
        if let Some(max_lines) = self.max_lines {
            let lower = fold_case(mode_name);
            let is_window = str_eq(lower.as_str(), "window");
            let is_titled = str_eq(lower.as_str(), "window_with_title") || str_eq(
                lower.as_str(),
                "windowwithtitle",
            );
            if is_window && max_lines < 1 {
                return Err(
                    ModeCreationError::InvalidWindowSize {
                        size: max_lines,
                        min_size: 1,
                        mode_name: owned(mode_name),
                        reason: Some(owned("Window mode requires at least 1 lines")),
                    },
                );
            }
            if is_titled && max_lines < 2 {
                return Err(
                    ModeCreationError::InvalidWindowSize {
                        size: max_lines,
                        min_size: 2,
                        mode_name: owned(mode_name),
                        reason: Some(
                            owned(
                                "WindowWithTitle requires at least 2 lines (1 for title, 1 for content)",
                            ),
                        ),
                    },
                );
            }
        }
        Ok(())
    }
}

} // verus!
