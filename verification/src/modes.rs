//! The display modes: what each keeps of the messages it receives and which
//! lines it shows.
use vstd::prelude::*;
use crate::errors::{ModeCreationError, ModeErrorView};
use crate::job::{initial_job_state, BaseConfig, JobState};
use crate::job_traits::HasBaseConfig;
use crate::strs::{owned, strings};
use crate::window_base::{
    window_is_empty, window_line_count, window_lines, window_after_message, SingleLineBase, SingleLineState, WindowBase, WindowState,
};

verus! {

/// Modes that support setting and retrieving a title.
pub trait WithTitle: Sized {
    /// Whether setting the title to `title` may take the mode from `self` to
    /// `after`, giving `result`.
    spec fn sets_title(&self, title: String, after: Self, result: Result<(), ModeCreationError>) -> bool;

    /// Set the title for this display mode.
    fn set_title(&mut self, title: String) -> (r: Result<(), ModeCreationError>)
        ensures
            old(self).sets_title(title, *final(self), r),
    ;

    /// The current title.
    fn get_title(&self) -> &str;
}

/// Modes whose number of lines can be changed.
pub trait WithCustomSize {
    /// Set the maximum number of lines to display.
    fn set_max_lines(&mut self, max_lines: usize) -> Result<(), ModeCreationError>;

    /// The maximum number of lines that can be displayed.
    fn get_max_lines(&self) -> usize;
}

/// Modes that can display emoji characters.
pub trait WithEmoji: Sized {
    /// Whether adding `emoji` may take the mode from `self` to `after`, giving
    /// `result`.
    spec fn adds_emoji(&self, emoji: &str, after: Self, result: Result<(), ModeCreationError>) -> bool;

    /// Add an emoji to the display.
    fn add_emoji(&mut self, emoji: &str) -> (r: Result<(), ModeCreationError>)
        ensures
            old(self).adds_emoji(emoji, *final(self), r),
    ;

    /// The current emojis.
    fn get_emojis(&self) -> Vec<String>;
}

/// Modes that support both titles and emojis.
pub trait WithTitleAndEmoji: WithTitle + WithEmoji {
    /// Set the title, then add an emoji; stops at the first error: when the title
    /// is refused, its error is the result and nothing more happens; otherwise the
    /// result is the emoji's, and the new title stays whatever becomes of the emoji.
    fn set_title_with_emoji(&mut self, title: String, emoji: &str) -> (r: Result<(), ModeCreationError>)
        ensures
            (r is Err && old(self).sets_title(title, *final(self), r)) || exists|mid: Self|
                old(self).sets_title(title, mid, Ok(())) && #[trigger] mid.adds_emoji(emoji, *final(self), r),
    {
        let ghost t = title;
        let first = self.set_title(title);
        match first {
            Ok(u) => {
                assert(u == ());
                assert(first == Ok::<(), ModeCreationError>(()));
                let ghost mid = *self;
                let r = self.add_emoji(emoji);
                assert(old(self).sets_title(t, mid, Ok(())) && mid.adds_emoji(emoji, *self, r));
                r
            },
            Err(e) => Err(e),
        }
    }

    /// Clear all emojis and set a new title.
    fn reset_with_title(&mut self, title: String) -> Result<(), ModeCreationError>;

    /// The title together with its emojis.
    fn get_formatted_title(&self) -> String;
}

/// Standard operations of window-based modes.
pub trait StandardWindow: WithCustomSize {
    /// Clear all content from the window.
    fn clear(&mut self);

    /// The current content.
    fn get_content(&self) -> Vec<String>;

    /// Add a line to the window.
    fn add_line(&mut self, line: String);

    /// Whether the window is empty.
    fn is_empty(&self) -> bool;

    /// The number of lines currently held.
    fn line_count(&self) -> usize;
}

/// Modes that can wrap long lines.
pub trait WithWrappedText {
    /// Enable or disable line wrapping.
    fn set_line_wrapping(&mut self, enabled: bool);

    /// Whether line wrapping is enabled.
    fn has_line_wrapping(&self) -> bool;
}

/// Modes that track and display progress. (The percentage computations of the
/// display are floating-point and are not part of this library.)
pub trait WithProgress {
    /// The number of completed jobs.
    fn get_completed_jobs(&self) -> usize;

    /// Set the progress display format.
    fn set_progress_format(&mut self, format: &str);

    /// The progress display format.
    fn get_progress_format(&self) -> &str;
}

/// The capabilities that display modes can support.
#[derive(Debug, Clone, Copy, PartialEq, Eq, Hash, Structural)]
pub enum Capability {
    /// Setting and getting a title.
    Title,
    /// Customizing the display size.
    CustomSize,
    /// Adding emoji characters.
    Emoji,
    /// Both title and emoji.
    TitleAndEmoji,
    /// Standard window operations.
    StandardWindow,
    /// Wrapping long lines.
    WrappedText,
    /// Progress tracking and percentage display.
    Progress,
    /// Job prioritization.
    PrioritizedJob,
    /// Pausing and resuming jobs.
    PausableJob,
    /// Job dependencies.
    DependentJob,
}

/// The behaviour shared by all display modes: how many lines a mode needs, and
/// the lines it shows before and after a message arrives.
pub trait ThreadConfig {
    /// The lines this mode shows.
    spec fn shown(&self) -> Seq<Seq<char>>;

    /// The number of lines this mode needs.
    spec fn height(&self) -> usize;

    /// The number of lines this mode needs to display.
    fn lines_to_display(&self) -> (r: usize)
        ensures
            r == self.height(),
    ;

    /// Processes a message and returns the lines to display.
    fn handle_message(&mut self, message: String) -> (r: Vec<String>)
        ensures
            strings(r@) == final(self).shown(),
    ;

    /// The current lines to display.
    fn get_lines(&self) -> (r: Vec<String>)
        ensures
            strings(r@) == self.shown(),
    ;
}

/// Limited mode: only the most recent message is shown, and output passes through.
#[derive(Debug, Clone)]
pub struct Limited {
    single_line_base: SingleLineBase,
}

impl View for Limited {
    type V = SingleLineState;

    closed spec fn view(&self) -> SingleLineState {
        self.single_line_base@
    }
}

impl Limited {
    /// A Limited mode tracking `total_jobs` jobs, with passthrough on.
    pub fn new(total_jobs: usize) -> (r: Self)
        ensures
            r@ == (SingleLineState { base: initial_job_state(total_jobs), line: Seq::empty(), passthrough: true }),
    {
        Limited { single_line_base: SingleLineBase::new(total_jobs, true) }
    }
}

impl ThreadConfig for Limited {
    open spec fn shown(&self) -> Seq<Seq<char>> {
        seq![self@.line]
    }

    open spec fn height(&self) -> usize {
        1
    }

    fn lines_to_display(&self) -> (r: usize) {
        1
    }

    fn handle_message(&mut self, message: String) -> (r: Vec<String>)
        ensures
            final(self)@ == (SingleLineState { line: message@, ..old(self)@ }),
    {
        self.single_line_base.update_line(message);
        self.get_lines()
    }

    fn get_lines(&self) -> (r: Vec<String>) {
        let v = vec![self.single_line_base.get_line()];
        assert(strings(v@) =~= seq![self@.line]);
        v
    }
}

impl HasBaseConfig for Limited {
    open spec fn base_state(&self) -> JobState {
        self@.base
    }

    open spec fn same_but_base(&self, other: Self) -> bool {
        other@ == (SingleLineState { base: other@.base, ..self@ })
    }

    fn base_config(&self) -> (r: &BaseConfig) {
        self.single_line_base.base_config()
    }

    fn base_config_mut(&mut self) -> (r: &mut BaseConfig)
        ensures
            final(self)@ == (SingleLineState { base: final(r)@, ..old(self)@ }),
    {
        self.single_line_base.base_config_mut()
    }
}

/// Capturing mode: only the most recent message is shown, and nothing passes through.
#[derive(Debug, Clone)]
pub struct Capturing {
    single_line_base: SingleLineBase,
}

impl View for Capturing {
    type V = SingleLineState;

    closed spec fn view(&self) -> SingleLineState {
        self.single_line_base@
    }
}

impl Capturing {
    /// A Capturing mode tracking `total_jobs` jobs, with passthrough off.
    pub fn new(total_jobs: usize) -> (r: Self)
        ensures
            r@ == (SingleLineState { base: initial_job_state(total_jobs), line: Seq::empty(), passthrough: false }),
    {
        Capturing { single_line_base: SingleLineBase::new(total_jobs, false) }
    }
}

impl ThreadConfig for Capturing {
    open spec fn shown(&self) -> Seq<Seq<char>> {
        seq![self@.line]
    }

    open spec fn height(&self) -> usize {
        1
    }

    fn lines_to_display(&self) -> (r: usize) {
        1
    }

    fn handle_message(&mut self, message: String) -> (r: Vec<String>)
        ensures
            final(self)@ == (SingleLineState { line: message@, ..old(self)@ }),
    {
        self.single_line_base.update_line(message);
        self.get_lines()
    }

    fn get_lines(&self) -> (r: Vec<String>) {
        let v = vec![self.single_line_base.get_line()];
        assert(strings(v@) =~= seq![self@.line]);
        v
    }
}

impl HasBaseConfig for Capturing {
    open spec fn base_state(&self) -> JobState {
        self@.base
    }

    open spec fn same_but_base(&self, other: Self) -> bool {
        other@ == (SingleLineState { base: other@.base, ..self@ })
    }

    fn base_config(&self) -> (r: &BaseConfig) {
        self.single_line_base.base_config()
    }

    fn base_config_mut(&mut self) -> (r: &mut BaseConfig)
        ensures
            final(self)@ == (SingleLineState { base: final(r)@, ..old(self)@ }),
    {
        self.single_line_base.base_config_mut()
    }
}

/// A fresh window: no lines, no threads, no wrapping.
pub open spec fn fresh_window(total_jobs: usize, max_lines: usize) -> WindowState {
    WindowState {
        base: initial_job_state(total_jobs),
        lines: Seq::empty(),
        max_lines,
        threads: Seq::empty(),
        threaded: false,
        wrapping: false,
    }
}

/// The error for a window size below `min_size`.
pub open spec fn window_size_error(size: usize, min_size: usize, mode_name: Seq<char>, reason: Seq<char>) -> ModeErrorView {
    ModeErrorView::InvalidWindowSize { size, min_size, mode_name, reason: Some(reason) }
}

/// The error `WindowBase` gives for a size of 0.
pub open spec fn base_size_error() -> ModeErrorView {
    window_size_error(0, 1, "WindowBase"@, "Window size must be at least 1 line"@)
}

/// Window mode: the last N lines are shown.
#[derive(Debug, Clone)]
pub struct Window {
    window_base: WindowBase,
}

impl View for Window {
    type V = WindowState;

    closed spec fn view(&self) -> WindowState {
        self.window_base@
    }
}

impl Window {
    /// A window tracking `total_jobs` jobs that shows the last `max_lines` lines; a
    /// size of 0 is refused.
    pub fn new(total_jobs: usize, max_lines: usize) -> (r: Result<Self, ModeCreationError>)
        ensures
            max_lines == 0 <==> r is Err,
            r matches Err(e) ==> e@ == base_size_error(),
            r matches Ok(w) ==> w@ == fresh_window(total_jobs, max_lines),
    {
        match WindowBase::new(total_jobs, max_lines) {
            Ok(b) => Ok(Window { window_base: b }),
            Err(e) => Err(e),
        }
    }
}

impl HasBaseConfig for Window {
    open spec fn base_state(&self) -> JobState {
        self@.base
    }

    open spec fn same_but_base(&self, other: Self) -> bool {
        other@ == (WindowState { base: other@.base, ..self@ })
    }

    fn base_config(&self) -> (r: &BaseConfig) {
        self.window_base.base_config()
    }

    fn base_config_mut(&mut self) -> (r: &mut BaseConfig)
        ensures
            final(self)@ == (WindowState { base: final(r)@, ..old(self)@ }),
    {
        self.window_base.base_config_mut()
    }
}

impl ThreadConfig for Window {
    open spec fn shown(&self) -> Seq<Seq<char>> {
        window_lines(self@)
    }

    open spec fn height(&self) -> usize {
        self@.max_lines
    }

    fn lines_to_display(&self) -> (r: usize) {
        self.window_base.max_lines()
    }

    fn handle_message(&mut self, message: String) -> (r: Vec<String>)
        ensures
            final(self)@ == window_after_message(old(self)@, message@),
    {
        self.window_base.add_message(message);
        self.window_base.get_lines()
    }

    fn get_lines(&self) -> (r: Vec<String>) {
        self.window_base.get_lines()
    }
}

impl WithCustomSize for Window {
    /// Replaces the window by an empty one of the new size, keeping the total
    /// number of jobs; a size of 0 is refused.
    fn set_max_lines(&mut self, max_lines: usize) -> (r: Result<(), ModeCreationError>)
        ensures
            max_lines == 0 <==> r is Err,
            r matches Err(e) ==> e@ == window_size_error(
                max_lines,
                1,
                "Window"@,
                "Window mode requires at least 1 line to display content"@,
            ) && final(self)@ == old(self)@,
            r is Ok ==> final(self)@ == fresh_window(old(self)@.base.total_jobs, max_lines),
    {
        if max_lines < 1 {
            return Err(
                ModeCreationError::InvalidWindowSize {
                    size: max_lines,
                    min_size: 1,
                    mode_name: owned("Window"),
                    reason: Some(owned("Window mode requires at least 1 line to display content")),
                },
            );
        }
        let total = self.window_base.base_config().get_total_jobs();
        match WindowBase::new(total, max_lines) {
            Ok(b) => {
                self.window_base = b;
                Ok(())
            },
            Err(e) => Err(e),
        }
    }

    fn get_max_lines(&self) -> (r: usize)
        ensures
            r == self@.max_lines,
    {
        self.window_base.max_lines()
    }
}

impl StandardWindow for Window {
    fn clear(&mut self)
        ensures
            final(self)@ == (WindowState {
                lines: Seq::empty(),
                threads: Seq::empty(),
                threaded: false,
                ..old(self)@
            }),
    {
        self.window_base.clear();
    }

    fn get_content(&self) -> (r: Vec<String>)
        ensures
            strings(r@) == window_lines(self@),
    {
        self.window_base.get_lines()
    }

    fn add_line(&mut self, line: String)
        ensures
            final(self)@ == window_after_message(old(self)@, line@),
    {
        self.window_base.add_message(line);
    }

    fn is_empty(&self) -> (r: bool)
        ensures
            r == window_is_empty(self@),
    {
        self.window_base.is_empty()
    }

    fn line_count(&self) -> (r: usize)
        ensures
            r == window_line_count(self@),
    {
        self.window_base.line_count()
    }
}

impl WithWrappedText for Window {
    fn set_line_wrapping(&mut self, enabled: bool)
        ensures
            final(self)@ == (WindowState { wrapping: enabled, ..old(self)@ }),
    {
        self.window_base.set_line_wrapping(enabled);
    }

    fn has_line_wrapping(&self) -> (r: bool)
        ensures
            r == self@.wrapping,
    {
        self.window_base.has_line_wrapping()
    }
}

impl WithProgress for Window {
    fn get_completed_jobs(&self) -> (r: usize)
        ensures
            r == self@.base.completed_jobs,
    {
        self.window_base.base_config().get_completed_jobs()
    }

    fn set_progress_format(&mut self, format: &str)
        ensures
            final(self)@ == (WindowState {
                base: JobState { progress_format: format@, ..old(self)@.base },
                ..old(self)@
            }),
    {
        self.window_base.base_config_mut().set_progress_format(format);
    }

    fn get_progress_format(&self) -> (r: &str)
        ensures
            r@ == self@.base.progress_format,
    {
        self.window_base.base_config().get_progress_format()
    }
}

} // verus!
