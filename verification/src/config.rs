//! One value for any display mode, and what each mode is capable of.
use vstd::prelude::*;
use crate::errors::{ModeCreationError, ModeErrorView};
use crate::job::{BaseConfig, JobState};
use crate::job_traits::HasBaseConfig;
use crate::mode_parameters::ThreadMode;
use crate::modes::{
    base_size_error, fresh_window, Capability, Capturing, Limited, ThreadConfig, Window,
    WithCustomSize, WithEmoji, WithTitle,
};
use crate::strs::{decimal, owned, push_decimal, push_str, strings};
use crate::titled::{kept_title, titled_lines, titled_size_error, TitledState, WindowWithTitle};
use crate::window_base::{initial_single_line, window_after_messages, window_lines, SingleLineState, WindowState};

verus! {

/// The kinds of display mode.
#[derive(Debug, Clone, Copy, PartialEq, Eq, Hash, Structural)]
pub enum ModeKind {
    Limited,
    Capturing,
    Window,
    WindowWithTitle,
}

/// Whether a mode of kind `k` has capability `c`: every mode tracks jobs by
/// priority, pause state and dependencies; both window modes have a custom size,
/// standard window operations, wrapping and progress; only the titled window has
/// a title and emojis.
pub open spec fn kind_supports(k: ModeKind, c: Capability) -> bool {
    match c {
        Capability::Title | Capability::Emoji | Capability::TitleAndEmoji => k == ModeKind::WindowWithTitle,
        Capability::CustomSize | Capability::StandardWindow | Capability::WrappedText | Capability::Progress =>
            k == ModeKind::Window || k == ModeKind::WindowWithTitle,
        Capability::PrioritizedJob | Capability::PausableJob | Capability::DependentJob => true,
    }
}

/// All capabilities, in declaration order.
pub open spec fn all_capabilities() -> Seq<Capability> {
    seq![
        Capability::Title,
        Capability::CustomSize,
        Capability::Emoji,
        Capability::TitleAndEmoji,
        Capability::StandardWindow,
        Capability::WrappedText,
        Capability::Progress,
        Capability::PrioritizedJob,
        Capability::PausableJob,
        Capability::DependentJob,
    ]
}

/// The abstract value of a mode.
pub enum ModeView {
    Limited(SingleLineState),
    Capturing(SingleLineState),
    Window(WindowState),
    WindowWithTitle(TitledState),
}

impl ModeView {
    /// The kind of this mode.
    pub open spec fn kind(self) -> ModeKind {
        match self {
            ModeView::Limited(_) => ModeKind::Limited,
            ModeView::Capturing(_) => ModeKind::Capturing,
            ModeView::Window(_) => ModeKind::Window,
            ModeView::WindowWithTitle(_) => ModeKind::WindowWithTitle,
        }
    }

    /// The job state of this mode.
    pub open spec fn job(self) -> JobState {
        match self {
            ModeView::Limited(s) => s.base,
            ModeView::Capturing(s) => s.base,
            ModeView::Window(w) => w.base,
            ModeView::WindowWithTitle(t) => t.window.base,
        }
    }

    /// This mode with its job state replaced by `j`.
    pub open spec fn with_job(self, j: JobState) -> ModeView {
        match self {
            ModeView::Limited(s) => ModeView::Limited(SingleLineState { base: j, ..s }),
            ModeView::Capturing(s) => ModeView::Capturing(SingleLineState { base: j, ..s }),
            ModeView::Window(w) => ModeView::Window(WindowState { base: j, ..w }),
            ModeView::WindowWithTitle(t) => ModeView::WindowWithTitle(
                TitledState { window: WindowState { base: j, ..t.window }, ..t },
            ),
        }
    }

    /// The lines this mode shows.
    pub open spec fn lines(self) -> Seq<Seq<char>> {
        match self {
            ModeView::Limited(s) => seq![s.line],
            ModeView::Capturing(s) => seq![s.line],
            ModeView::Window(w) => window_lines(w),
            ModeView::WindowWithTitle(t) => titled_lines(t),
        }
    }

    /// The number of lines this mode needs.
    pub open spec fn height(self) -> usize {
        match self {
            ModeView::Limited(_) => 1,
            ModeView::Capturing(_) => 1,
            ModeView::Window(w) => w.max_lines,
            ModeView::WindowWithTitle(t) => if t.window.max_lines < usize::MAX {
                (t.window.max_lines + 1) as usize
            } else {
                usize::MAX
            },
        }
    }
}

/// A display mode of any kind.
#[derive(Debug, Clone)]
pub enum ModeConfig {
    Limited(Limited),
    Capturing(Capturing),
    Window(Window),
    WindowWithTitle(WindowWithTitle),
}

impl View for ModeConfig {
    type V = ModeView;

    open spec fn view(&self) -> ModeView {
        match self {
            ModeConfig::Limited(m) => ModeView::Limited(m@),
            ModeConfig::Capturing(m) => ModeView::Capturing(m@),
            ModeConfig::Window(m) => ModeView::Window(m@),
            ModeConfig::WindowWithTitle(m) => ModeView::WindowWithTitle(m@),
        }
    }
}

impl HasBaseConfig for ModeConfig {
    open spec fn base_state(&self) -> JobState {
        self@.job()
    }

    open spec fn same_but_base(&self, other: Self) -> bool {
        other@ == self@.with_job(other@.job())
    }

    fn base_config(&self) -> (r: &BaseConfig) {
        match self {
            ModeConfig::Limited(m) => m.base_config(),
            ModeConfig::Capturing(m) => m.base_config(),
            ModeConfig::Window(m) => m.base_config(),
            ModeConfig::WindowWithTitle(m) => m.base_config(),
        }
    }

    fn base_config_mut(&mut self) -> (r: &mut BaseConfig)
        ensures
            final(self)@ == old(self)@.with_job(final(r)@),
    {
        match self {
            ModeConfig::Limited(m) => m.base_config_mut(),
            ModeConfig::Capturing(m) => m.base_config_mut(),
            ModeConfig::Window(m) => m.base_config_mut(),
            ModeConfig::WindowWithTitle(m) => m.base_config_mut(),
        }
    }
}

impl ThreadConfig for ModeConfig {
    open spec fn shown(&self) -> Seq<Seq<char>> {
        self@.lines()
    }

    open spec fn height(&self) -> usize {
        self@.height()
    }

    fn lines_to_display(&self) -> (r: usize) {
        match self {
            ModeConfig::Limited(m) => m.lines_to_display(),
            ModeConfig::Capturing(m) => m.lines_to_display(),
            ModeConfig::Window(m) => m.lines_to_display(),
            ModeConfig::WindowWithTitle(m) => m.lines_to_display(),
        }
    }

    fn handle_message(&mut self, message: String) -> (r: Vec<String>)
        ensures
            final(self)@ == mode_after_message(old(self)@, message@),
    {
        match self {
            ModeConfig::Limited(m) => m.handle_message(message),
            ModeConfig::Capturing(m) => m.handle_message(message),
            ModeConfig::Window(m) => m.handle_message(message),
            ModeConfig::WindowWithTitle(m) => m.handle_message(message),
        }
    }

    fn get_lines(&self) -> (r: Vec<String>) {
        match self {
            ModeConfig::Limited(m) => m.get_lines(),
            ModeConfig::Capturing(m) => m.get_lines(),
            ModeConfig::Window(m) => m.get_lines(),
            ModeConfig::WindowWithTitle(m) => m.get_lines(),
        }
    }
}

/// A mode after `message` arrives.
pub open spec fn mode_after_message(v: ModeView, message: Seq<char>) -> ModeView {
    match v {
        ModeView::Limited(s) => ModeView::Limited(SingleLineState { line: message, ..s }),
        ModeView::Capturing(s) => ModeView::Capturing(SingleLineState { line: message, ..s }),
        ModeView::Window(w) => ModeView::Window(crate::window_base::window_after_message(w, message)),
        ModeView::WindowWithTitle(t) => ModeView::WindowWithTitle(
            TitledState { window: crate::window_base::window_after_message(t.window, message), ..t },
        ),
    }
}

impl ModeConfig {
    /// The kind of this mode.
    pub fn kind(&self) -> (r: ModeKind)
        ensures
            r == self@.kind(),
    {
        match self {
            ModeConfig::Limited(_) => ModeKind::Limited,
            ModeConfig::Capturing(_) => ModeKind::Capturing,
            ModeConfig::Window(_) => ModeKind::Window,
            ModeConfig::WindowWithTitle(_) => ModeKind::WindowWithTitle,
        }
    }

    /// Whether this mode supports setting and getting a title.
    pub fn supports_title(&self) -> (r: bool)
        ensures
            r == kind_supports(self@.kind(), Capability::Title),
    {
        matches!(self, ModeConfig::WindowWithTitle(_))
    }

    /// Whether this mode supports custom window sizes.
    pub fn supports_custom_size(&self) -> (r: bool)
        ensures
            r == kind_supports(self@.kind(), Capability::CustomSize),
    {
        matches!(self, ModeConfig::Window(_) | ModeConfig::WindowWithTitle(_))
    }

    /// Whether this mode supports emojis.
    pub fn supports_emoji(&self) -> (r: bool)
        ensures
            r == kind_supports(self@.kind(), Capability::Emoji),
    {
        matches!(self, ModeConfig::WindowWithTitle(_))
    }

    /// Whether this mode supports both titles and emojis.
    pub fn supports_title_and_emoji(&self) -> (r: bool)
        ensures
            r == kind_supports(self@.kind(), Capability::TitleAndEmoji),
    {
        matches!(self, ModeConfig::WindowWithTitle(_))
    }

    /// Whether this mode supports standard window operations.
    pub fn supports_standard_window(&self) -> (r: bool)
        ensures
            r == kind_supports(self@.kind(), Capability::StandardWindow),
    {
        matches!(self, ModeConfig::Window(_) | ModeConfig::WindowWithTitle(_))
    }

    /// Whether this mode supports line wrapping.
    pub fn supports_wrapped_text(&self) -> (r: bool)
        ensures
            r == kind_supports(self@.kind(), Capability::WrappedText),
    {
        matches!(self, ModeConfig::Window(_) | ModeConfig::WindowWithTitle(_))
    }

    /// Whether this mode supports progress tracking and display.
    pub fn supports_progress(&self) -> (r: bool)
        ensures
            r == kind_supports(self@.kind(), Capability::Progress),
    {
        matches!(self, ModeConfig::Window(_) | ModeConfig::WindowWithTitle(_))
    }

    /// Whether this mode supports job priorities: every mode does.
    pub fn supports_prioritized_job(&self) -> (r: bool)
        ensures
            r == kind_supports(self@.kind(), Capability::PrioritizedJob),
    {
        true
    }

    /// Whether this mode supports pausing jobs: every mode does.
    pub fn supports_pausable_job(&self) -> (r: bool)
        ensures
            r == kind_supports(self@.kind(), Capability::PausableJob),
    {
        true
    }

    /// Whether this mode supports job dependencies: every mode does.
    pub fn supports_dependent_job(&self) -> (r: bool)
        ensures
            r == kind_supports(self@.kind(), Capability::DependentJob),
    {
        true
    }

    /// Whether this mode supports `capability`.
    pub fn supports_capability(&self, capability: Capability) -> (r: bool)
        ensures
            r == kind_supports(self@.kind(), capability),
    {
        match capability {
            Capability::Title => self.supports_title(),
            Capability::CustomSize => self.supports_custom_size(),
            Capability::Emoji => self.supports_emoji(),
            Capability::TitleAndEmoji => self.supports_title_and_emoji(),
            Capability::StandardWindow => self.supports_standard_window(),
            Capability::WrappedText => self.supports_wrapped_text(),
            Capability::Progress => self.supports_progress(),
            Capability::PrioritizedJob => self.supports_prioritized_job(),
            Capability::PausableJob => self.supports_pausable_job(),
            Capability::DependentJob => self.supports_dependent_job(),
        }
    }

    /// The capabilities this mode supports, each once, in declaration order.
    pub fn capabilities(&self) -> (r: Vec<Capability>)
        ensures
            r@ == all_capabilities().filter(|c: Capability| kind_supports(self@.kind(), c)),
    {
        let all = vec![
            Capability::Title,
            Capability::CustomSize,
            Capability::Emoji,
            Capability::TitleAndEmoji,
            Capability::StandardWindow,
            Capability::WrappedText,
            Capability::Progress,
            Capability::PrioritizedJob,
            Capability::PausableJob,
            Capability::DependentJob,
        ];
        assert(all@ =~= all_capabilities());
        let ghost k = self@.kind();
        let ghost f = |c: Capability| kind_supports(k, c);
        let mut caps: Vec<Capability> = Vec::new();
        let mut i: usize = 0;
        assert(all@.take(0) =~= Seq::<Capability>::empty());
        while i < all.len()
            invariant
                i <= all@.len(),
                all@ == all_capabilities(),
                f == (|c: Capability| kind_supports(k, c)),
                k == self@.kind(),
                caps@ == all@.take(i as int).filter(f),
            decreases all@.len() - i,
        {
            let c = all[i];
            proof {
                assert(all@.take(i as int + 1).drop_last() =~= all@.take(i as int));
                assert(all@.take(i as int + 1).last() == c);
                reveal(Seq::filter);
            }
            if self.supports_capability(c) {
                caps.push(c);
            }
            i = i + 1;
        }
        assert(all@.take(all@.len() as int) =~= all@);
        caps
    }

    /// The Limited mode inside, if this is one.
    pub fn as_limited(&self) -> (r: Option<&Limited>)
        ensures
            r matches Some(m) <==> self matches ModeConfig::Limited(_),
            r matches Some(m) ==> self@ == ModeView::Limited(m@),
    {
        match self {
            ModeConfig::Limited(m) => Some(m),
            _ => None,
        }
    }

    /// The Capturing mode inside, if this is one.
    pub fn as_capturing(&self) -> (r: Option<&Capturing>)
        ensures
            r matches Some(m) <==> self matches ModeConfig::Capturing(_),
            r matches Some(m) ==> self@ == ModeView::Capturing(m@),
    {
        match self {
            ModeConfig::Capturing(m) => Some(m),
            _ => None,
        }
    }

    /// The Window mode inside, if this is one.
    pub fn as_window(&self) -> (r: Option<&Window>)
        ensures
            r matches Some(m) <==> self matches ModeConfig::Window(_),
            r matches Some(m) ==> self@ == ModeView::Window(m@),
    {
        match self {
            ModeConfig::Window(m) => Some(m),
            _ => None,
        }
    }

    /// The titled window inside, if this is one.
    pub fn as_window_with_title(&self) -> (r: Option<&WindowWithTitle>)
        ensures
            r matches Some(m) <==> self matches ModeConfig::WindowWithTitle(_),
            r matches Some(m) ==> self@ == ModeView::WindowWithTitle(m@),
    {
        match self {
            ModeConfig::WindowWithTitle(m) => Some(m),
            _ => None,
        }
    }
}

/// The name of a kind of mode.
pub open spec fn kind_text(k: ModeKind) -> Seq<char> {
    match k {
        ModeKind::Limited => "Limited"@,
        ModeKind::Capturing => "Capturing"@,
        ModeKind::Window => "Window"@,
        ModeKind::WindowWithTitle => "WindowWithTitle"@,
    }
}

/// A description of a mode: its kind and its job counts, as
/// `Kind { total_jobs: T, completed_jobs: C }`.
pub open spec fn mode_description(v: ModeView) -> Seq<char> {
    kind_text(v.kind()) + " { total_jobs: "@ + decimal(v.job().total_jobs as nat) + ", completed_jobs: "@
        + decimal(v.job().completed_jobs as nat) + " }"@
}

impl ModeConfig {
    /// A description of the mode: its kind and its job counts.
    pub fn describe(&self) -> (r: String)
        ensures
            r@ == mode_description(self@),
    {
        let mut s = match self {
            ModeConfig::Limited(_) => owned("Limited"),
            ModeConfig::Capturing(_) => owned("Capturing"),
            ModeConfig::Window(_) => owned("Window"),
            ModeConfig::WindowWithTitle(_) => owned("WindowWithTitle"),
        };
        let base = self.base_config();
        push_str(&mut s, " { total_jobs: ");
        push_decimal(&mut s, base.get_total_jobs() as u64);
        push_str(&mut s, ", completed_jobs: ");
        push_decimal(&mut s, base.get_completed_jobs() as u64);
        push_str(&mut s, " }");
        s
    }
}

/// The error for a capability that the mode does not have.
pub open spec fn unsupported_error(capability: Seq<char>, v: ModeView) -> ModeErrorView {
    ModeErrorView::Implementation(capability + " capability not supported by "@ + mode_description(v))
}

fn unsupported(capability: &str, config: &ModeConfig) -> (e: ModeCreationError)
    ensures
        e@ == unsupported_error(capability@, config@),
{
    let mut m = owned(capability);
    push_str(&mut m, " capability not supported by ");
    let d = config.describe();
    push_str(&mut m, d.as_str());
    ModeCreationError::Implementation(m)
}

/// The mode `Config::new` makes for `mode`.
pub open spec fn mode_for(mode: ThreadMode, total_jobs: usize) -> Result<ModeView, ModeErrorView> {
    match mode {
        ThreadMode::Limited => Ok(ModeView::Limited(initial_single_line(total_jobs, true))),
        ThreadMode::Capturing => Ok(ModeView::Capturing(initial_single_line(total_jobs, false))),
        ThreadMode::Window(n) => if n == 0 {
            Err(base_size_error())
        } else {
            Ok(ModeView::Window(fresh_window(total_jobs, n)))
        },
        ThreadMode::WindowWithTitle(n) => if n < 2 {
            Err(titled_size_error(n))
        } else {
            Ok(
                ModeView::WindowWithTitle(
                    TitledState {
                        window: fresh_window(total_jobs, (n - 1) as usize),
                        title: kept_title("Progress"@),
                        emojis: Seq::empty(),
                        supports_emoji: true,
                        supports_title: true,
                    },
                ),
            )
        },
    }
}

/// A display mode behind one interface, with its capabilities reachable through it.
#[derive(Debug, Clone)]
pub struct Config {
    config: ModeConfig,
}

impl View for Config {
    type V = ModeView;

    closed spec fn view(&self) -> ModeView {
        self.config@
    }
}

impl Config {
    /// Creates the mode `mode` tracking `total_jobs` jobs; a titled window gets
    /// the title `"Progress"`. Window sizes the mode refuses give its error.
    pub fn new(mode: ThreadMode, total_jobs: usize) -> (r: Result<Self, ModeCreationError>)
        ensures
            match mode_for(mode, total_jobs) {
                Ok(v) => r matches Ok(c) && c@ == v,
                Err(e) => r matches Err(x) && x@ == e,
            },
    {
        match mode {
            ThreadMode::Limited => Ok(Config { config: ModeConfig::Limited(Limited::new(total_jobs)) }),
            ThreadMode::Capturing => Ok(Config { config: ModeConfig::Capturing(Capturing::new(total_jobs)) }),
            ThreadMode::Window(max_lines) => match Window::new(total_jobs, max_lines) {
                Ok(w) => Ok(Config { config: ModeConfig::Window(w) }),
                Err(e) => Err(e),
            },
            ThreadMode::WindowWithTitle(max_lines) => {
                proof {
                    reveal_strlit("Progress");
                }
                match WindowWithTitle::new(total_jobs, max_lines, owned("Progress")) {
                    Ok(w) => Ok(Config { config: ModeConfig::WindowWithTitle(w) }),
                    Err(e) => Err(e),
                }
            },
        }
    }

    /// A config holding `config`.
    pub fn from_mode(config: ModeConfig) -> (r: Self)
        ensures
            r@ == config@,
    {
        Config { config }
    }

    /// The mode inside.
    pub fn mode(&self) -> (r: &ModeConfig)
        ensures
            r@ == self@,
    {
        &self.config
    }

    /// The number of lines this config needs to display.
    pub fn lines_to_display(&self) -> (r: usize)
        ensures
            r == self@.height(),
    {
        self.config.lines_to_display()
    }

    /// Processes a message and returns the lines to display.
    pub fn handle_message(&mut self, message: String) -> (r: Vec<String>)
        ensures
            final(self)@ == mode_after_message(old(self)@, message@),
            strings(r@) == final(self)@.lines(),
    {
        self.config.handle_message(message)
    }

    /// The current lines to display.
    pub fn get_lines(&self) -> (r: Vec<String>)
        ensures
            strings(r@) == self@.lines(),
    {
        self.config.get_lines()
    }

    /// Whether the mode supports titles.
    pub fn supports_title(&self) -> (r: bool)
        ensures
            r == kind_supports(self@.kind(), Capability::Title),
    {
        self.config.supports_title()
    }

    /// Sets the title of a titled window; other modes refuse.
    pub fn set_title(&mut self, title: String) -> (r: Result<(), ModeCreationError>)
        ensures
            match old(self)@ {
                ModeView::WindowWithTitle(t) => if t.supports_title {
                    r is Ok && final(self)@ == ModeView::WindowWithTitle(
                        TitledState { title: kept_title(title@), ..t },
                    )
                } else {
                    r matches Err(e) && e@ == crate::titled::title_disabled_error() && final(self)@
                        == old(self)@
                },
                _ => r matches Err(e) && e@ == unsupported_error("Title"@, old(self)@) && final(self)@
                    == old(self)@,
            },
    {
        match &mut self.config {
            ModeConfig::WindowWithTitle(w) => w.set_title(title),
            _ => Err(unsupported("Title", &self.config)),
        }
    }

    /// The title of a titled window; `None` for other modes.
    pub fn get_title(&self) -> (r: Option<&str>)
        ensures
            match self@ {
                ModeView::WindowWithTitle(t) => r matches Some(s) && s@ == t.title,
                _ => r is None,
            },
    {
        match &self.config {
            ModeConfig::WindowWithTitle(w) => Some(w.get_title()),
            _ => None,
        }
    }

    /// Whether the mode supports custom sizes.
    pub fn supports_custom_size(&self) -> (r: bool)
        ensures
            r == kind_supports(self@.kind(), Capability::CustomSize),
    {
        self.config.supports_custom_size()
    }

    /// Sets the number of lines of a window mode; other modes refuse.
    pub fn set_max_lines(&mut self, max_lines: usize) -> (r: Result<(), ModeCreationError>)
        ensures
            match old(self)@ {
                ModeView::Window(w) => if max_lines == 0 {
                    r matches Err(e) && e@ == crate::modes::window_size_error(
                        0,
                        1,
                        "Window"@,
                        "Window mode requires at least 1 line to display content"@,
                    ) && final(self)@ == old(self)@
                } else {
                    r is Ok && final(self)@ == ModeView::Window(fresh_window(w.base.total_jobs, max_lines))
                },
                ModeView::WindowWithTitle(t) => (r is Err <==> max_lines < 2) && (r matches Err(e) ==> e@
                    == titled_size_error(max_lines) && final(self)@ == old(self)@) && (r is Ok ==> final(self)@
                    == ModeView::WindowWithTitle(
                    TitledState {
                        window: window_after_messages(
                            fresh_window(t.window.base.total_jobs, (max_lines - 1) as usize),
                            window_lines(t.window),
                        ),
                        ..t
                    },
                )),
                _ => r matches Err(e) && e@ == unsupported_error("Custom size"@, old(self)@) && final(self)@
                    == old(self)@,
            },
    {
        match &mut self.config {
            ModeConfig::Window(w) => w.set_max_lines(max_lines),
            ModeConfig::WindowWithTitle(w) => w.set_max_lines(max_lines),
            _ => Err(unsupported("Custom size", &self.config)),
        }
    }

    /// The number of lines of a window mode; `None` for other modes.
    pub fn get_max_lines(&self) -> (r: Option<usize>)
        ensures
            match self@ {
                ModeView::Window(w) => r == Some(w.max_lines),
                ModeView::WindowWithTitle(_) => r == Some(self@.height()),
                _ => r is None,
            },
    {
        match &self.config {
            ModeConfig::Window(w) => Some(w.get_max_lines()),
            ModeConfig::WindowWithTitle(w) => Some(w.get_max_lines()),
            _ => None,
        }
    }

    /// Whether the mode supports emojis.
    pub fn supports_emoji(&self) -> (r: bool)
        ensures
            r == kind_supports(self@.kind(), Capability::Emoji),
    {
        self.config.supports_emoji()
    }

    /// Adds an emoji to a titled window; other modes refuse.
    pub fn add_emoji(&mut self, emoji: &str) -> (r: Result<(), ModeCreationError>)
        ensures
            match old(self)@ {
                ModeView::WindowWithTitle(t) => (r is Ok <==> t.supports_emoji && crate::strs::trim_seq(emoji@).len() > 0)
                    && (!t.supports_emoji ==> (r matches Err(e) && e@ == crate::titled::emoji_disabled_error())) && (
                t.supports_emoji && crate::strs::trim_seq(emoji@).len() == 0 ==> (r matches Err(e) && e@
                    == ModeErrorView::Implementation("Emoji cannot be empty"@))) && (r is Ok ==> final(self)@
                    == ModeView::WindowWithTitle(
                    TitledState {
                        emojis: if t.emojis.contains(emoji@) {
                            t.emojis
                        } else {
                            t.emojis.push(emoji@)
                        },
                        ..t
                    },
                )) && (r is Err ==> final(self)@ == old(self)@),
                _ => r matches Err(e) && e@ == unsupported_error("Emoji"@, old(self)@) && final(self)@
                    == old(self)@,
            },
    {
        match &mut self.config {
            ModeConfig::WindowWithTitle(w) => w.add_emoji(emoji),
            _ => Err(unsupported("Emoji", &self.config)),
        }
    }

    /// The emojis of a titled window; `None` for other modes.
    pub fn get_emojis(&self) -> (r: Option<Vec<String>>)
        ensures
            match self@ {
                ModeView::WindowWithTitle(t) => r matches Some(v) && strings(v@) == if t.supports_emoji {
                    t.emojis
                } else {
                    Seq::empty()
                },
                _ => r is None,
            },
    {
        match &self.config {
            ModeConfig::WindowWithTitle(w) => Some(w.get_emojis()),
            _ => None,
        }
    }

    /// Whether the mode supports progress tracking.
    pub fn supports_progress(&self) -> (r: bool)
        ensures
            r == kind_supports(self@.kind(), Capability::Progress),
    {
        self.config.supports_progress()
    }

    /// Sets the progress format of a window mode; other modes refuse.
    pub fn set_progress_format(&mut self, format: &str) -> (r: Result<(), ModeCreationError>)
        ensures
            kind_supports(old(self)@.kind(), Capability::Progress) ==> r is Ok && final(self)@
                == old(self)@.with_job(JobState { progress_format: format@, ..old(self)@.job() }),
            !kind_supports(old(self)@.kind(), Capability::Progress) ==> (r matches Err(e) && e@
                == unsupported_error("Progress"@, old(self)@) && final(self)@ == old(self)@),
    {
        if self.config.supports_progress() {
            self.config.base_config_mut().set_progress_format(format);
            Ok(())
        } else {
            Err(unsupported("Progress", &self.config))
        }
    }

    /// The progress format of a window mode; `None` for other modes.
    pub fn get_progress_format(&self) -> (r: Option<&str>)
        ensures
            kind_supports(self@.kind(), Capability::Progress) ==> (r matches Some(s) && s@
                == self@.job().progress_format),
            !kind_supports(self@.kind(), Capability::Progress) ==> r is None,
    {
        if self.config.supports_progress() {
            Some(self.config.base_config().get_progress_format())
        } else {
            None
        }
    }

    /// Every mode supports hierarchical jobs.
    pub fn supports_hierarchical_jobs(&self) -> (r: bool)
        ensures
            r,
    {
        true
    }
}

impl HasBaseConfig for Config {
    open spec fn base_state(&self) -> JobState {
        self@.job()
    }

    open spec fn same_but_base(&self, other: Self) -> bool {
        other@ == self@.with_job(other@.job())
    }

    fn base_config(&self) -> (r: &BaseConfig) {
        self.config.base_config()
    }

    fn base_config_mut(&mut self) -> (r: &mut BaseConfig)
        ensures
            final(self)@ == old(self)@.with_job(final(r)@),
    {
        self.config.base_config_mut()
    }
}

impl Default for Config {
    /// A Limited mode tracking no jobs.
    fn default() -> (r: Self)
        ensures
            r@ == ModeView::Limited(initial_single_line(0, true)),
    {
        Config { config: ModeConfig::Limited(Limited::new(0)) }
    }
}

/// The number of lines a mode needs stays the same whatever messages it handles.
pub proof fn law_height_constant(v: ModeView, message: Seq<char>)
    ensures
        mode_after_message(v, message).height() == v.height(),
        mode_after_message(v, message).kind() == v.kind(),
{
}

/// A single-line mode shows exactly the last message it handled.
pub proof fn law_single_line_shows_last(v: ModeView, message: Seq<char>)
    requires
        v.kind() == ModeKind::Limited || v.kind() == ModeKind::Capturing,
    ensures
        mode_after_message(v, message).lines() == seq![message],
{
}

/// A titled window always shows its title first, whatever messages arrive.
pub proof fn law_title_always_first(t: TitledState, message: Seq<char>)
    ensures
        mode_after_message(ModeView::WindowWithTitle(t), message).lines()[0] == crate::titled::fit_title(
            crate::titled::decorated_title(t),
            crate::titled::TITLE_WIDTH as nat,
        ),
        mode_after_message(ModeView::WindowWithTitle(t), message).lines().len() >= 1,
{
}

} // verus!
