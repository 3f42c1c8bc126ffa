//! The window mode with a title line above its content.
use vstd::prelude::*;
use crate::errors::{ModeCreationError, ModeErrorView};
use crate::job::{BaseConfig, JobState};
use crate::job_traits::HasBaseConfig;
use crate::modes::{
    fresh_window, window_size_error, StandardWindow, ThreadConfig, WithCustomSize, WithEmoji,
    WithProgress, WithTitle, WithTitleAndEmoji, WithWrappedText,
};
use crate::strs::{
    chars_of, join_seq, join_strings, owned, push_str, str_eq, string_of, strings, sub_chars,
    trim_chars, trim_seq,
};
use crate::window_base::{
    window_after_message, window_after_messages, window_is_empty, window_line_count, window_lines,
    WindowBase, WindowState,
};

verus! {

/// The abstract state of a window with a title.
pub struct TitledState {
    pub window: WindowState,
    pub title: Seq<char>,
    pub emojis: Seq<Seq<char>>,
    pub supports_emoji: bool,
    pub supports_title: bool,
}

/// The title that is kept for `t`: an empty title becomes `"Progress"`.
pub open spec fn kept_title(t: Seq<char>) -> Seq<char> {
    if t.len() == 0 {
        "Progress"@
    } else {
        t
    }
}

/// The emojis, joined by spaces, then a space and the title, when emojis are
/// supported and there are some; the title alone otherwise.
pub open spec fn decorated_title(s: TitledState) -> Seq<char> {
    if s.supports_emoji && s.emojis.len() > 0 {
        join_seq(s.emojis, " "@) + " "@ + s.title
    } else {
        s.title
    }
}

/// Whether `c` is an ASCII control character.
pub open spec fn is_ascii_control(c: char) -> bool {
    (c as u32) < 0x20 || (c as u32) == 0x7f
}

/// `s` without its trailing ASCII control characters.
pub open spec fn trim_controls_end(s: Seq<char>) -> Seq<char>
    decreases s.len(),
{
    if s.len() > 0 && is_ascii_control(s.last()) {
        trim_controls_end(s.drop_last())
    } else {
        s
    }
}

/// A title fitted to `width` characters: empty for width 0; a longer title is cut
/// to `width - 3` characters (fewer trailing control characters) and ends in `"..."`.
pub open spec fn fit_title(t: Seq<char>, width: nat) -> Seq<char> {
    if width == 0 {
        Seq::empty()
    } else if t.len() > width {
        trim_controls_end(t.take(if width >= 3 { width - 3 } else { 0 })) + "..."@
    } else {
        t
    }
}

proof fn lemma_trim_controls_len(s: Seq<char>)
    ensures
        trim_controls_end(s).len() <= s.len(),
    decreases s.len(),
{
    if s.len() > 0 && is_ascii_control(s.last()) {
        lemma_trim_controls_len(s.drop_last());
    }
}

/// A fitted title never takes more than its width, from a width of 3 on (the
/// three dots of a cut title need that much).
pub proof fn law_title_fits(t: Seq<char>, width: nat)
    requires
        width >= 3,
    ensures
        fit_title(t, width).len() <= width,
        t.len() <= width ==> fit_title(t, width) == t,
{
    if t.len() > width {
        let cut = t.take(width - 3);
        lemma_trim_controls_len(cut);
        assert(cut.len() == width - 3);
        reveal_strlit("...");
        assert(fit_title(t, width) == trim_controls_end(cut) + "..."@);
    }
}

/// The width at which the title line of `get_lines` is fitted.
pub const TITLE_WIDTH: usize = 80;

/// The lines the mode shows: the fitted title, then the window's lines.
pub open spec fn titled_lines(s: TitledState) -> Seq<Seq<char>> {
    seq![fit_title(decorated_title(s), TITLE_WIDTH as nat)] + window_lines(s.window)
}

/// The whole display at `width`: the fitted title, a line break, then the window's
/// lines separated by line breaks.
pub open spec fn rendered(s: TitledState, width: nat) -> Seq<char> {
    fit_title(decorated_title(s), width) + "\n"@ + join_seq(window_lines(s.window), "\n"@)
}

/// The title as `get_formatted_title` gives it: the emojis and a space when emojis
/// are supported and present, then the title when titles are supported.
pub open spec fn formatted_title(s: TitledState) -> Seq<char> {
    (if s.supports_emoji && s.emojis.len() > 0 {
        join_seq(s.emojis, " "@) + " "@
    } else {
        Seq::empty()
    }) + (if s.supports_title {
        s.title
    } else {
        Seq::empty()
    })
}

/// The error for a disabled title.
pub open spec fn title_disabled_error() -> ModeErrorView {
    ModeErrorView::TitleNotSupported {
        mode_name: "WindowWithTitle"@,
        reason: Some("Title support is disabled for this mode"@),
    }
}

/// The error for disabled emojis.
pub open spec fn emoji_disabled_error() -> ModeErrorView {
    ModeErrorView::EmojiNotSupported {
        mode_name: "WindowWithTitle"@,
        reason: Some("Emoji support is disabled for this mode"@),
    }
}

/// The error for a size below 2.
pub open spec fn titled_size_error(size: usize) -> ModeErrorView {
    window_size_error(
        size,
        2,
        "WindowWithTitle"@,
        "WindowWithTitle requires at least 2 lines: 1 for title and 1 for content"@,
    )
}

/// Window mode with a title: the title line is always shown, followed by the last
/// lines of the window.
#[derive(Debug, Clone)]
pub struct WindowWithTitle {
    window_base: WindowBase,
    title: String,
    emojis: Vec<String>,
    supports_emoji: bool,
    supports_title: bool,
}

impl View for WindowWithTitle {
    type V = TitledState;

    closed spec fn view(&self) -> TitledState {
        TitledState {
            window: self.window_base@,
            title: self.title@,
            emojis: strings(self.emojis@),
            supports_emoji: self.supports_emoji,
            supports_title: self.supports_title,
        }
    }
}

/// `s` without trailing ASCII control characters, as a prefix length.
fn trimmed_controls_len(s: &Vec<char>, k: usize) -> (r: usize)
    requires
        k <= s@.len(),
    ensures
        r <= k,
        s@.take(r as int) == trim_controls_end(s@.take(k as int)),
{
    let mut i = k;
    while i > 0 && ((s[i - 1] as u32) < 0x20 || (s[i - 1] as u32) == 0x7f)
        invariant
            i <= k,
            k <= s@.len(),
            trim_controls_end(s@.take(i as int)) == trim_controls_end(s@.take(k as int)),
        decreases i,
    {
        proof {
            let t = s@.take(i as int);
            assert(t.last() == s@[i - 1]);
            assert(t.drop_last() =~= s@.take(i - 1));
        }
        i = i - 1;
    }
    proof {
        let t = s@.take(i as int);
        if i > 0 {
            assert(t.last() == s@[i - 1]);
        }
    }
    i
}

impl WindowWithTitle {
    /// A titled window of `max_lines` lines in all, the title included, tracking
    /// `total_jobs` jobs; fewer than 2 lines are refused. An empty title becomes
    /// `"Progress"`; emojis and titles are supported.
    pub fn new(total_jobs: usize, max_lines: usize, title: String) -> (r: Result<Self, ModeCreationError>)
        ensures
            max_lines < 2 <==> r is Err,
            r matches Err(e) ==> e@ == titled_size_error(max_lines),
            r matches Ok(w) ==> w@ == (TitledState {
                window: fresh_window(total_jobs, (max_lines - 1) as usize),
                title: kept_title(title@),
                emojis: Seq::empty(),
                supports_emoji: true,
                supports_title: true,
            }),
    {
        if max_lines < 2 {
            return Err(
                ModeCreationError::InvalidWindowSize {
                    size: max_lines,
                    min_size: 2,
                    mode_name: owned("WindowWithTitle"),
                    reason: Some(
                        owned("WindowWithTitle requires at least 2 lines: 1 for title and 1 for content"),
                    ),
                },
            );
        }
        let title = if title.unicode_len() == 0 {
            owned("Progress")
        } else {
            title
        };
        match WindowBase::new(total_jobs, max_lines - 1) {
            Ok(b) => {
                let w = WindowWithTitle {
                    window_base: b,
                    title,
                    emojis: Vec::new(),
                    supports_emoji: true,
                    supports_title: true,
                };
                assert(w@.emojis =~= Seq::<Seq<char>>::empty());
                Ok(w)
            },
            Err(e) => Err(e),
        }
    }

    /// The title, with its emojis, fitted to `width` characters.
    fn render_title(&self, width: usize) -> (r: String)
        ensures
            r@ == fit_title(decorated_title(self@), width as nat),
    {
        if width == 0 {
            let e = String::new();
            assert(e@ =~= Seq::<char>::empty());
            return e;
        }
        let title = if self.supports_emoji && self.emojis.len() > 0 {
            let mut t = join_strings(self.emojis.as_slice(), " ");
            push_str(&mut t, " ");
            push_str(&mut t, self.title.as_str());
            t
        } else {
            owned(self.title.as_str())
        };
        let chars = chars_of(title.as_str());
        if chars.len() > width {
            let keep = if width >= 3 {
                width - 3
            } else {
                0
            };
            let k = trimmed_controls_len(&chars, keep);
            let head = sub_chars(chars.as_slice(), 0, k);
            let mut out = string_of(head.as_slice());
            push_str(&mut out, "...");
            assert(head@ =~= chars@.take(k as int));
            out
        } else {
            title
        }
    }

    /// Enable or disable title support.
    pub fn set_title_support(&mut self, enabled: bool)
        ensures
            final(self)@ == (TitledState { supports_title: enabled, ..old(self)@ }),
    {
        self.supports_title = enabled;
    }

    /// Enable or disable emoji support.
    pub fn set_emoji_support(&mut self, enabled: bool)
        ensures
            final(self)@ == (TitledState { supports_emoji: enabled, ..old(self)@ }),
    {
        self.supports_emoji = enabled;
    }

    /// Whether title support is enabled.
    pub fn has_title_support(&self) -> (r: bool)
        ensures
            r == self@.supports_title,
    {
        self.supports_title
    }

    /// Whether emoji support is enabled.
    pub fn has_emoji_support(&self) -> (r: bool)
        ensures
            r == self@.supports_emoji,
    {
        self.supports_emoji
    }

    /// The title line fitted to `width`, a line break, and the window's lines
    /// separated by line breaks.
    pub fn render(&self, width: usize) -> (r: String)
        ensures
            r@ == rendered(self@, width as nat),
    {
        let mut out = self.render_title(width);
        push_str(&mut out, "\n");
        let lines = self.window_base.get_lines();
        let body = join_strings(lines.as_slice(), "\n");
        push_str(&mut out, body.as_str());
        out
    }

    /// Whether `emoji` is among the emojis already added.
    fn has_emoji(&self, emoji: &str) -> (r: bool)
        ensures
            r == self@.emojis.contains(emoji@),
    {
        let mut i: usize = 0;
        while i < self.emojis.len()
            invariant
                i <= self.emojis@.len(),
                forall|j: int| 0 <= j < i ==> self@.emojis[j] != emoji@,
            decreases self.emojis@.len() - i,
        {
            if str_eq(self.emojis[i].as_str(), emoji) {
                assert(self@.emojis[i as int] == emoji@);
                return true;
            }
            i = i + 1;
        }
        false
    }
}

impl HasBaseConfig for WindowWithTitle {
    open spec fn base_state(&self) -> JobState {
        self@.window.base
    }

    open spec fn same_but_base(&self, other: Self) -> bool {
        other@ == (TitledState { window: WindowState { base: other@.window.base, ..self@.window }, ..self@ })
    }

    fn base_config(&self) -> (r: &BaseConfig) {
        self.window_base.base_config()
    }

    fn base_config_mut(&mut self) -> (r: &mut BaseConfig)
        ensures
            final(self)@ == (TitledState { window: WindowState { base: final(r)@, ..old(self)@.window }, ..old(self)@ }),
    {
        self.window_base.base_config_mut()
    }
}

impl ThreadConfig for WindowWithTitle {
    open spec fn shown(&self) -> Seq<Seq<char>> {
        titled_lines(self@)
    }

    /// The window's lines and the title line; the window holds one line fewer than
    /// the size asked for, so the sum stays in range.
    open spec fn height(&self) -> usize {
        if self@.window.max_lines < usize::MAX {
            (self@.window.max_lines + 1) as usize
        } else {
            usize::MAX
        }
    }

    fn lines_to_display(&self) -> (r: usize) {
        self.window_base.max_lines().saturating_add(1)
    }

    fn handle_message(&mut self, message: String) -> (r: Vec<String>)
        ensures
            final(self)@ == (TitledState { window: window_after_message(old(self)@.window, message@), ..old(self)@ }),
    {
        self.window_base.add_message(message);
        self.get_lines()
    }

    fn get_lines(&self) -> (r: Vec<String>) {
        let mut lines = self.window_base.get_lines();
        let ghost rest = strings(lines@);
        let t = self.render_title(TITLE_WIDTH);
        lines.insert(0, t);
        assert(strings(lines@) =~= seq![t@] + rest);
        lines
    }
}

impl WithTitle for WindowWithTitle {
    /// The title is set (an empty one becomes `"Progress"`) while title support is
    /// on; otherwise it is refused and nothing changes.
    open spec fn sets_title(&self, title: String, after: Self, result: Result<(), ModeCreationError>) -> bool {
        match result {
            Ok(_) => self@.supports_title && after@ == (TitledState { title: kept_title(title@), ..self@ }),
            Err(e) => !self@.supports_title && e@ == title_disabled_error() && after@ == self@,
        }
    }

    /// Sets the title (an empty title becomes `"Progress"`); refused while title
    /// support is disabled.
    fn set_title(&mut self, title: String) -> (r: Result<(), ModeCreationError>)
        ensures
            r is Err <==> !old(self)@.supports_title,
            r matches Err(e) ==> e@ == title_disabled_error() && final(self)@ == old(self)@,
            r is Ok ==> final(self)@ == (TitledState { title: kept_title(title@), ..old(self)@ }),
    {
        if !self.supports_title {
            return Err(
                ModeCreationError::TitleNotSupported {
                    mode_name: owned("WindowWithTitle"),
                    reason: Some(owned("Title support is disabled for this mode")),
                },
            );
        }
        self.title = if title.unicode_len() == 0 {
            owned("Progress")
        } else {
            title
        };
        Ok(())
    }

    fn get_title(&self) -> (r: &str)
        ensures
            r@ == self@.title,
    {
        self.title.as_str()
    }
}

impl WithCustomSize for WindowWithTitle {
    /// Rebuilds the window with `max_lines - 1` content lines and the same total of
    /// jobs, then adds the lines it showed back as messages; fewer than 2 lines are
    /// refused.
    fn set_max_lines(&mut self, max_lines: usize) -> (r: Result<(), ModeCreationError>)
        ensures
            max_lines < 2 <==> r is Err,
            r matches Err(e) ==> e@ == titled_size_error(max_lines) && final(self)@ == old(self)@,
            r is Ok ==> final(self)@ == (TitledState {
                window: window_after_messages(
                    fresh_window(old(self)@.window.base.total_jobs, (max_lines - 1) as usize),
                    window_lines(old(self)@.window),
                ),
                ..old(self)@
            }),
    {
        if max_lines < 2 {
            return Err(
                ModeCreationError::InvalidWindowSize {
                    size: max_lines,
                    min_size: 2,
                    mode_name: owned("WindowWithTitle"),
                    reason: Some(
                        owned("WindowWithTitle requires at least 2 lines: 1 for title and 1 for content"),
                    ),
                },
            );
        }
        let current = self.window_base.get_lines();
        let total = self.window_base.base_config().get_total_jobs();
        let mut new_base = match WindowBase::new(total, max_lines - 1) {
            Ok(b) => b,
            Err(e) => {
                return Err(e);
            },
        };
        let ghost start = new_base@;
        let ghost msgs = strings(current@);
        let mut i: usize = 0;
        while i < current.len()
            invariant
                i <= current@.len(),
                msgs == strings(current@),
                new_base@ == window_after_messages(start, msgs.take(i as int)),
            decreases current@.len() - i,
        {
            let line = current[i].clone();
            proof {
                assert(msgs.take(i as int + 1).drop_last() =~= msgs.take(i as int));
                assert(msgs.take(i as int + 1).last() == msgs[i as int]);
            }
            new_base.add_message(line);
            i = i + 1;
        }
        assert(msgs.take(msgs.len() as int) =~= msgs);
        self.window_base = new_base;
        Ok(())
    }

    fn get_max_lines(&self) -> (r: usize)
        ensures
            r == self.height(),
    {
        self.window_base.max_lines().saturating_add(1)
    }
}

impl WithEmoji for WindowWithTitle {
    /// A non-blank emoji is added, once, while emoji support is on; otherwise it
    /// is refused and nothing changes.
    open spec fn adds_emoji(&self, emoji: &str, after: Self, result: Result<(), ModeCreationError>) -> bool {
        match result {
            Ok(_) => self@.supports_emoji && trim_seq(emoji@).len() > 0 && after@ == (TitledState {
                emojis: if self@.emojis.contains(emoji@) {
                    self@.emojis
                } else {
                    self@.emojis.push(emoji@)
                },
                ..self@
            }),
            Err(e) => after@ == self@ && if !self@.supports_emoji {
                e@ == emoji_disabled_error()
            } else {
                trim_seq(emoji@).len() == 0 && e@ == ModeErrorView::Implementation("Emoji cannot be empty"@)
            },
        }
    }

    /// Adds `emoji` unless it is already there; refused while emoji support is
    /// disabled, and for an emoji that is empty or all whitespace.
    fn add_emoji(&mut self, emoji: &str) -> (r: Result<(), ModeCreationError>)
        ensures
            !old(self)@.supports_emoji ==> (r matches Err(e) && e@ == emoji_disabled_error()),
            old(self)@.supports_emoji && trim_seq(emoji@).len() == 0 ==> (r matches Err(e) && e@
                == ModeErrorView::Implementation("Emoji cannot be empty"@)),
            r is Err ==> final(self)@ == old(self)@,
            r is Ok <==> old(self)@.supports_emoji && trim_seq(emoji@).len() > 0,
            r is Ok ==> final(self)@ == (TitledState {
                emojis: if old(self)@.emojis.contains(emoji@) {
                    old(self)@.emojis
                } else {
                    old(self)@.emojis.push(emoji@)
                },
                ..old(self)@
            }),
    {
        if !self.supports_emoji {
            return Err(
                ModeCreationError::EmojiNotSupported {
                    mode_name: owned("WindowWithTitle"),
                    reason: Some(owned("Emoji support is disabled for this mode")),
                },
            );
        }
        let chars = chars_of(emoji);
        let trimmed = trim_chars(chars.as_slice());
        if trimmed.len() == 0 {
            return Err(ModeCreationError::Implementation(owned("Emoji cannot be empty")));
        }
        if !self.has_emoji(emoji) {
            let e = owned(emoji);
            self.emojis.push(e);
            assert(strings(self.emojis@) =~= old(self)@.emojis.push(emoji@));
        }
        Ok(())
    }

    /// The emojis, or none while emoji support is disabled.
    fn get_emojis(&self) -> (r: Vec<String>)
        ensures
            strings(r@) == if self@.supports_emoji {
                self@.emojis
            } else {
                Seq::empty()
            },
    {
        if self.supports_emoji {
            let r = self.emojis.clone();
            assert(strings(r@) =~= strings(self.emojis@));
            r
        } else {
            let r: Vec<String> = Vec::new();
            assert(strings(r@) =~= Seq::<Seq<char>>::empty());
            r
        }
    }
}

impl WithTitleAndEmoji for WindowWithTitle {
    /// Clears the emojis and sets the title; refused, with nothing changed, unless
    /// both titles and emojis are supported.
    fn reset_with_title(&mut self, title: String) -> (r: Result<(), ModeCreationError>)
        ensures
            !old(self)@.supports_title ==> (r matches Err(e) && e@ == title_disabled_error()),
            old(self)@.supports_title && !old(self)@.supports_emoji ==> (r matches Err(e) && e@
                == emoji_disabled_error()),
            r is Ok <==> old(self)@.supports_title && old(self)@.supports_emoji,
            r is Err ==> final(self)@ == old(self)@,
            r is Ok ==> final(self)@ == (TitledState {
                title: kept_title(title@),
                emojis: Seq::empty(),
                ..old(self)@
            }),
    {
        if !self.supports_title {
            return Err(
                ModeCreationError::TitleNotSupported {
                    mode_name: owned("WindowWithTitle"),
                    reason: Some(owned("Title support is disabled for this mode")),
                },
            );
        }
        if !self.supports_emoji {
            return Err(
                ModeCreationError::EmojiNotSupported {
                    mode_name: owned("WindowWithTitle"),
                    reason: Some(owned("Emoji support is disabled for this mode")),
                },
            );
        }
        self.emojis.clear();
        assert(strings(self.emojis@) =~= Seq::<Seq<char>>::empty());
        self.set_title(title)
    }

    fn get_formatted_title(&self) -> (r: String)
        ensures
            r@ == formatted_title(self@),
    {
        let mut title = String::new();
        if self.supports_emoji && self.emojis.len() > 0 {
            let e = join_strings(self.emojis.as_slice(), " ");
            push_str(&mut title, e.as_str());
            push_str(&mut title, " ");
        }
        if self.supports_title {
            push_str(&mut title, self.title.as_str());
        }
        assert(title@ =~= formatted_title(self@));
        title
    }
}

impl StandardWindow for WindowWithTitle {
    fn clear(&mut self)
        ensures
            final(self)@ == (TitledState {
                window: WindowState {
                    lines: Seq::empty(),
                    threads: Seq::empty(),
                    threaded: false,
                    ..old(self)@.window
                },
                ..old(self)@
            }),
    {
        self.window_base.clear();
    }

    fn get_content(&self) -> (r: Vec<String>)
        ensures
            strings(r@) == window_lines(self@.window),
    {
        self.window_base.get_lines()
    }

    fn add_line(&mut self, line: String)
        ensures
            final(self)@ == (TitledState { window: window_after_message(old(self)@.window, line@), ..old(self)@ }),
    {
        self.window_base.add_message(line);
    }

    fn is_empty(&self) -> (r: bool)
        ensures
            r == window_is_empty(self@.window),
    {
        self.window_base.is_empty()
    }

    fn line_count(&self) -> (r: usize)
        ensures
            r == window_line_count(self@.window),
    {
        self.window_base.line_count()
    }
}

impl WithWrappedText for WindowWithTitle {
    fn set_line_wrapping(&mut self, enabled: bool)
        ensures
            final(self)@ == (TitledState {
                window: WindowState { wrapping: enabled, ..old(self)@.window },
                ..old(self)@
            }),
    {
        self.window_base.set_line_wrapping(enabled);
    }

    fn has_line_wrapping(&self) -> (r: bool)
        ensures
            r == self@.window.wrapping,
    {
        self.window_base.has_line_wrapping()
    }
}

impl WithProgress for WindowWithTitle {
    fn get_completed_jobs(&self) -> (r: usize)
        ensures
            r == self@.window.base.completed_jobs,
    {
        self.window_base.base_config().get_completed_jobs()
    }

    fn set_progress_format(&mut self, format: &str)
        ensures
            final(self)@ == (TitledState {
                window: WindowState {
                    base: JobState { progress_format: format@, ..old(self)@.window.base },
                    ..old(self)@.window
                },
                ..old(self)@
            }),
    {
        self.window_base.base_config_mut().set_progress_format(format);
    }

    fn get_progress_format(&self) -> (r: &str)
        ensures
            r@ == self@.window.base.progress_format,
    {
        self.window_base.base_config().get_progress_format()
    }
}

} // verus!
