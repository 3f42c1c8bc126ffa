//! The scrolling window of lines behind the window modes, and the single
//! line behind the one-line modes.
use vstd::prelude::*;
use crate::errors::ModeCreationError;
use crate::job::{initial_job_state, BaseConfig, JobState};
use crate::job_traits::HasBaseConfig;
use crate::strs::{
    char_vecs, chars_of, find_char, owned, push_str, split_chars, split_seq, string_of, strings,
    sub_chars, trim_chars, trim_seq, trim_start_chars, trim_start_seq,
};

verus! {

/// The width, in UTF-8 bytes, at which long lines are wrapped.
pub const WRAP_WIDTH: usize = 40;

/// The number of bytes that `c` takes in UTF-8.
pub open spec fn utf8_len(c: char) -> nat {
    let u = c as u32;
    if u < 0x80 {
        1
    } else if u < 0x800 {
        2
    } else if u < 0x10000 {
        3
    } else {
        4
    }
}

pub fn utf8_width(c: char) -> (n: usize)
    ensures
        n == utf8_len(c),
{
    let u = c as u32;
    if u < 0x80 {
        1
    } else if u < 0x800 {
        2
    } else if u < 0x10000 {
        3
    } else {
        4
    }
}

/// The number of leading characters of `s` whose UTF-8 encoding fits in `budget` bytes.
pub open spec fn fit_count(s: Seq<char>, budget: nat) -> nat
    decreases s.len(),
{
    if s.len() == 0 {
        0
    } else if utf8_len(s[0]) <= budget {
        1 + fit_count(s.drop_first(), (budget - utf8_len(s[0])) as nat)
    } else {
        0
    }
}

/// Whether the whole of `s` fits in the wrap width.
pub open spec fn fits_width(s: Seq<char>) -> bool {
    fit_count(s, WRAP_WIDTH as nat) == s.len()
}

/// The index of the last space among the first `k` characters of `s`.
pub open spec fn last_space(s: Seq<char>, k: int) -> Option<int>
    decreases k,
{
    if k <= 0 {
        None
    } else if s[k - 1] == ' ' {
        Some(k - 1)
    } else {
        last_space(s, k - 1)
    }
}

/// Where a line that does not fit is cut: at the last space within the width
/// (unless that space opens the line), otherwise at the width itself.
pub open spec fn cut_point(s: Seq<char>) -> int {
    let k = fit_count(s, WRAP_WIDTH as nat) as int;
    match last_space(s, k) {
        Some(j) => if j == 0 {
            k
        } else {
            j
        },
        None => k,
    }
}

pub proof fn lemma_fit_count_bound(s: Seq<char>, budget: nat)
    ensures
        fit_count(s, budget) <= s.len(),
        s.len() > 0 && budget >= 4 ==> fit_count(s, budget) >= 1,
    decreases s.len(),
{
    if s.len() > 0 && utf8_len(s[0]) <= budget {
        lemma_fit_count_bound(s.drop_first(), (budget - utf8_len(s[0])) as nat);
    }
}

pub proof fn lemma_last_space_bound(s: Seq<char>, k: int)
    ensures
        last_space(s, k) matches Some(j) ==> 0 <= j < k && s[j] == ' ',
    decreases k,
{
    if k > 0 && s[k - 1] != ' ' {
        lemma_last_space_bound(s, k - 1);
    }
}

pub proof fn lemma_trim_start_len(s: Seq<char>)
    ensures
        trim_start_seq(s).len() <= s.len(),
    decreases s.len(),
{
    if s.len() > 0 && crate::strs::is_ws(s[0]) {
        lemma_trim_start_len(s.drop_first());
    }
}

pub proof fn lemma_cut_point(s: Seq<char>)
    requires
        s.len() > 0,
    ensures
        1 <= cut_point(s) <= fit_count(s, WRAP_WIDTH as nat) <= s.len(),
{
    lemma_fit_count_bound(s, WRAP_WIDTH as nat);
    lemma_last_space_bound(s, fit_count(s, WRAP_WIDTH as nat) as int);
}

/// The pieces a line is wrapped into: a line that fits is kept whole; otherwise it
/// is cut at `cut_point` and the rest, without its leading whitespace, is wrapped again.
pub open spec fn wrap_pieces(s: Seq<char>) -> Seq<Seq<char>>
    decreases s.len(),
{
    if s.len() == 0 {
        Seq::empty()
    } else if fits_width(s) {
        seq![s]
    } else {
        let a = cut_point(s);
        if 1 <= a <= s.len() {
            proof {
                lemma_trim_start_len(s.skip(a));
            }
            seq![s.take(a)] + wrap_pieces(trim_start_seq(s.skip(a)))
        } else {
            seq![s]
        }
    }
}

/// The lines that one line of text contributes to the window.
pub open spec fn line_pieces(line: Seq<char>, wrapping: bool) -> Seq<Seq<char>> {
    if wrapping {
        wrap_pieces(line)
    } else {
        seq![line]
    }
}

/// The lines contributed by the non-empty pieces of a multi-line message.
pub open spec fn lines_of_pieces(pieces: Seq<Seq<char>>, wrapping: bool) -> Seq<Seq<char>>
    decreases pieces.len(),
{
    if pieces.len() == 0 {
        Seq::empty()
    } else {
        lines_of_pieces(pieces.drop_last(), wrapping) + if pieces.last().len() > 0 {
            line_pieces(pieces.last(), wrapping)
        } else {
            Seq::empty()
        }
    }
}

/// The last `n` elements of `s` (all of `s` when it is shorter).
pub open spec fn keep_last<A>(s: Seq<A>, n: nat) -> Seq<A> {
    if s.len() > n {
        s.skip(s.len() - n)
    } else {
        s
    }
}

pub proof fn lemma_keep_last_append<A>(a: Seq<A>, b: Seq<A>, n: nat)
    ensures
        keep_last(keep_last(a, n) + b, n) == keep_last(a + b, n),
{
    let ka = keep_last(a, n);
    if a.len() > n {
        if ka.len() + b.len() > n {
            assert(keep_last(ka + b, n) =~= keep_last(a + b, n));
        } else {
            assert(b.len() == 0);
            assert(ka + b =~= ka);
            assert(a + b =~= a);
        }
    }
}

pub proof fn lemma_keep_last_idem<A>(s: Seq<A>, n: nat)
    ensures
        keep_last(keep_last(s, n), n) == keep_last(s, n),
        keep_last(s, n).len() <= n,
{
}

/// The state of one thread's buffer: its id and the lines it received.
pub type ThreadLines = (Seq<char>, Seq<Seq<char>>);

/// The index of the buffer of thread `id`, if there is one.
pub open spec fn thread_index(ts: Seq<ThreadLines>, id: Seq<char>) -> Option<int>
    decreases ts.len(),
{
    if ts.len() == 0 {
        None
    } else if ts.last().0 == id && thread_index(ts.drop_last(), id) is None {
        Some(ts.len() - 1)
    } else {
        thread_index(ts.drop_last(), id)
    }
}

/// The buffers after `content` arrives for thread `id`: appended to that thread's
/// buffer, or to a new buffer for a thread not seen before.
pub open spec fn thread_push(ts: Seq<ThreadLines>, id: Seq<char>, content: Seq<char>) -> Seq<ThreadLines> {
    match thread_index(ts, id) {
        Some(i) => ts.update(i, (id, ts[i].1.push(content))),
        None => ts.push((id, seq![content])),
    }
}

/// The buffers after `message` is appended to every one of them.
pub open spec fn thread_broadcast(ts: Seq<ThreadLines>, message: Seq<char>) -> Seq<ThreadLines> {
    ts.map_values(|t: ThreadLines| (t.0, t.1.push(message)))
}

/// The displayed form of a thread's latest line: `"[id] line"`.
pub open spec fn thread_line(id: Seq<char>, line: Seq<char>) -> Seq<char> {
    "["@ + id + "] "@ + line
}

/// The latest line of every thread that has one, in buffer order.
pub open spec fn threaded_lines(ts: Seq<ThreadLines>) -> Seq<Seq<char>>
    decreases ts.len(),
{
    if ts.len() == 0 {
        Seq::empty()
    } else {
        threaded_lines(ts.drop_last()) + if ts.last().1.len() > 0 {
            seq![thread_line(ts.last().0, ts.last().1.last())]
        } else {
            Seq::empty()
        }
    }
}

/// Whether `m` is addressed to a thread: it starts with `[` and holds a `]`.
pub open spec fn is_thread_message(m: Seq<char>) -> bool {
    m.len() > 0 && m[0] == '[' && m.contains(']')
}

/// The index of the first `]` in `m`.
pub open spec fn close_bracket(m: Seq<char>) -> int {
    choose|p: int| 0 <= p < m.len() && m[p] == ']' && forall|q: int| 0 <= q < p ==> m[q] != ']'
}

/// The thread id of a thread message: what stands between `[` and the first `]`.
pub open spec fn message_thread_id(m: Seq<char>) -> Seq<char> {
    m.subrange(1, close_bracket(m))
}

/// The content of a thread message: what follows the first `]`, trimmed.
pub open spec fn message_content(m: Seq<char>) -> Seq<char> {
    trim_seq(m.subrange(close_bracket(m) + 1, m.len() as int))
}

/// The abstract state of a window.
pub struct WindowState {
    pub base: JobState,
    pub lines: Seq<Seq<char>>,
    pub max_lines: usize,
    pub threads: Seq<ThreadLines>,
    pub threaded: bool,
    pub wrapping: bool,
}

/// The window after `message` arrives.
pub open spec fn window_after_message(w: WindowState, message: Seq<char>) -> WindowState {
    if is_thread_message(message) {
        WindowState {
            threads: thread_push(w.threads, message_thread_id(message), message_content(message)),
            threaded: true,
            ..w
        }
    } else if w.threaded {
        WindowState { threads: thread_broadcast(w.threads, message), ..w }
    } else {
        let added = if message.contains('\n') {
            lines_of_pieces(split_seq(message, '\n'), w.wrapping)
        } else {
            line_pieces(message, w.wrapping)
        };
        WindowState { lines: keep_last(w.lines + added, w.max_lines as nat), ..w }
    }
}

proof fn lemma_threaded_lines_has(ts: Seq<ThreadLines>, i: int)
    requires
        0 <= i < ts.len(),
        ts[i].1.len() > 0,
    ensures
        threaded_lines(ts).contains(thread_line(ts[i].0, ts[i].1.last())),
    decreases ts.len(),
{
    let rest = ts.drop_last();
    let tail = if ts.last().1.len() > 0 {
        seq![thread_line(ts.last().0, ts.last().1.last())]
    } else {
        Seq::empty()
    };
    assert(threaded_lines(ts) == threaded_lines(rest) + tail);
    if i == ts.len() - 1 {
        assert(tail[0] == thread_line(ts[i].0, ts[i].1.last()));
        assert((threaded_lines(rest) + tail)[threaded_lines(rest).len() as int] == tail[0]);
    } else {
        lemma_threaded_lines_has(rest, i);
        let k = choose|k: int| 0 <= k < threaded_lines(rest).len() && threaded_lines(rest)[k] == thread_line(ts[i].0, ts[i].1.last());
        assert((threaded_lines(rest) + tail)[k] == threaded_lines(rest)[k]);
    }
}

proof fn lemma_thread_index_some(ts: Seq<ThreadLines>, id: Seq<char>)
    ensures
        thread_index(ts, id) matches Some(i) ==> 0 <= i < ts.len() && ts[i].0 == id,
    decreases ts.len(),
{
    if ts.len() > 0 {
        lemma_thread_index_some(ts.drop_last(), id);
    }
}

/// A message for a thread is shown: afterwards the window displays it as that
/// thread's latest line, `"[id] content"`.
pub proof fn law_thread_message_shown(w: WindowState, message: Seq<char>)
    requires
        is_thread_message(message),
    ensures
        window_lines(window_after_message(w, message)).contains(
            thread_line(message_thread_id(message), message_content(message)),
        ),
{
    let id = message_thread_id(message);
    let content = message_content(message);
    let ts = thread_push(w.threads, id, content);
    lemma_thread_index_some(w.threads, id);
    let i = match thread_index(w.threads, id) {
        Some(i) => i,
        None => w.threads.len() as int,
    };
    assert(ts[i] == (id, if thread_index(w.threads, id) is Some {
        w.threads[i].1.push(content)
    } else {
        seq![content]
    }));
    assert(ts[i].1.last() == content);
    lemma_threaded_lines_has(ts, i);
}

/// The non-empty pieces among `ps`, in order.
pub open spec fn nonempty_pieces(ps: Seq<Seq<char>>) -> Seq<Seq<char>> {
    ps.filter(|p: Seq<char>| p.len() > 0)
}

proof fn lemma_unwrapped_pieces(ps: Seq<Seq<char>>)
    ensures
        lines_of_pieces(ps, false) == nonempty_pieces(ps),
    decreases ps.len(),
{
    reveal(Seq::filter);
    if ps.len() == 0 {
        assert(lines_of_pieces(ps, false) =~= nonempty_pieces(ps));
    } else {
        lemma_unwrapped_pieces(ps.drop_last());
        if ps.last().len() > 0 {
            assert(lines_of_pieces(ps, false) =~= nonempty_pieces(ps.drop_last()).push(ps.last()));
        } else {
            assert(lines_of_pieces(ps, false) =~= nonempty_pieces(ps.drop_last()));
        }
    }
}

/// Outside threaded mode and without wrapping, a message that is not addressed to
/// a thread adds its non-empty lines (or itself whole, when it holds no line
/// break) after the window's lines, and the window keeps the last `max_lines` of
/// them; so it never shows more than `max_lines` lines.
pub proof fn law_plain_message_lines(w: WindowState, message: Seq<char>)
    requires
        !w.threaded,
        !w.wrapping,
        !is_thread_message(message),
    ensures
        window_lines(window_after_message(w, message)) == keep_last(
            w.lines + if message.contains('\n') {
                nonempty_pieces(split_seq(message, '\n'))
            } else {
                seq![message]
            },
            w.max_lines as nat,
        ),
        window_line_count(window_after_message(w, message)) <= w.max_lines,
{
    lemma_unwrapped_pieces(split_seq(message, '\n'));
}

/// The window after each of `msgs` arrives, in order.
pub open spec fn window_after_messages(w: WindowState, msgs: Seq<Seq<char>>) -> WindowState
    decreases msgs.len(),
{
    if msgs.len() == 0 {
        w
    } else {
        window_after_message(window_after_messages(w, msgs.drop_last()), msgs.last())
    }
}

/// The lines a window displays.
pub open spec fn window_lines(w: WindowState) -> Seq<Seq<char>> {
    if w.threaded {
        threaded_lines(w.threads)
    } else {
        w.lines
    }
}

/// Whether a window has no content: in threaded mode, no thread buffer holds a line.
pub open spec fn window_is_empty(w: WindowState) -> bool {
    if w.threaded {
        forall|i: int| 0 <= i < w.threads.len() ==> (#[trigger] w.threads[i]).1.len() == 0
    } else {
        w.lines.len() == 0
    }
}

/// The number of lines a window holds: thread buffers in threaded mode.
pub open spec fn window_line_count(w: WindowState) -> nat {
    if w.threaded {
        w.threads.len()
    } else {
        w.lines.len()
    }
}

/// One thread's buffer.
#[derive(Debug, Clone)]
struct ThreadBuffer {
    id: String,
    lines: Vec<String>,
}

/// The abstract value of a list of thread buffers.
spec fn thread_states(v: Seq<ThreadBuffer>) -> Seq<ThreadLines> {
    v.map_values(|b: ThreadBuffer| (b.id@, strings(b.lines@)))
}

/// Base implementation for window-based display modes: a scrolling window of
/// lines, with per-thread buffers for messages tagged `[thread-id]` and optional
/// line wrapping.
#[derive(Debug, Clone)]
pub struct WindowBase {
    base: BaseConfig,
    lines: Vec<String>,
    max_lines: usize,
    thread_buffers: Vec<ThreadBuffer>,
    is_threaded_mode: bool,
    line_wrapping: bool,
}

impl View for WindowBase {
    type V = WindowState;

    closed spec fn view(&self) -> WindowState {
        WindowState {
            base: self.base@,
            lines: strings(self.lines@),
            max_lines: self.max_lines,
            threads: thread_states(self.thread_buffers@),
            threaded: self.is_threaded_mode,
            wrapping: self.line_wrapping,
        }
    }
}

/// Wraps one line of characters into pieces.
fn wrap_line(line: &Vec<char>) -> (r: Vec<Vec<char>>)
    ensures
        char_vecs(r@) == wrap_pieces(line@),
{
    let mut out: Vec<Vec<char>> = Vec::new();
    let mut rem: Vec<char> = sub_chars(line.as_slice(), 0, line.len());
    assert(rem@ =~= line@);
    assert(char_vecs(out@) =~= Seq::<Seq<char>>::empty());
    while rem.len() > 0
        invariant
            char_vecs(out@) + wrap_pieces(rem@) == wrap_pieces(line@),
        decreases rem@.len(),
    {
        let ghost dv = char_vecs(out@);
        let k = fit_prefix(&rem);
        if k == rem.len() {
            let whole = sub_chars(rem.as_slice(), 0, rem.len());
            assert(whole@ =~= rem@);
            assert(wrap_pieces(rem@) == seq![rem@]);
            out.push(whole);
            rem = Vec::new();
            assert(char_vecs(out@) =~= dv.push(whole@));
            assert(wrap_pieces(rem@) =~= Seq::<Seq<char>>::empty());
            assert(char_vecs(out@) + wrap_pieces(rem@) =~= dv + seq![whole@]);
        } else {
            proof {
                lemma_cut_point(rem@);
            }
            let j = last_space_before(&rem, k);
            let a = match j {
                Some(j) => if j == 0 {
                    k
                } else {
                    j
                },
                None => k,
            };
            assert(a == cut_point(rem@));
            let first = sub_chars(rem.as_slice(), 0, a);
            let tail = sub_chars(rem.as_slice(), a, rem.len());
            assert(tail@ =~= rem@.skip(a as int));
            assert(first@ =~= rem@.take(a as int));
            let next = trim_start_chars(tail.as_slice());
            let ghost old_rem = rem@;
            assert(wrap_pieces(old_rem) == seq![first@] + wrap_pieces(next@));
            out.push(first);
            assert(char_vecs(out@) =~= dv.push(first@));
            proof {
                lemma_trim_start_len(old_rem.skip(a as int));
            }
            rem = next;
            assert(char_vecs(out@) + wrap_pieces(rem@) =~= dv + (seq![first@] + wrap_pieces(rem@)));
        }
    }
    assert(wrap_pieces(rem@) =~= Seq::<Seq<char>>::empty());
    assert(char_vecs(out@) + wrap_pieces(rem@) =~= char_vecs(out@));
    out
}

/// The number of leading characters of `s` that fit in the wrap width.
fn fit_prefix(s: &Vec<char>) -> (k: usize)
    ensures
        k == fit_count(s@, WRAP_WIDTH as nat),
{
    let mut i: usize = 0;
    let mut used: usize = 0;
    proof {
        lemma_fit_count_bound(s@, WRAP_WIDTH as nat);
        assert(s@.skip(0) =~= s@);
    }
    while i < s.len() && used + utf8_width(s[i]) <= WRAP_WIDTH
        invariant
            i <= s@.len(),
            used <= WRAP_WIDTH,
            fit_count(s@, WRAP_WIDTH as nat) == i + fit_count(s@.skip(i as int), (WRAP_WIDTH - used) as nat),
        decreases s@.len() - i,
    {
        let w = utf8_width(s[i]);
        proof {
            let t = s@.skip(i as int);
            assert(t[0] == s@[i as int]);
            assert(t.drop_first() =~= s@.skip(i as int + 1));
        }
        used = used + w;
        i = i + 1;
    }
    proof {
        let t = s@.skip(i as int);
        if i < s.len() {
            assert(t[0] == s@[i as int]);
        } else {
            assert(t.len() == 0);
        }
    }
    i
}

/// The index of the last space among the first `k` characters of `s`.
fn last_space_before(s: &Vec<char>, k: usize) -> (r: Option<usize>)
    requires
        k <= s@.len(),
    ensures
        match r {
            Some(j) => last_space(s@, k as int) == Some(j as int),
            None => last_space(s@, k as int) is None,
        },
{
    let mut i = k;
    while i > 0
        invariant
            i <= k,
            k <= s@.len(),
            last_space(s@, k as int) == last_space(s@, i as int),
        decreases i,
    {
        if s[i - 1] == ' ' {
            return Some(i - 1);
        }
        i = i - 1;
    }
    None
}

impl WindowBase {
    /// Creates a window tracking `total_jobs` jobs that shows at most `max_lines` lines;
    /// a size below 1 is refused.
    pub fn new(total_jobs: usize, max_lines: usize) -> (r: Result<Self, ModeCreationError>)
        ensures
            max_lines < 1 <==> r is Err,
            r matches Err(e) ==> e@ == (crate::errors::ModeErrorView::InvalidWindowSize {
                size: max_lines,
                min_size: 1,
                mode_name: "WindowBase"@,
                reason: Some("Window size must be at least 1 line"@),
            }),
            r matches Ok(w) ==> w@ == (WindowState {
                base: initial_job_state(total_jobs),
                lines: Seq::empty(),
                max_lines,
                threads: Seq::empty(),
                threaded: false,
                wrapping: false,
            }),
    {
        if max_lines < 1 {
            return Err(
                ModeCreationError::InvalidWindowSize {
                    size: max_lines,
                    min_size: 1,
                    mode_name: owned("WindowBase"),
                    reason: Some(owned("Window size must be at least 1 line")),
                },
            );
        }
        let w = WindowBase {
            base: BaseConfig::new(total_jobs),
            lines: Vec::new(),
            max_lines,
            thread_buffers: Vec::new(),
            is_threaded_mode: false,
            line_wrapping: false,
        };
        assert(w@.lines =~= Seq::<Seq<char>>::empty());
        assert(w@.threads =~= Seq::<ThreadLines>::empty());
        Ok(w)
    }

    /// Add a message to the window.
    ///
    /// A message `[id] content` goes to the buffer of thread `id` and switches the
    /// window to threaded mode; in threaded mode any other message goes to every
    /// buffer. Otherwise the message is split at line breaks (empty pieces are
    /// dropped) and each line is added, wrapped when wrapping is enabled.
    pub fn add_message(&mut self, message: String)
        ensures
            final(self)@ == window_after_message(old(self)@, message@),
    {
        let chars = chars_of(message.as_str());
        if chars.len() > 0 && chars[0] == '[' && crate::strs::contains_char(chars.as_slice(), ']') {
            let end = find_char(chars.as_slice(), ']');
            let end_idx = match end {
                Some(e) => e,
                None => 0,
            };
            proof {
                let p = close_bracket(message@);
                assert(0 <= p < message@.len() && message@[p] == ']' && forall|q: int| 0 <= q < p ==> message@[q] != ']');
                if p < end_idx {
                    assert(chars@[p] == ']');
                } else if p > end_idx {
                    assert(message@[end_idx as int] == ']');
                }
                assert(end_idx as int == p);
                assert(end_idx >= 1);
            }
            let id = sub_chars(chars.as_slice(), 1, end_idx);
            let rest = sub_chars(chars.as_slice(), end_idx + 1, chars.len());
            let content = trim_chars(rest.as_slice());
            let id_s = string_of(id.as_slice());
            let content_s = string_of(content.as_slice());
            self.push_to_thread(id_s, content_s);
            self.is_threaded_mode = true;
        } else if self.is_threaded_mode {
            self.broadcast(&message);
        } else if crate::strs::contains_char(chars.as_slice(), '\n') {
            let pieces = split_chars(chars.as_slice(), '\n');
            let mut i: usize = 0;
            let ghost w0 = self@;
            assert(pieces@.subrange(0, 0) =~= Seq::<Vec<char>>::empty());
            assert(w0.lines + lines_of_pieces(char_vecs(pieces@.subrange(0, 0)), w0.wrapping) =~= w0.lines);
            while i < pieces.len()
                invariant
                    i <= pieces@.len(),
                    self@ == (WindowState { lines: self@.lines, ..w0 }),
                    keep_last(self@.lines, w0.max_lines as nat) == keep_last(
                        w0.lines + lines_of_pieces(char_vecs(pieces@.subrange(0, i as int)), w0.wrapping),
                        w0.max_lines as nat,
                    ),
                decreases pieces@.len() - i,
            {
                let ghost before = char_vecs(pieces@.subrange(0, i as int));
                let ghost after = char_vecs(pieces@.subrange(0, i as int + 1));
                assert(after.drop_last() =~= before);
                assert(after.last() == pieces@[i as int]@);
                if pieces[i].len() > 0 {
                    let ghost cur = self@.lines;
                    let line = string_of(pieces[i].as_slice());
                    self.add_single_line(line);
                    proof {
                        let lp = line_pieces(pieces@[i as int]@, w0.wrapping);
                        let whole = w0.lines + lines_of_pieces(before, w0.wrapping);
                        let n = w0.max_lines as nat;
                        lemma_keep_last_idem(cur + lp, n);
                        lemma_keep_last_append(cur, lp, n);
                        lemma_keep_last_append(whole, lp, n);
                        assert(w0.lines + lines_of_pieces(after, w0.wrapping) =~= whole + lp);
                    }
                } else {
                    assert(lines_of_pieces(after, w0.wrapping) =~= lines_of_pieces(before, w0.wrapping));
                }
                i = i + 1;
            }
            self.truncate_lines();
            assert(pieces@.subrange(0, pieces@.len() as int) =~= pieces@);
        } else {
            self.add_single_line(message);
        }
    }

    /// Drops the oldest lines beyond the window size.
    fn truncate_lines(&mut self)
        ensures
            final(self)@ == (WindowState {
                lines: keep_last(old(self)@.lines, old(self)@.max_lines as nat),
                ..old(self)@
            }),
    {
        let ghost all = self@.lines;
        while self.lines.len() > self.max_lines
            invariant
                self@ == (WindowState { lines: self@.lines, ..old(self)@ }),
                keep_last(self@.lines, self@.max_lines as nat) == keep_last(all, self@.max_lines as nat),
            decreases self.lines@.len(),
        {
            let ghost before = strings(self.lines@);
            self.lines.remove(0);
            proof {
                assert(strings(self.lines@) =~= before.drop_first());
                if before.drop_first().len() > self.max_lines {
                    assert(keep_last(before.drop_first(), self.max_lines as nat) =~= keep_last(before, self.max_lines as nat));
                } else {
                    assert(keep_last(before, self.max_lines as nat) =~= before.drop_first());
                }
            }
        }
        assert(keep_last(self@.lines, self@.max_lines as nat) == self@.lines);
    }

    /// Appends `content` to the buffer of thread `id`, creating it when needed.
    fn push_to_thread(&mut self, id: String, content: String)
        ensures
            final(self)@ == (WindowState {
                threads: thread_push(old(self)@.threads, id@, content@),
                ..old(self)@
            }),
    {
        let mut i: usize = 0;
        let ghost ts = thread_states(self.thread_buffers@);
        while i < self.thread_buffers.len()
            invariant
                i <= self.thread_buffers@.len(),
                self@ == old(self)@,
                ts == thread_states(self.thread_buffers@),
                forall|j: int| 0 <= j < i ==> ts[j].0 != id@,
            decreases self.thread_buffers@.len() - i,
        {
            if crate::strs::str_eq(self.thread_buffers[i].id.as_str(), id.as_str()) {
                proof {
                    lemma_thread_index_first(ts, id@, i as int);
                }
                let ghost v0 = self.thread_buffers@;
                let mut buf = self.thread_buffers.remove(i);
                let ghost l0 = buf.lines@;
                buf.lines.push(content);
                assert(strings(buf.lines@) =~= strings(l0).push(content@));
                self.thread_buffers.insert(i, buf);
                assert(self.thread_buffers@ =~= v0.update(i as int, buf));
                proof {
                    assert(thread_states(self.thread_buffers@) =~= ts.update(i as int, (id@, ts[i as int].1.push(content@))));
                }
                return ;
            }
            i = i + 1;
        }
        proof {
            lemma_thread_index_absent(ts, id@);
        }
        let mut lines: Vec<String> = Vec::new();
        lines.push(content);
        let buf = ThreadBuffer { id, lines };
        self.thread_buffers.push(buf);
        proof {
            assert(strings(buf.lines@) =~= seq![content@]);
            assert(thread_states(self.thread_buffers@) =~= ts.push((id@, seq![content@])));
        }
    }

    /// Appends `message` to every thread buffer.
    fn broadcast(&mut self, message: &String)
        ensures
            final(self)@ == (WindowState {
                threads: thread_broadcast(old(self)@.threads, message@),
                ..old(self)@
            }),
    {
        let mut i: usize = 0;
        let ghost ts = thread_states(self.thread_buffers@);
        while i < self.thread_buffers.len()
            invariant
                i <= self.thread_buffers@.len(),
                self.thread_buffers@.len() == ts.len(),
                self@ == (WindowState { threads: thread_states(self.thread_buffers@), ..old(self)@ }),
                forall|j: int| 0 <= j < i ==> #[trigger] thread_states(self.thread_buffers@)[j] == (ts[j].0, ts[j].1.push(message@)),
                forall|j: int| i <= j < ts.len() ==> #[trigger] thread_states(self.thread_buffers@)[j] == ts[j],
            decreases self.thread_buffers@.len() - i,
        {
            let ghost prev = thread_states(self.thread_buffers@);
            let mut buf = self.thread_buffers.remove(i);
            buf.lines.push(message.clone());
            self.thread_buffers.insert(i, buf);
            proof {
                assert(strings(buf.lines@) =~= prev[i as int].1.push(message@));
                assert(thread_states(self.thread_buffers@) =~= prev.update(i as int, (prev[i as int].0, prev[i as int].1.push(message@))));
            }
            i = i + 1;
        }
        assert(thread_states(self.thread_buffers@) =~= thread_broadcast(ts, message@));
    }

    /// Add a single line to the window, wrapping it when wrapping is enabled, and
    /// drop the oldest lines beyond the window size.
    fn add_single_line(&mut self, line: String)
        ensures
            final(self)@ == (WindowState {
                lines: keep_last(old(self)@.lines + line_pieces(line@, old(self)@.wrapping), old(self)@.max_lines as nat),
                ..old(self)@
            }),
    {
        let ghost l0 = self@.lines;
        if self.line_wrapping {
            let chars = chars_of(line.as_str());
            let pieces = wrap_line(&chars);
            let mut i: usize = 0;
            assert(char_vecs(pieces@).subrange(0, 0) =~= Seq::<Seq<char>>::empty());
            assert(l0 + char_vecs(pieces@).subrange(0, 0) =~= l0);
            while i < pieces.len()
                invariant
                    i <= pieces@.len(),
                    self@ == (WindowState { lines: l0 + char_vecs(pieces@).subrange(0, i as int), ..old(self)@ }),
                decreases pieces@.len() - i,
            {
                let s = string_of(pieces[i].as_slice());
                let ghost before = strings(self.lines@);
                self.lines.push(s);
                assert(strings(self.lines@) =~= before.push(s@));
                assert(l0 + char_vecs(pieces@).subrange(0, i as int + 1) =~= before.push(s@));
                i = i + 1;
            }
            assert(char_vecs(pieces@).subrange(0, pieces@.len() as int) =~= char_vecs(pieces@));
        } else {
            let ghost before = strings(self.lines@);
            self.lines.push(line);
            assert(strings(self.lines@) =~= before + seq![line@]);
        }
        self.truncate_lines();
    }

    /// The lines to display: the latest line of each thread in threaded mode
    /// (as `"[id] line"`), all window lines otherwise.
    pub fn get_lines(&self) -> (r: Vec<String>)
        ensures
            strings(r@) == window_lines(self@),
    {
        if self.is_threaded_mode {
            let mut result: Vec<String> = Vec::new();
            let mut i: usize = 0;
            let ghost ts = thread_states(self.thread_buffers@);
            assert(ts.subrange(0, 0) =~= Seq::<ThreadLines>::empty());
            while i < self.thread_buffers.len()
                invariant
                    i <= self.thread_buffers@.len(),
                    ts == thread_states(self.thread_buffers@),
                    strings(result@) == threaded_lines(ts.subrange(0, i as int)),
                decreases self.thread_buffers@.len() - i,
            {
                let ghost before = strings(result@);
                let buf = &self.thread_buffers[i];
                proof {
                    assert(ts.subrange(0, i as int + 1).drop_last() =~= ts.subrange(0, i as int));
                    assert(ts.subrange(0, i as int + 1).last() == ts[i as int]);
                }
                let n = buf.lines.len();
                if n > 0 {
                    let mut s = owned("[");
                    push_str(&mut s, buf.id.as_str());
                    push_str(&mut s, "] ");
                    push_str(&mut s, buf.lines[n - 1].as_str());
                    result.push(s);
                    proof {
                        assert(strings(result@) =~= before.push(s@));
                        assert(s@ =~= thread_line(ts[i as int].0, ts[i as int].1.last()));
                        assert(strings(result@) =~= before + seq![thread_line(ts[i as int].0, ts[i as int].1.last())]);
                    }
                } else {
                    assert(threaded_lines(ts.subrange(0, i as int + 1)) =~= before);
                }
                i = i + 1;
            }
            assert(ts.subrange(0, ts.len() as int) =~= ts);
            result
        } else {
            let r = self.lines.clone();
            assert(strings(r@) =~= strings(self.lines@));
            r
        }
    }

    /// The job configuration of the window.
    pub fn base_config(&self) -> (r: &BaseConfig)
        ensures
            r@ == self@.base,
    {
        &self.base
    }

    /// The job configuration of the window, to change it; nothing else of the
    /// window changes.
    pub fn base_config_mut(&mut self) -> (r: &mut BaseConfig)
        ensures
            r@ == old(self)@.base,
            final(self)@ == (WindowState { base: final(r)@, ..old(self)@ }),
    {
        &mut self.base
    }

    /// The maximum number of lines the window keeps.
    pub fn max_lines(&self) -> (r: usize)
        ensures
            r == self@.max_lines,
    {
        self.max_lines
    }

    /// Clear all lines and thread buffers; the window leaves threaded mode.
    pub fn clear(&mut self)
        ensures
            final(self)@ == (WindowState {
                lines: Seq::empty(),
                threads: Seq::empty(),
                threaded: false,
                ..old(self)@
            }),
    {
        self.lines.clear();
        self.thread_buffers.clear();
        self.is_threaded_mode = false;
        assert(self@.lines =~= Seq::<Seq<char>>::empty());
        assert(self@.threads =~= Seq::<ThreadLines>::empty());
    }

    /// Whether the window has no content.
    pub fn is_empty(&self) -> (r: bool)
        ensures
            r == window_is_empty(self@),
    {
        if self.is_threaded_mode {
            let mut i: usize = 0;
            while i < self.thread_buffers.len()
                invariant
                    self.is_threaded_mode,
                    i <= self.thread_buffers@.len(),
                    forall|j: int| 0 <= j < i ==> (#[trigger] self@.threads[j]).1.len() == 0,
                decreases self.thread_buffers@.len() - i,
            {
                if self.thread_buffers[i].lines.len() > 0 {
                    proof {
                        let t = self@.threads;
                        assert(t[i as int].1.len() > 0);
                        assert(!(forall|j: int| 0 <= j < t.len() ==> (#[trigger] t[j]).1.len() == 0));
                    }
                    return false;
                }
                i = i + 1;
            }
            true
        } else {
            self.lines.len() == 0
        }
    }

    /// The number of lines: thread buffers in threaded mode, window lines otherwise.
    pub fn line_count(&self) -> (r: usize)
        ensures
            r == window_line_count(self@),
    {
        if self.is_threaded_mode {
            self.thread_buffers.len()
        } else {
            self.lines.len()
        }
    }

    /// Enable or disable line wrapping.
    pub fn set_line_wrapping(&mut self, enabled: bool)
        ensures
            final(self)@ == (WindowState { wrapping: enabled, ..old(self)@ }),
    {
        self.line_wrapping = enabled;
    }

    /// Whether line wrapping is enabled.
    pub fn has_line_wrapping(&self) -> (r: bool)
        ensures
            r == self@.wrapping,
    {
        self.line_wrapping
    }
}

proof fn lemma_thread_index_first(ts: Seq<ThreadLines>, id: Seq<char>, i: int)
    requires
        0 <= i < ts.len(),
        ts[i].0 == id,
        forall|j: int| 0 <= j < i ==> ts[j].0 != id,
    ensures
        thread_index(ts, id) == Some(i),
    decreases ts.len(),
{
    if i < ts.len() - 1 {
        lemma_thread_index_first(ts.drop_last(), id, i);
    } else {
        lemma_thread_index_absent(ts.drop_last(), id);
    }
}

proof fn lemma_thread_index_absent(ts: Seq<ThreadLines>, id: Seq<char>)
    requires
        forall|j: int| 0 <= j < ts.len() ==> ts[j].0 != id,
    ensures
        thread_index(ts, id) is None,
    decreases ts.len(),
{
    if ts.len() > 0 {
        lemma_thread_index_absent(ts.drop_last(), id);
    }
}

impl HasBaseConfig for WindowBase {
    open spec fn base_state(&self) -> JobState {
        self@.base
    }

    open spec fn same_but_base(&self, other: Self) -> bool {
        other@ == (WindowState { base: other@.base, ..self@ })
    }

    fn base_config(&self) -> (r: &BaseConfig) {
        &self.base
    }

    fn base_config_mut(&mut self) -> (r: &mut BaseConfig)
        ensures
            final(self)@ == (WindowState { base: final(r)@, ..old(self)@ }),
    {
        &mut self.base
    }
}


/// The abstract state of a single-line display.
pub struct SingleLineState {
    pub base: JobState,
    pub line: Seq<char>,
    pub passthrough: bool,
}

/// A fresh single line tracking `total_jobs` jobs.
pub open spec fn initial_single_line(total_jobs: usize, passthrough: bool) -> SingleLineState {
    SingleLineState { base: initial_job_state(total_jobs), line: Seq::empty(), passthrough }
}

/// Base implementation for single-line display modes: one line that each new
/// message replaces, optionally passing the raw output through.
#[derive(Debug, Clone)]
pub struct SingleLineBase {
    base: BaseConfig,
    current_line: String,
    passthrough: bool,
}

impl View for SingleLineBase {
    type V = SingleLineState;

    closed spec fn view(&self) -> SingleLineState {
        SingleLineState { base: self.base@, line: self.current_line@, passthrough: self.passthrough }
    }
}

impl SingleLineBase {
    /// Creates a single line tracking `total_jobs` jobs, with an empty line.
    pub fn new(total_jobs: usize, passthrough: bool) -> (r: Self)
        ensures
            r@ == (SingleLineState { base: initial_job_state(total_jobs), line: Seq::empty(), passthrough }),
    {
        let r = SingleLineBase { base: BaseConfig::new(total_jobs), current_line: String::new(), passthrough };
        assert(r@.line =~= Seq::<char>::empty());
        r
    }

    /// Replaces the current line with `message`.
    pub fn update_line(&mut self, message: String)
        ensures
            final(self)@ == (SingleLineState { line: message@, ..old(self)@ }),
    {
        self.current_line = message;
    }

    /// The current line.
    pub fn get_line(&self) -> (r: String)
        ensures
            r@ == self@.line,
    {
        self.current_line.clone()
    }

    /// Whether passthrough is enabled.
    pub fn has_passthrough(&self) -> (r: bool)
        ensures
            r == self@.passthrough,
    {
        self.passthrough
    }
}

/// Modes that can pass their output through.
pub trait WithPassthrough {
    /// Enable or disable passthrough.
    fn set_passthrough(&mut self, enabled: bool);

    /// Whether passthrough is enabled.
    fn has_passthrough(&self) -> bool;
}

impl WithPassthrough for SingleLineBase {
    fn set_passthrough(&mut self, enabled: bool)
        ensures
            final(self)@ == (SingleLineState { passthrough: enabled, ..old(self)@ }),
    {
        self.passthrough = enabled;
    }

    fn has_passthrough(&self) -> (r: bool)
        ensures
            r == self@.passthrough,
    {
        self.passthrough
    }
}

impl HasBaseConfig for SingleLineBase {
    open spec fn base_state(&self) -> JobState {
        self@.base
    }

    open spec fn same_but_base(&self, other: Self) -> bool {
        other@ == (SingleLineState { base: other@.base, ..self@ })
    }

    fn base_config(&self) -> (r: &BaseConfig) {
        &self.base
    }

    fn base_config_mut(&mut self) -> (r: &mut BaseConfig)
        ensures
            final(self)@ == (SingleLineState { base: final(r)@, ..old(self)@ }),
    {
        &mut self.base
    }
}

} // verus!
