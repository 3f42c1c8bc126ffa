//! Wrapping text at a width, counting wide characters as two columns and keeping
//! grapheme clusters whole.
use vstd::prelude::*;
use unicode_segmentation::UnicodeSegmentation;
use crate::strs::{chars_of, owned, push_str, strings};

verus! {

/// The extended grapheme clusters of `s`, as `UnicodeSegmentation::graphemes`
/// gives them.
pub uninterp spec fn grapheme_clusters(s: Seq<char>) -> Seq<Seq<char>>;

/// The pieces of `gs` put back together.
pub open spec fn flatten(gs: Seq<Seq<char>>) -> Seq<char>
    decreases gs.len(),
{
    if gs.len() == 0 {
        Seq::empty()
    } else {
        flatten(gs.drop_last()) + gs.last()
    }
}

/// Splits `s` into its extended grapheme clusters with `unicode_segmentation`: the
/// clusters are non-empty and, put back together, give `s`.
#[verifier::external_body]
fn graphemes_of(s: &str) -> (r: Vec<String>)
    ensures
        strings(r@) == grapheme_clusters(s@),
        flatten(strings(r@)) == s@,
        forall|i: int| 0 <= i < r@.len() ==> (#[trigger] r@[i])@.len() > 0,
{
    UnicodeSegmentation::graphemes(s, true).map(|g| g.to_string()).collect()
}

/// Whether `c` takes two columns: Hangul Jamo and syllables, CJK ideographs and
/// compatibility forms, vertical forms, and full-width forms.
pub open spec fn is_wide(c: char) -> bool {
    let u = c as u32;
    (0x1100 <= u <= 0x11FF) || (0x2E80 <= u <= 0x9FFF) || (0xAC00 <= u <= 0xD7AF) || (0xF900 <= u
        <= 0xFAFF) || (0xFE10 <= u <= 0xFE19) || (0xFE30 <= u <= 0xFE6F) || (0xFF00 <= u <= 0xFF60)
        || (0xFFE0 <= u <= 0xFFE6)
}

/// Whether `c` takes two columns.
pub fn is_wide_char(c: char) -> (r: bool)
    ensures
        r == is_wide(c),
{
    let u = c as u32;
    (0x1100 <= u && u <= 0x11FF) || (0x2E80 <= u && u <= 0x9FFF) || (0xAC00 <= u && u <= 0xD7AF) || (
    0xF900 <= u && u <= 0xFAFF) || (0xFE10 <= u && u <= 0xFE19) || (0xFE30 <= u && u <= 0xFE6F) || (
    0xFF00 <= u && u <= 0xFF60) || (0xFFE0 <= u && u <= 0xFFE6)
}

/// The columns a cluster takes: two when its first character is wide, else one.
pub open spec fn cluster_width(g: Seq<char>) -> nat {
    if g.len() > 0 && is_wide(g[0]) {
        2
    } else {
        1
    }
}

/// The columns of a sequence of clusters.
pub open spec fn clusters_width(gs: Seq<Seq<char>>) -> nat
    decreases gs.len(),
{
    if gs.len() == 0 {
        0
    } else {
        clusters_width(gs.drop_last()) + cluster_width(gs.last())
    }
}

/// The columns `s` takes.
pub open spec fn visual_width(s: Seq<char>) -> nat {
    clusters_width(grapheme_clusters(s))
}

/// Which characters take two columns: the Hangul syllables (U+AC00 to U+D7AF), the
/// Hangul Jamo (U+1100 to U+11FF), the CJK unified ideographs (U+4E00 to U+9FFF)
/// and the full-width forms (U+FF00 to U+FF60) do; every character below U+1100
/// (ASCII, Latin, Greek, Cyrillic and the like) takes one.
pub proof fn law_wide_characters(c: char)
    ensures
        0xAC00 <= c as u32 <= 0xD7AF ==> is_wide(c),
        0x1100 <= c as u32 <= 0x11FF ==> is_wide(c),
        0x4E00 <= c as u32 <= 0x9FFF ==> is_wide(c),
        0xFF00 <= c as u32 <= 0xFF60 ==> is_wide(c),
        (c as u32) < 0x1100 ==> !is_wide(c),
{
}

/// Clusters that each start with a Hangul syllable take two columns apiece, and
/// clusters that each start with a character below U+1100 take one apiece.
pub proof fn law_clusters_width(gs: Seq<Seq<char>>)
    ensures
        (forall|i: int| 0 <= i < gs.len() ==> (#[trigger] gs[i]).len() > 0 && 0xAC00 <= gs[i][0] as u32 <= 0xD7AF)
            ==> clusters_width(gs) == 2 * gs.len(),
        (forall|i: int| 0 <= i < gs.len() ==> (#[trigger] gs[i]).len() > 0 && (gs[i][0] as u32) < 0x1100)
            ==> clusters_width(gs) == gs.len(),
    decreases gs.len(),
{
    if gs.len() > 0 {
        let rest = gs.drop_last();
        assert forall|i: int| 0 <= i < rest.len() implies #[trigger] rest[i] == gs[i] by {}
        law_clusters_width(rest);
        law_wide_characters(gs.last()[0]);
    }
}

/// The number of leading clusters of `gs` that fit in `budget` columns.
pub open spec fn fitting(gs: Seq<Seq<char>>, budget: nat) -> nat
    decreases gs.len(),
{
    if gs.len() == 0 || budget == 0 {
        0
    } else if cluster_width(gs[0]) <= budget {
        1 + fitting(gs.drop_first(), (budget - cluster_width(gs[0])) as nat)
    } else {
        0
    }
}

proof fn lemma_clusters_width_prefix(gs: Seq<Seq<char>>, k: int)
    requires
        0 <= k <= gs.len(),
    ensures
        clusters_width(gs.take(k)) <= clusters_width(gs),
    decreases gs.len() - k,
{
    if k < gs.len() {
        lemma_clusters_width_prefix(gs, k + 1);
        assert(gs.take(k + 1).drop_last() =~= gs.take(k));
    } else {
        assert(gs.take(k) =~= gs);
    }
}

proof fn lemma_fitting_bound(gs: Seq<Seq<char>>, budget: nat)
    ensures
        fitting(gs, budget) <= gs.len(),
    decreases gs.len(),
{
    if gs.len() > 0 && budget > 0 && cluster_width(gs[0]) <= budget {
        lemma_fitting_bound(gs.drop_first(), (budget - cluster_width(gs[0])) as nat);
    }
}

proof fn lemma_flatten_push(gs: Seq<Seq<char>>, g: Seq<char>)
    ensures
        flatten(gs.push(g)) == flatten(gs) + g,
{
    assert(gs.push(g).drop_last() =~= gs);
}

/// The configuration of a text wrapper.
pub struct WrapperView {
    pub max_width: usize,
    pub break_long_words: bool,
    pub word_separators: Seq<char>,
    pub truncation_marker: Seq<char>,
}

/// The state of wrapping: the finished lines, the line being filled, its width,
/// and the index of the next cluster.
pub struct WrapState {
    pub lines: Seq<Seq<char>>,
    pub line: Seq<char>,
    pub width: nat,
    pub next: nat,
}

/// Whether cluster `g` starts with a word separator.
pub open spec fn starts_with_separator(cfg: WrapperView, g: Seq<char>) -> bool {
    cfg.word_separators.contains(if g.len() > 0 {
        g[0]
    } else {
        ' '
    })
}

/// The end of the word that starts at cluster `i`: a separator is a word of its
/// own; otherwise the word runs to the next separator or the end.
pub open spec fn word_end(cfg: WrapperView, gs: Seq<Seq<char>>, i: int) -> int
    decreases gs.len() - i,
{
    if i >= gs.len() {
        gs.len() as int
    } else if starts_with_separator(cfg, gs[i]) {
        i + 1
    } else {
        word_run_end(cfg, gs, i + 1)
    }
}

/// The first index from `j` on whose cluster starts with a separator, or the end.
pub open spec fn word_run_end(cfg: WrapperView, gs: Seq<Seq<char>>, j: int) -> int
    decreases gs.len() - j,
{
    if j >= gs.len() {
        gs.len() as int
    } else if starts_with_separator(cfg, gs[j]) {
        j
    } else {
        word_run_end(cfg, gs, j + 1)
    }
}

/// The word that starts at cluster `i`.
pub open spec fn word_at(cfg: WrapperView, gs: Seq<Seq<char>>, i: int) -> Seq<char> {
    flatten(gs.subrange(i, word_end(cfg, gs, i)))
}

/// `word` broken after the clusters that fit in `available` columns.
pub open spec fn broken_word(word: Seq<char>, available: nat) -> (Seq<char>, Seq<char>) {
    let gs = grapheme_clusters(word);
    let k = fitting(gs, available) as int;
    (flatten(gs.take(k)), flatten(gs.skip(k)))
}

/// `text` cut to `width` columns with the truncation marker at the end, when it
/// does not fit.
pub open spec fn truncated(cfg: WrapperView, text: Seq<char>, width: nat) -> Seq<char> {
    if visual_width(text) <= width {
        text
    } else {
        let available = if width >= visual_width(cfg.truncation_marker) {
            (width - visual_width(cfg.truncation_marker)) as nat
        } else {
            0
        };
        let gs = grapheme_clusters(text);
        flatten(gs.take(fitting(gs, available) as int)) + cfg.truncation_marker
    }
}

/// Whether a step from `st` computes within the range of `usize`: the widths it
/// adds fit, and a long word is broken only on a line within the width.
pub open spec fn step_in_range(cfg: WrapperView, gs: Seq<Seq<char>>, st: WrapState) -> bool {
    let word = word_at(cfg, gs, st.next as int);
    let ww = visual_width(word);
    ww <= usize::MAX && st.width + ww <= usize::MAX && (st.width + ww <= cfg.max_width || !(ww
        > cfg.max_width && cfg.break_long_words) || (st.width <= cfg.max_width && visual_width(
        broken_word(word, (cfg.max_width - st.width) as nat).1,
    ) <= usize::MAX)) && visual_width(cfg.truncation_marker) <= usize::MAX
}

/// One step of wrapping: the next word goes on the line when it fits; a word
/// wider than the whole width is broken (when allowed) to fill the line, its rest
/// starting the next line; otherwise the line is finished and the word starts
/// the next one, or, when it is too wide and may not be broken, is truncated to a
/// line of its own.
pub open spec fn wrap_step(cfg: WrapperView, gs: Seq<Seq<char>>, st: WrapState) -> WrapState {
    let word = word_at(cfg, gs, st.next as int);
    let ww = visual_width(word);
    let next = st.next + grapheme_clusters(word).len();
    if st.width + ww <= cfg.max_width {
        WrapState { line: st.line + word, width: st.width + ww, next, ..st }
    } else if ww > cfg.max_width && cfg.break_long_words {
        let (first, rest) = broken_word(word, (cfg.max_width - st.width) as nat);
        WrapState { lines: st.lines.push(st.line + first), line: rest, width: visual_width(rest), next }
    } else {
        let (lines, line, width) = if st.line.len() > 0 {
            (st.lines.push(st.line), Seq::<char>::empty(), 0nat)
        } else {
            (st.lines, st.line, st.width)
        };
        if ww > cfg.max_width && !cfg.break_long_words {
            WrapState { lines: lines.push(truncated(cfg, word, cfg.max_width as nat)), line, width, next }
        } else {
            WrapState { lines, line: line + word, width: ww, next }
        }
    }
}

proof fn lemma_word_end_bounds(cfg: WrapperView, gs: Seq<Seq<char>>, i: int)
    requires
        0 <= i < gs.len(),
    ensures
        i < word_end(cfg, gs, i) <= gs.len(),
{
    if !starts_with_separator(cfg, gs[i]) {
        lemma_word_run_end_bounds(cfg, gs, i + 1);
    }
}

proof fn lemma_word_run_end_bounds(cfg: WrapperView, gs: Seq<Seq<char>>, j: int)
    requires
        0 <= j <= gs.len(),
    ensures
        j <= word_run_end(cfg, gs, j) <= gs.len(),
        forall|k: int| j <= k < word_run_end(cfg, gs, j) ==> !starts_with_separator(cfg, #[trigger] gs[k]),
        word_run_end(cfg, gs, j) < gs.len() ==> starts_with_separator(cfg, gs[word_run_end(cfg, gs, j)]),
    decreases gs.len() - j,
{
    if j < gs.len() && !starts_with_separator(cfg, gs[j]) {
        lemma_word_run_end_bounds(cfg, gs, j + 1);
    }
}

/// A step moves to the cluster after the word.
pub proof fn lemma_step_next(cfg: WrapperView, gs: Seq<Seq<char>>, st: WrapState)
    ensures
        wrap_step(cfg, gs, st).next == st.next + grapheme_clusters(word_at(cfg, gs, st.next as int)).len(),
{
}

/// The number of clusters still to wrap.
pub open spec fn remaining(gs: Seq<Seq<char>>, st: WrapState) -> nat {
    if st.next < gs.len() {
        (gs.len() - st.next) as nat
    } else {
        0
    }
}

/// Whether the clusters of `gs` are all non-empty.
pub open spec fn clusters_nonempty(gs: Seq<Seq<char>>) -> bool {
    forall|i: int| 0 <= i < gs.len() ==> (#[trigger] gs[i]).len() > 0
}

proof fn lemma_flatten_len(gs: Seq<Seq<char>>)
    requires
        clusters_nonempty(gs),
    ensures
        flatten(gs).len() >= gs.len(),
    decreases gs.len(),
{
    if gs.len() > 0 {
        lemma_flatten_len(gs.drop_last());
    }
}

/// Wrapping runs from `st` to the end without leaving the range of `usize`.
pub open spec fn wrap_in_range(cfg: WrapperView, gs: Seq<Seq<char>>, st: WrapState) -> bool
    decreases remaining(gs, st),
{
    if st.next >= gs.len() {
        true
    } else if grapheme_clusters(word_at(cfg, gs, st.next as int)).len() > 0 {
        proof {
            lemma_step_next(cfg, gs, st);
        }
        step_in_range(cfg, gs, st) && wrap_in_range(cfg, gs, wrap_step(cfg, gs, st))
    } else {
        true
    }
}

/// The state at the end of wrapping from `st`.
pub open spec fn wrap_run(cfg: WrapperView, gs: Seq<Seq<char>>, st: WrapState) -> WrapState
    decreases remaining(gs, st),
{
    if st.next >= gs.len() {
        st
    } else if grapheme_clusters(word_at(cfg, gs, st.next as int)).len() > 0 {
        proof {
            lemma_step_next(cfg, gs, st);
        }
        wrap_run(cfg, gs, wrap_step(cfg, gs, st))
    } else {
        st
    }
}

/// The lines `text` wraps into: one empty line for empty text; the text itself
/// when it fits; otherwise the lines of the run over its clusters, the last line
/// included when it is not empty.
pub open spec fn wrapped(cfg: WrapperView, text: Seq<char>) -> Seq<Seq<char>> {
    if text.len() == 0 {
        seq![Seq::empty()]
    } else if visual_width(text) <= cfg.max_width {
        seq![text]
    } else {
        let end = wrap_run(
            cfg,
            grapheme_clusters(text),
            WrapState { lines: Seq::empty(), line: Seq::empty(), width: 0, next: 0 },
        );
        if end.line.len() > 0 {
            end.lines.push(end.line)
        } else {
            end.lines
        }
    }
}

/// Whether wrapping `text` stays within the range of `usize` throughout.
pub open spec fn wrap_fits(cfg: WrapperView, text: Seq<char>) -> bool {
    text.len() == 0 || (visual_width(text) <= usize::MAX && (visual_width(text) <= cfg.max_width
        || wrap_in_range(
        cfg,
        grapheme_clusters(text),
        WrapState { lines: Seq::empty(), line: Seq::empty(), width: 0, next: 0 },
    )))
}

/// Wraps text at a width.
#[derive(Debug, Clone)]
pub struct TextWrapper {
    max_width: usize,
    break_long_words: bool,
    word_separators: Vec<char>,
    truncation_marker: String,
}

impl View for TextWrapper {
    type V = WrapperView;

    closed spec fn view(&self) -> WrapperView {
        WrapperView {
            max_width: self.max_width,
            break_long_words: self.break_long_words,
            word_separators: self.word_separators@,
            truncation_marker: self.truncation_marker@,
        }
    }
}

/// The word separators a new wrapper has.
pub open spec fn default_separators() -> Seq<char> {
    seq![' ', '\t', '-', '_', ',', ';', ':', '!', '?', '.']
}

impl TextWrapper {
    /// A wrapper at `max_width` columns that breaks long words, separates words at
    /// spaces, tabs and punctuation, and marks truncation with `…`.
    pub fn new(max_width: usize) -> (r: Self)
        ensures
            r@ == (WrapperView {
                max_width,
                break_long_words: true,
                word_separators: default_separators(),
                truncation_marker: "\u{2026}"@,
            }),
    {
        let seps = vec![' ', '\t', '-', '_', ',', ';', ':', '!', '?', '.'];
        let r = TextWrapper {
            max_width,
            break_long_words: true,
            word_separators: seps,
            truncation_marker: owned("\u{2026}"),
        };
        assert(r@.word_separators =~= default_separators());
        r
    }

    /// Set whether words wider than the width are broken.
    pub fn break_long_words(self, break_long_words: bool) -> (r: Self)
        ensures
            r@ == (WrapperView { break_long_words, ..self@ }),
    {
        TextWrapper { break_long_words, ..self }
    }

    /// Set the word separators.
    pub fn word_separators(self, separators: Vec<char>) -> (r: Self)
        ensures
            r@ == (WrapperView { word_separators: separators@, ..self@ }),
    {
        TextWrapper { word_separators: separators, ..self }
    }

    /// Set the truncation marker.
    pub fn truncation_marker(self, marker: &str) -> (r: Self)
        ensures
            r@ == (WrapperView { truncation_marker: marker@, ..self@ }),
    {
        TextWrapper { truncation_marker: owned(marker), ..self }
    }

    fn is_separator(&self, c: char) -> (r: bool)
        ensures
            r == self@.word_separators.contains(c),
    {
        let mut i: usize = 0;
        while i < self.word_separators.len()
            invariant
                i <= self.word_separators@.len(),
                forall|j: int| 0 <= j < i ==> self.word_separators@[j] != c,
            decreases self.word_separators@.len() - i,
        {
            if self.word_separators[i] == c {
                assert(self.word_separators@[i as int] == c);
                return true;
            }
            i = i + 1;
        }
        false
    }

    fn first_is_separator(&self, g: &String) -> (r: bool)
        ensures
            r == starts_with_separator(self@, g@),
    {
        let chars = chars_of(g.as_str());
        let c = if chars.len() > 0 {
            chars[0]
        } else {
            ' '
        };
        self.is_separator(c)
    }

    fn clusters_width_of(gs: &Vec<String>) -> (r: Option<usize>)
        ensures
            match r {
                Some(w) => w == clusters_width(strings(gs@)),
                None => clusters_width(strings(gs@)) > usize::MAX,
            },
    {
        let mut w: usize = 0;
        let mut i: usize = 0;
        while i < gs.len()
            invariant
                i <= gs@.len(),
                w == clusters_width(strings(gs@).take(i as int)),
            decreases gs@.len() - i,
        {
            proof {
                let all = strings(gs@);
                assert(all.take(i as int + 1).drop_last() =~= all.take(i as int));
                assert(all.take(i as int + 1).last() == gs@[i as int]@);
                lemma_clusters_width_prefix(all, i as int + 1);
            }
            let chars = chars_of(gs[i].as_str());
            let cw: usize = if chars.len() > 0 && is_wide_char(chars[0]) {
                2
            } else {
                1
            };
            match w.checked_add(cw) {
                Some(v) => {
                    w = v;
                },
                None => {
                    return None;
                },
            }
            i = i + 1;
        }
        assert(strings(gs@).take(gs@.len() as int) =~= strings(gs@));
        Some(w)
    }

    /// The columns `text` takes; `None` when they do not fit in a `usize`.
    pub fn visual_width_checked(&self, text: &str) -> (r: Option<usize>)
        ensures
            match r {
                Some(w) => w == visual_width(text@),
                None => visual_width(text@) > usize::MAX,
            },
    {
        let gs = graphemes_of(text);
        Self::clusters_width_of(&gs)
    }

    /// The columns `text` takes.
    pub fn visual_width(&self, text: &str) -> (r: usize)
        requires
            visual_width(text@) <= usize::MAX,
        ensures
            r == visual_width(text@),
    {
        match self.visual_width_checked(text) {
            Some(w) => w,
            None => {
                assert(false);
                0
            },
        }
    }
}

impl TextWrapper {
    /// The word that starts at cluster `i`, and its width.
    fn next_word(&self, gs: &Vec<String>, i: usize) -> (r: (String, Option<usize>))
        requires
            i < gs@.len(),
        ensures
            r.0@ == word_at(self@, strings(gs@), i as int),
            match r.1 {
                Some(w) => w == visual_width(r.0@),
                None => visual_width(r.0@) > usize::MAX,
            },
    {
        let ghost all = strings(gs@);
        let ghost cfg = self@;
        let n = gs.len();
        let mut end = i + 1;
        if !self.first_is_separator(&gs[i]) {
            while end < gs.len() && !self.first_is_separator(&gs[end])
                invariant
                    i < end <= gs@.len(),
                    all == strings(gs@),
                    cfg == self@,
                    word_run_end(cfg, all, i as int + 1) == word_run_end(cfg, all, end as int),
                decreases gs@.len() - end,
            {
                end = end + 1;
            }
            proof {
                if end < gs.len() {
                    assert(all[end as int] == gs@[end as int]@);
                }
            }
        } else {
            assert(all[i as int] == gs@[i as int]@);
        }
        assert(word_end(cfg, all, i as int) == end);
        let mut word = String::new();
        let mut k = i;
        assert(all.subrange(i as int, i as int) =~= Seq::<Seq<char>>::empty());
        while k < end
            invariant
                i <= k <= end,
                end <= gs@.len(),
                all == strings(gs@),
                word@ == flatten(all.subrange(i as int, k as int)),
            decreases end - k,
        {
            push_str(&mut word, gs[k].as_str());
            proof {
                assert(all.subrange(i as int, k + 1) =~= all.subrange(i as int, k as int).push(all[k as int]));
                lemma_flatten_push(all.subrange(i as int, k as int), all[k as int]);
            }
            k = k + 1;
        }
        let w = self.visual_width_checked(word.as_str());
        (word, w)
    }

    /// Breaks `word` after the clusters that fit in `available` columns.
    fn break_word(&self, word: &str, available: usize) -> (r: (String, String))
        ensures
            (r.0@, r.1@) == broken_word(word@, available as nat),
    {
        let gs = graphemes_of(word);
        let ghost all = strings(gs@);
        let mut first = String::new();
        let mut used: usize = 0;
        let mut i: usize = 0;
        assert(all.skip(0) =~= all);
        assert(all.take(0) =~= Seq::<Seq<char>>::empty());
        let mut stop = false;
        while i < gs.len() && used < available && !stop
            invariant
                i <= gs@.len(),
                used <= available,
                all == strings(gs@),
                first@ == flatten(all.take(i as int)),
                fitting(all, available as nat) == i + fitting(all.skip(i as int), (available - used) as nat),
                stop ==> i < all.len() && cluster_width(all[i as int]) > available - used,
            decreases gs@.len() - i, if stop { 0int } else { 1int },
        {
            let chars = chars_of(gs[i].as_str());
            let gw: usize = if chars.len() > 0 && is_wide_char(chars[0]) {
                2
            } else {
                1
            };
            proof {
                let t = all.skip(i as int);
                assert(t[0] == all[i as int]);
                assert(all[i as int] == gs@[i as int]@);
                assert(chars@ == all[i as int]);
                assert(gw == cluster_width(all[i as int]));
                assert(t.drop_first() =~= all.skip(i as int + 1));
            }
            if gw <= available - used {
                push_str(&mut first, gs[i].as_str());
                proof {
                    assert(all.take(i as int + 1) =~= all.take(i as int).push(all[i as int]));
                    lemma_flatten_push(all.take(i as int), all[i as int]);
                }
                used = used + gw;
                i = i + 1;
            } else {
                stop = true;
            }
        }
        proof {
            let t = all.skip(i as int);
            if i >= gs.len() {
                assert(t.len() == 0);
            } else if used >= available {
                assert(available - used == 0);
            } else {
                assert(t[0] == all[i as int]);
            }
            assert(fitting(t, (available - used) as nat) == 0);
        }
        let mut rest = String::new();
        let mut k = i;
        assert(all.subrange(i as int, i as int) =~= Seq::<Seq<char>>::empty());
        while k < gs.len()
            invariant
                i <= k <= gs@.len(),
                all == strings(gs@),
                rest@ == flatten(all.subrange(i as int, k as int)),
            decreases gs@.len() - k,
        {
            push_str(&mut rest, gs[k].as_str());
            proof {
                assert(all.subrange(i as int, k + 1) =~= all.subrange(i as int, k as int).push(all[k as int]));
                lemma_flatten_push(all.subrange(i as int, k as int), all[k as int]);
            }
            k = k + 1;
        }
        assert(all.subrange(i as int, all.len() as int) =~= all.skip(i as int));
        (first, rest)
    }

    /// `text` cut to `width` columns, ending in the truncation marker, when it
    /// does not fit.
    fn truncate_text(&self, text: &str, width: usize) -> (r: String)
        requires
            visual_width(text@) <= usize::MAX,
            visual_width(self@.truncation_marker) <= usize::MAX,
        ensures
            r@ == truncated(self@, text@, width as nat),
    {
        if self.visual_width(text) <= width {
            return owned(text);
        }
        let marker_width = self.visual_width(self.truncation_marker.as_str());
        let available = width.saturating_sub(marker_width);
        let gs = graphemes_of(text);
        let ghost all = strings(gs@);
        let mut result = String::new();
        let mut used: usize = 0;
        let mut i: usize = 0;
        assert(all.skip(0) =~= all);
        assert(all.take(0) =~= Seq::<Seq<char>>::empty());
        let mut stop = false;
        while i < gs.len() && !stop
            invariant
                i <= gs@.len(),
                used <= available,
                all == strings(gs@),
                result@ == flatten(all.take(i as int)),
                fitting(all, available as nat) == i + fitting(all.skip(i as int), (available - used) as nat),
                stop ==> i < all.len() && cluster_width(all[i as int]) > available - used,
            decreases gs@.len() - i, if stop { 0int } else { 1int },
        {
            let chars = chars_of(gs[i].as_str());
            let gw: usize = if chars.len() > 0 && is_wide_char(chars[0]) {
                2
            } else {
                1
            };
            proof {
                let t = all.skip(i as int);
                assert(t[0] == all[i as int]);
                assert(all[i as int] == gs@[i as int]@);
                assert(chars@ == all[i as int]);
                assert(gw == cluster_width(all[i as int]));
                assert(t.drop_first() =~= all.skip(i as int + 1));
            }
            if gw <= available - used {
                push_str(&mut result, gs[i].as_str());
                proof {
                    assert(all.take(i as int + 1) =~= all.take(i as int).push(all[i as int]));
                    lemma_flatten_push(all.take(i as int), all[i as int]);
                }
                used = used + gw;
                i = i + 1;
            } else {
                stop = true;
            }
        }
        proof {
            let t = all.skip(i as int);
            if i >= gs.len() {
                assert(t.len() == 0);
            } else {
                assert(t[0] == all[i as int]);
            }
            assert(fitting(t, (available - used) as nat) == 0);
        }
        push_str(&mut result, self.truncation_marker.as_str());
        result
    }

    /// Wraps `text` into lines of at most the width, as `wrapped` says.
    pub fn wrap(&self, text: &str) -> (r: Vec<String>)
        requires
            wrap_fits(self@, text@),
        ensures
            strings(r@) == wrapped(self@, text@),
    {
        match self.try_wrap(text) {
            Some(lines) => lines,
            None => {
                assert(false);
                Vec::new()
            },
        }
    }

    /// Wraps `text` as `wrap` does; `None` when a width on the way does not fit in
    /// a `usize` or a long word would be broken on a line already past the width.
    pub fn try_wrap(&self, text: &str) -> (r: Option<Vec<String>>)
        ensures
            r is None <==> !wrap_fits(self@, text@),
            r matches Some(v) ==> strings(v@) == wrapped(self@, text@),
    {
        if text.unicode_len() == 0 {
            let r = vec![String::new()];
            assert(strings(r@) =~= seq![Seq::<char>::empty()]);
            return Some(r);
        }
        let text_width = match self.visual_width_checked(text) {
            Some(w) => w,
            None => {
                return None;
            },
        };
        if text_width <= self.max_width {
            let r = vec![owned(text)];
            assert(strings(r@) =~= seq![text@]);
            return Some(r);
        }
        let marker_ok = self.visual_width_checked(self.truncation_marker.as_str()).is_some();
        let gs = graphemes_of(text);
        let ghost all = strings(gs@);
        let ghost cfg = self@;
        let ghost init = WrapState { lines: Seq::empty(), line: Seq::empty(), width: 0, next: 0 };
        let ghost fin = wrap_run(cfg, all, init);
        let n = gs.len();
        let mut result: Vec<String> = Vec::new();
        let mut line = String::new();
        let mut width: usize = 0;
        let mut i: usize = 0;
        assert(strings(result@) =~= Seq::<Seq<char>>::empty());
        assert(line@ =~= Seq::<char>::empty());
        while i < n
            invariant
                i <= n,
                n == gs@.len(),
                all == strings(gs@),
                cfg == self@,
                all == grapheme_clusters(text@),
                clusters_nonempty(all),
                marker_ok == (visual_width(cfg.truncation_marker) <= usize::MAX),
                text@.len() > 0,
                cfg.max_width < visual_width(text@) <= usize::MAX,
                init == (WrapState { lines: Seq::empty(), line: Seq::empty(), width: 0, next: 0 }),
                fin == wrap_run(cfg, all, init),
                wrap_run(cfg, all, WrapState { lines: strings(result@), line: line@, width: width as nat, next: i as nat }).lines
                    == fin.lines,
                wrap_run(cfg, all, WrapState { lines: strings(result@), line: line@, width: width as nat, next: i as nat }).line
                    == fin.line,
                wrap_in_range(cfg, all, init) == wrap_in_range(
                    cfg,
                    all,
                    WrapState { lines: strings(result@), line: line@, width: width as nat, next: i as nat },
                ),
            decreases n - i,
        {
            let ghost cur = WrapState { lines: strings(result@), line: line@, width: width as nat, next: i as nat };
            proof {
                lemma_word_end_bounds(cfg, all, i as int);
                let sub = all.subrange(i as int, word_end(cfg, all, i as int));
                assert(clusters_nonempty(sub));
                lemma_flatten_len(sub);
            }
            let (word, word_width) = self.next_word(&gs, i);
            let word_clusters = graphemes_of(word.as_str());
            let adv = word_clusters.len();
            proof {
                assert(word@.len() > 0);
                assert(adv > 0);
                lemma_step_next(cfg, all, cur);
            }
            let ghost step = wrap_step(cfg, all, cur);
            let ww = match word_width {
                Some(w) => w,
                None => {
                    proof {
                        assert(!step_in_range(cfg, all, cur));
                        assert(!wrap_in_range(cfg, all, cur));
                        assert(!wrap_in_range(cfg, all, init));
                        assert(text@.len() > 0 && visual_width(text@) > cfg.max_width);
                    }
                    return None;
                },
            };
            if !marker_ok {
                proof {
                    assert(!step_in_range(cfg, all, cur));
                    assert(!wrap_in_range(cfg, all, cur));
                    assert(!wrap_in_range(cfg, all, init));
                    assert(text@.len() > 0 && visual_width(text@) > cfg.max_width);
                }
                return None;
            }
            let sum = match width.checked_add(ww) {
                Some(v) => v,
                None => {
                    proof {
                        assert(!step_in_range(cfg, all, cur));
                        assert(!wrap_in_range(cfg, all, cur));
                        assert(!wrap_in_range(cfg, all, init));
                        assert(text@.len() > 0 && visual_width(text@) > cfg.max_width);
                    }
                    return None;
                },
            };
            let ghost lines_before = strings(result@);
            if sum <= self.max_width {
                push_str(&mut line, word.as_str());
                width = sum;
            } else if ww > self.max_width && self.break_long_words {
                if width > self.max_width {
                    proof {
                        assert(!step_in_range(cfg, all, cur));
                        assert(!wrap_in_range(cfg, all, cur));
                        assert(!wrap_in_range(cfg, all, init));
                        assert(text@.len() > 0 && visual_width(text@) > cfg.max_width);
                    }
                    return None;
                }
                let (first, rest) = self.break_word(word.as_str(), self.max_width - width);
                let rest_width = match self.visual_width_checked(rest.as_str()) {
                    Some(w) => w,
                    None => {
                        proof {
                        assert(!step_in_range(cfg, all, cur));
                        assert(!wrap_in_range(cfg, all, cur));
                        assert(!wrap_in_range(cfg, all, init));
                        assert(text@.len() > 0 && visual_width(text@) > cfg.max_width);
                    }
                    return None;
                    },
                };
                push_str(&mut line, first.as_str());
                result.push(line);
                assert(strings(result@) =~= lines_before.push(step.lines.last()));
                line = rest;
                width = rest_width;
            } else {
                if line.unicode_len() > 0 {
                    result.push(line);
                    assert(strings(result@) =~= lines_before.push(cur.line));
                    line = String::new();
                    width = 0;
                }
                let ghost lines_mid = strings(result@);
                if ww > self.max_width && !self.break_long_words {
                    let t = self.truncate_text(word.as_str(), self.max_width);
                    result.push(t);
                    assert(strings(result@) =~= lines_mid.push(t@));
                } else {
                    push_str(&mut line, word.as_str());
                    width = ww;
                }
            }
            assert(strings(result@) =~= step.lines);
            assert(line@ =~= step.line);
            assert(width as nat == step.width);
            if adv >= n - i {
                i = n;
            } else {
                i = i + adv;
            }
            proof {
                let newst = WrapState { lines: strings(result@), line: line@, width: width as nat, next: i as nat };
                assert(wrap_run(cfg, all, cur) == wrap_run(cfg, all, step));
                assert(wrap_in_range(cfg, all, cur) == wrap_in_range(cfg, all, step));
                if step.next < n {
                    assert(newst == step);
                } else {
                    assert(wrap_run(cfg, all, newst) == newst);
                    assert(wrap_run(cfg, all, step) == step);
                }
            }
        }
        if line.unicode_len() > 0 {
            let ghost before = strings(result@);
            result.push(line);
            assert(strings(result@) =~= before.push(line@));
        }
        Some(result)
    }
}

} // verus!
