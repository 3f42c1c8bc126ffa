//! Properties that hold across the operations of the library.
use vstd::prelude::*;
use crate::bars::{digits_value, is_digit, parsed_usize, unsigned_digits};
use crate::cursor::shift;
use crate::job::{
    add_unique, failed_state, has_failed_state, no_duplicates, remove_first, retried_state,
    succeeded_state, JobState, JobStatus,
};
use crate::strs::{decimal, digit_char, first_index_of, folded, lemma_first_index_of, lemma_folded_plain, split_seq, trim_end_seq, trim_seq, trim_start_seq};
use crate::bars::{bar_request_of, format_named, numeric_text_of, FormatKind, IndicatorKind};
use crate::indicators::{custom_named, CustomIndicatorType, IndicatorView};
use crate::progress_bar::{bar_tag, style_indicator, style_tag, BarConfigView, ProgressBarStyle};
use crate::template::tag_parts;
use crate::duration::{digits_u64, duration_seconds, scan_all, scan_step, DurationScan};
use crate::window_base::{
    cut_point, fit_count, fits_width, keep_last, lemma_cut_point, lemma_fit_count_bound,
    lemma_trim_start_len, line_pieces, lines_of_pieces, utf8_len, window_after_message, wrap_pieces,
    WindowState, WRAP_WIDTH,
};

verus! {

/// Adding an id that is not in a list of job ids and then removing it gives the
/// list back (child jobs and dependencies alike).
pub proof fn law_add_then_remove(s: Seq<usize>, x: usize)
    requires
        !s.contains(x),
    ensures
        remove_first(add_unique(s, x), x) == s,
    decreases s.len(),
{
    if s.len() > 0 {
        let t = s.drop_first();
        assert(!t.contains(x)) by {
            if t.contains(x) {
                let k = choose|k: int| 0 <= k < t.len() && t[k] == x;
                assert(s[k + 1] == x);
            }
        }
        law_add_then_remove(t, x);
        assert(s.push(x).drop_first() =~= t.push(x));
        assert(s[0] != x);
        assert(seq![s[0]] + t =~= s);
    } else {
        assert(s.push(x).drop_first() =~= s);
    }
}

/// Adding an id twice is adding it once.
pub proof fn law_add_idempotent(s: Seq<usize>, x: usize)
    ensures
        add_unique(add_unique(s, x), x) == add_unique(s, x),
{
    if !s.contains(x) {
        assert(s.push(x)[s.len() as int] == x);
    }
}

proof fn lemma_remove_first_subset(s: Seq<usize>, x: usize, y: usize)
    requires
        remove_first(s, x).contains(y),
    ensures
        s.contains(y),
    decreases s.len(),
{
    if s.len() > 0 && s[0] != x {
        let r = remove_first(s, x);
        let k = choose|k: int| 0 <= k < r.len() && r[k] == y;
        if k == 0 {
            assert(s[0] == y);
        } else {
            assert(remove_first(s.drop_first(), x)[k - 1] == y);
            lemma_remove_first_subset(s.drop_first(), x, y);
            let j = choose|j: int| 0 <= j < s.drop_first().len() && s.drop_first()[j] == y;
            assert(s[j + 1] == y);
        }
    } else if s.len() > 0 {
        let k = choose|k: int| 0 <= k < s.drop_first().len() && s.drop_first()[k] == y;
        assert(s[k + 1] == y);
    }
}

/// Lists of job ids never hold an id twice: adding and removing keep them free of
/// duplicates.
pub proof fn law_ids_stay_distinct(s: Seq<usize>, x: usize)
    requires
        no_duplicates(s),
    ensures
        no_duplicates(add_unique(s, x)),
        no_duplicates(remove_first(s, x)),
    decreases s.len(),
{
    if !s.contains(x) {
        let t = s.push(x);
        assert forall|i: int, j: int| 0 <= i < t.len() && 0 <= j < t.len() && i != j implies t[i] != t[j] by {
            if i == s.len() {
                assert(s[j] != x);
            } else if j == s.len() {
                assert(s[i] != x);
            }
        }
    }
    if s.len() > 0 {
        let t = s.drop_first();
        assert(no_duplicates(t)) by {
            assert forall|i: int, j: int| 0 <= i < t.len() && 0 <= j < t.len() && i != j implies t[i] != t[j] by {
                assert(s[i + 1] != s[j + 1]);
            }
        }
        law_ids_stay_distinct(t, x);
        if s[0] != x {
            let r = remove_first(t, x);
            let u = seq![s[0]] + r;
            assert(!r.contains(s[0])) by {
                if r.contains(s[0]) {
                    lemma_remove_first_subset(t, x, s[0]);
                    let k = choose|k: int| 0 <= k < t.len() && t[k] == s[0];
                    assert(s[k + 1] == s[0]);
                }
            }
            assert forall|i: int, j: int| 0 <= i < u.len() && 0 <= j < u.len() && i != j implies u[i] != u[j] by {
                if i == 0 {
                    assert(r[j - 1] != s[0]);
                } else if j == 0 {
                    assert(r[i - 1] != s[0]);
                } else {
                    assert(r[i - 1] != r[j - 1]);
                }
            }
        }
    }
}

/// A window never holds more lines than its size: whatever message arrives, a
/// window within its size stays within it.
pub proof fn law_window_within_size(w: WindowState, message: Seq<char>)
    requires
        w.lines.len() <= w.max_lines,
    ensures
        window_after_message(w, message).lines.len() <= window_after_message(w, message).max_lines,
{
}

proof fn lemma_fit_count_take(s: Seq<char>, budget: nat, k: int)
    requires
        0 <= k <= fit_count(s, budget),
    ensures
        fit_count(s.take(k), budget) == k,
    decreases s.len(),
{
    lemma_fit_count_bound(s, budget);
    if k > 0 {
        let t = s.take(k);
        assert(t[0] == s[0]);
        assert(t.drop_first() =~= s.drop_first().take(k - 1));
        lemma_fit_count_take(s.drop_first(), (budget - utf8_len(s[0])) as nat, k - 1);
    }
}

/// Every piece of a wrapped line is non-empty and fits the wrap width.
pub proof fn law_wrapped_pieces_fit(s: Seq<char>)
    ensures
        forall|i: int| 0 <= i < wrap_pieces(s).len() ==> (#[trigger] wrap_pieces(s)[i]).len() > 0 && fits_width(
            wrap_pieces(s)[i],
        ),
    decreases s.len(),
{
    if s.len() > 0 && !fits_width(s) {
        let a = cut_point(s);
        lemma_cut_point(s);
        lemma_trim_start_len(s.skip(a));
        let rest = crate::strs::trim_start_seq(s.skip(a));
        law_wrapped_pieces_fit(rest);
        lemma_fit_count_take(s, WRAP_WIDTH as nat, a);
        let p = wrap_pieces(s);
        assert(p == seq![s.take(a)] + wrap_pieces(rest));
        assert forall|i: int| 0 <= i < p.len() implies (#[trigger] p[i]).len() > 0 && fits_width(p[i]) by {
            if i > 0 {
                assert(p[i] == wrap_pieces(rest)[i - 1]);
            }
        }
    }
}

/// Moving right and then left by the same amount comes back, unless the first
/// move stopped at the edge.
pub proof fn law_move_back(v: u16, d: int)
    requires
        0 <= v + d <= u16::MAX,
    ensures
        shift(shift(v, d), -d) == v,
{
}

proof fn lemma_digit_value(d: nat)
    requires
        d < 10,
    ensures
        (digit_char(d) as u32) - ('0' as u32) == d,
        is_digit(digit_char(d)),
{
}

proof fn lemma_decimal_digits(n: nat)
    ensures
        decimal(n).len() > 0,
        forall|i: int| 0 <= i < decimal(n).len() ==> is_digit(#[trigger] decimal(n)[i]),
        digits_value(decimal(n)) == n,
        decimal(n)[0] != '+',
    decreases n,
{
    lemma_digit_value(n % 10);
    if n < 10 {
        let d = decimal(n);
        assert(d.drop_last() =~= Seq::<char>::empty());
        assert(d.last() == digit_char(n));
        assert(digits_value(d) == digits_value(d.drop_last()) * 10 + ((d.last() as u32) - ('0' as u32)) as nat);
    } else {
        lemma_decimal_digits(n / 10);
        let d = decimal(n);
        assert(d.drop_last() =~= decimal(n / 10));
        assert(d.last() == digit_char(n % 10));
        assert(forall|i: int| 0 <= i < d.len() - 1 ==> d[i] == decimal(n / 10)[i]);
        assert(digits_value(d) == digits_value(d.drop_last()) * 10 + ((d.last() as u32) - ('0' as u32)) as nat);
        assert((n / 10) * 10 + n % 10 == n) by (nonlinear_arith);
    }
}

/// Reading back a number written in decimal gives the number.
pub proof fn law_parse_decimal(n: usize)
    ensures
        parsed_usize(decimal(n as nat)) == Some(n),
{
    lemma_decimal_digits(n as nat);
    assert(unsigned_digits(decimal(n as nat)) == decimal(n as nat));
}

/// A failure is reported: after it the job has failed, with the error it gave.
pub proof fn law_failure_is_reported(s: JobState, error: Seq<char>)
    requires
        s.failure_count < usize::MAX,
    ensures
        has_failed_state(failed_state(s, error)),
        failed_state(s, error).error_message == Some(error),
        failed_state(s, error).status == JobStatus::Failed,
{
}

/// A retry clears the error: a job that is retried no longer counts as failed.
pub proof fn law_retry_clears_failure(s: JobState)
    requires
        s.retry_count < usize::MAX,
    ensures
        !has_failed_state(retried_state(s)),
        retried_state(s).status == JobStatus::Retry,
        retried_state(s).failure_count == s.failure_count,
{
}

/// Success clears the whole failure record, whatever came before.
pub proof fn law_success_clears_record(s: JobState)
    ensures
        !has_failed_state(succeeded_state(s)),
        succeeded_state(s).failure_count == 0,
        succeeded_state(s).retry_count == 0,
        succeeded_state(succeeded_state(s)) == succeeded_state(s),
{
}

proof fn lemma_split_no_sep(a: Seq<char>, sep: char)
    requires
        !a.contains(sep),
    ensures
        split_seq(a, sep) == seq![a],
    decreases a.len(),
{
    if a.len() > 0 {
        assert(!a.drop_last().contains(sep)) by {
            if a.drop_last().contains(sep) {
                let k = choose|k: int| 0 <= k < a.drop_last().len() && a.drop_last()[k] == sep;
                assert(a[k] == sep);
            }
        }
        lemma_split_no_sep(a.drop_last(), sep);
        assert(a[a.len() - 1] != sep);
        assert(a.drop_last().push(a.last()) =~= a);
    } else {
        assert(a =~= Seq::<char>::empty());
    }
}

proof fn lemma_split_append(a: Seq<char>, b: Seq<char>, sep: char)
    requires
        !b.contains(sep),
    ensures
        split_seq(a + seq![sep] + b, sep) == split_seq(a, sep).push(b),
    decreases b.len(),
{
    let x = a + seq![sep] + b;
    if b.len() == 0 {
        assert(x.drop_last() =~= a);
        assert(b =~= Seq::<char>::empty());
    } else {
        assert(!b.drop_last().contains(sep)) by {
            if b.drop_last().contains(sep) {
                let k = choose|k: int| 0 <= k < b.drop_last().len() && b.drop_last()[k] == sep;
                assert(b[k] == sep);
            }
        }
        lemma_split_append(a, b.drop_last(), sep);
        assert(x.drop_last() =~= a + seq![sep] + b.drop_last());
        assert(x.last() == b.last());
        assert(b[b.len() - 1] != sep);
        assert(b.drop_last().push(b.last()) =~= b);
    }
}

/// The indicator kind a `bar` format has to ask for to draw the indicator `v`.
pub open spec fn requested_kind(v: IndicatorView) -> Option<IndicatorKind> {
    match v {
        IndicatorView::Bar => Some(IndicatorKind::Bar),
        IndicatorView::Block => Some(IndicatorKind::Block),
        IndicatorView::Spinner => Some(IndicatorKind::Spinner),
        IndicatorView::Numeric => Some(IndicatorKind::Numeric),
        IndicatorView::Interactive => Some(IndicatorKind::Interactive),
        IndicatorView::Custom(n) => match custom_named(n) {
            Some(CustomIndicatorType::Dots) => Some(IndicatorKind::Dots),
            Some(CustomIndicatorType::Braille) => Some(IndicatorKind::Braille),
            Some(CustomIndicatorType::Gradient) => Some(IndicatorKind::Gradient),
            None => None,
        },
    }
}

proof fn lemma_style_parts(style: ProgressBarStyle, d: Seq<char>)
    requires
        !d.contains(':'),
        parsed_usize(d) is Some,
    ensures
        ({
            let parts = split_seq("bar"@ + seq![':'] + style_tag(style) + seq![':'] + d, ':');
            &&& parts.len() > 0
            &&& format_named(parts[0]) == FormatKind::Bar
            &&& match bar_request_of(parts.drop_first()) {
                Ok(q) => Some(q.kind) == requested_kind(style_indicator(style)) && q.width == parsed_usize(d).unwrap(),
                Err(_) => false,
            }
        }),
{
    reveal_strlit("bar");
    reveal_strlit("block");
    reveal_strlit("custom");
    reveal_strlit("braille");
    reveal_strlit("dots");
    reveal_strlit("gradient");
    reveal_strlit("custom:braille");
    reveal_strlit("custom:dots");
    reveal_strlit("custom:gradient");
    let st = style_tag(style);
    let bar_name = "bar"@;
    lemma_no_sep(bar_name, ':');
    lemma_split_no_sep(bar_name, ':');
    lemma_split_append(bar_name + seq![':'] + st, d, ':');
    let parts = split_seq(bar_name + seq![':'] + st + seq![':'] + d, ':');
    match style {
        ProgressBarStyle::Standard | ProgressBarStyle::Block => {
            lemma_no_sep(st, ':');
            lemma_split_append(bar_name, st, ':');
            assert(parts =~= seq![bar_name, st, d]);
            let opts = seq![d];
            assert(parts.drop_first() =~= seq![st, d]);
            assert(seq![st, d].drop_first() =~= opts);
            assert(opts.drop_last() =~= Seq::<Seq<char>>::empty());
            assert(opts.last() == d);
            assert(crate::bars::bar_options(Seq::<Seq<char>>::empty()) == (Seq::<Seq<char>>::empty(), 10usize, false));
            assert(crate::bars::bar_options(opts) == (Seq::<Seq<char>>::empty(), parsed_usize(d).unwrap(), false));
            assert("block"@ != "bar"@) by {
                assert("block"@.len() != "bar"@.len());
            }
            assert(seq![st, d][0] == st);
            let x = parsed_usize(d).unwrap();
            if style == ProgressBarStyle::Standard {
                assert(st == "bar"@);
                assert(bar_request_of(seq![st, d]) == Ok::<crate::bars::BarRequestView, Seq<char>>(
                    crate::bars::BarRequestView { kind: IndicatorKind::Bar, params: Seq::empty(), width: x, smooth: false },
                ));
            } else {
                assert(st == "block"@);
                assert(bar_request_of(seq![st, d]) == Ok::<crate::bars::BarRequestView, Seq<char>>(
                    crate::bars::BarRequestView { kind: IndicatorKind::Block, params: Seq::empty(), width: x, smooth: false },
                ));
            }
        },
        _ => {
            let cu = "custom"@;
            let kind_name = if style == ProgressBarStyle::Braille {
                "braille"@
            } else if style == ProgressBarStyle::Dots {
                "dots"@
            } else {
                "gradient"@
            };
            assert(st =~= cu + seq![':'] + kind_name);
            lemma_no_sep(cu, ':');
            lemma_no_sep(kind_name, ':');
            lemma_split_append(bar_name, cu, ':');
            assert(bar_name + seq![':'] + st =~= (bar_name + seq![':'] + cu) + seq![':'] + kind_name);
            lemma_split_append(bar_name + seq![':'] + cu, kind_name, ':');
            assert(parts =~= seq![bar_name, cu, kind_name, d]);
            let opts = seq![kind_name, d];
            assert(parts.drop_first().drop_first() =~= opts);
            assert(opts.drop_last() =~= seq![kind_name]);
            assert(seq![kind_name].drop_last() =~= Seq::<Seq<char>>::empty());
            assert(unsigned_digits(kind_name) == kind_name);
            assert(!is_digit(kind_name[0]));
            reveal_strlit("smooth");
            assert(kind_name != "smooth"@) by {
                assert(kind_name[0] != "smooth"@[0]);
            }
            lemma_folded_plain(kind_name);
            assert(Seq::<Seq<char>>::empty().push(kind_name)[0] == kind_name);
            reveal_strlit("spinner");
            reveal_strlit("numeric");
            reveal_strlit("interactive");
            assert(cu != "bar"@ && cu != "block"@ && cu != "spinner"@ && cu != "numeric"@ && cu != "interactive"@) by {
                assert(cu[0] != "bar"@[0] && cu[0] != "block"@[0] && cu[0] != "spinner"@[0] && cu[0] != "numeric"@[0]
                    && cu[0] != "interactive"@[0]);
            }
            let x = parsed_usize(d).unwrap();
            assert(crate::bars::bar_options(Seq::<Seq<char>>::empty()) == (Seq::<Seq<char>>::empty(), 10usize, false));
            assert(crate::bars::bar_options(seq![kind_name]) == (seq![kind_name], 10usize, false));
            assert(crate::bars::bar_options(opts) == (seq![kind_name], x, false));
            assert(parts.drop_first()[0] == cu);
            assert(parts.drop_first().drop_first() == opts);
        },
    }
}

/// The parts of the tag `progress:bar:<st>:<d>`.
proof fn lemma_tag_inner(c: BarConfigView)
    requires
        c.fill_char is None || c.empty_char is None,
    ensures
        bar_tag(c).len() >= 2,
        bar_tag(c)[0] == '{',
        bar_tag(c).last() == '}',
        bar_tag(c).subrange(1, bar_tag(c).len() - 1) == "progress:bar:"@ + style_tag(c.style) + ":"@ + decimal(
            c.width as nat,
        ),
{
    reveal_strlit("{progress:bar:");
    reveal_strlit("progress:bar:");
    reveal_strlit("}");
    let t = bar_tag(c);
    let inner = "progress:bar:"@ + style_tag(c.style) + ":"@ + decimal(c.width as nat);
    assert(t =~= seq!['{'] + inner + seq!['}']);
    assert(t.subrange(1, t.len() - 1) =~= inner);
}

proof fn lemma_no_sep(a: Seq<char>, sep: char)
    requires
        forall|i: int| 0 <= i < a.len() ==> #[trigger] a[i] != sep,
    ensures
        !a.contains(sep),
{
}

#[verifier::rlimit(40)]
proof fn lemma_tag_formats(st: Seq<char>, d: Seq<char>)
    requires
        d.len() > 0,
        !d.contains(':'),
        is_digit(d.last()),
        forall|i: int| 0 <= i < st.len() ==> !crate::strs::is_ws(#[trigger] st[i]),
    ensures
        tag_parts("progress:bar:"@ + st + ":"@ + d) == ("progress"@, Some(split_seq("bar"@ + seq![':'] + st + seq![':'] + d, ':'))),
{
    reveal_strlit("progress:bar:");
    reveal_strlit("progress");
    reveal_strlit("bar");
    reveal_strlit(":");
    let head = "progress:bar:"@;
    let inner = head + st + ":"@ + d;
    assert forall|j: int| 0 <= j < 8 implies inner[j] != ':' by {
        assert(inner[j] == head[j]);
    }
    assert(inner[8] == ':');
    lemma_first_index_of(inner, ':', 8);
    let name = inner.take(8);
    assert(name =~= "progress"@);
    assert(trim_start_seq(name) == name) by {
        assert(!crate::strs::is_ws(name[0]));
    }
    assert(trim_end_seq(name) == name) by {
        assert(!crate::strs::is_ws(name.last()));
    }
    let rest = inner.skip(9);
    assert(rest =~= "bar"@ + seq![':'] + st + seq![':'] + d);
    assert(trim_start_seq(rest) == rest) by {
        assert(rest[0] == 'b');
        assert(!crate::strs::is_ws(rest[0]));
    }
    assert(trim_end_seq(rest) == rest) by {
        assert(rest.last() == d.last());
        assert(!crate::strs::is_ws(rest.last()));
    }
}

/// The bar tag a progress bar configuration builds draws the configuration's own
/// style: read back as a template tag (between its braces: the variable, then the
/// formats split at `:`), it names the variable `progress`, asks for the `bar`
/// format, and that format requests the indicator of the style
/// (`ProgressBarStyle::to_indicator`) at the configured width. This holds when
/// the configuration does not set both bar characters, which the tag would then
/// carry as well.
pub proof fn law_bar_tag_reads_back(c: BarConfigView)
    requires
        c.fill_char is None || c.empty_char is None,
    ensures
        bar_tag(c).len() >= 2,
        bar_tag(c)[0] == '{',
        bar_tag(c).last() == '}',
        ({
            let inner = bar_tag(c).subrange(1, bar_tag(c).len() - 1);
            &&& tag_parts(inner).0 == "progress"@
            &&& match tag_parts(inner).1 {
                Some(parts) => parts.len() > 0 && format_named(parts[0]) == FormatKind::Bar && match bar_request_of(
                    parts.drop_first(),
                ) {
                    Ok(q) => Some(q.kind) == requested_kind(style_indicator(c.style)) && q.width == c.width,
                    Err(_) => false,
                },
                None => false,
            }
        }),
{
    lemma_tag_inner(c);
    let w = c.width;
    let d = decimal(w as nat);
    lemma_decimal_digits(w as nat);
    law_parse_decimal(w);
    assert(!d.contains(':')) by {
        if d.contains(':') {
            let k = choose|k: int| 0 <= k < d.len() && d[k] == ':';
            assert(is_digit(d[k]));
        }
    }
    assert(is_digit(d[d.len() - 1]));
    let st = style_tag(c.style);
    reveal_strlit("bar");
    reveal_strlit("block");
    reveal_strlit("custom:braille");
    reveal_strlit("custom:dots");
    reveal_strlit("custom:gradient");
    assert forall|i: int| 0 <= i < st.len() implies !crate::strs::is_ws(#[trigger] st[i]) by {}
    lemma_tag_formats(st, d);
    lemma_style_parts(c.style, d);
}
proof fn lemma_scan_digits(p: Seq<char>, d: Seq<char>)
    requires
        scan_all(p).error is None,
        scan_all(p).digits.len() == 0,
        forall|i: int| 0 <= i < d.len() ==> is_digit(#[trigger] d[i]),
    ensures
        scan_all(p + d) == (DurationScan { digits: d, ..scan_all(p) }),
    decreases d.len(),
{
    if d.len() == 0 {
        assert(p + d =~= p);
        assert(scan_all(p).digits =~= d);
    } else {
        lemma_scan_digits(p, d.drop_last());
        assert((p + d).drop_last() =~= p + d.drop_last());
        assert((p + d).last() == d.last());
        assert(is_digit(d[d.len() - 1]));
        assert(d.drop_last().push(d.last()) =~= d);
    }
}

/// The seconds in one of a duration unit: a second, a minute of sixty seconds,
/// an hour of sixty minutes, a day of twenty-four hours.
pub open spec fn unit_length(u: char) -> nat {
    if u == 's' {
        1
    } else if u == 'm' {
        60
    } else if u == 'h' {
        60 * 60
    } else {
        24 * 60 * 60
    }
}

/// Durations add up: after any text that has been read without error and ends
/// in a unit (or is empty), `n` followed by a unit (`s`, `m`, `h` or `d`) adds
/// `n` seconds, minutes, hours or days; a number alone counts as seconds.
pub proof fn law_duration_units(p: Seq<char>, n: u64, u: char)
    requires
        scan_all(p).error is None,
        scan_all(p).digits.len() == 0,
        u == 's' || u == 'm' || u == 'h' || u == 'd',
    ensures
        duration_seconds(p + decimal(n as nat) + seq![u]) == Ok::<nat, Seq<char>>(scan_all(p).total + (n as nat) * unit_length(u)),
        duration_seconds(p + decimal(n as nat)) == Ok::<nat, Seq<char>>(scan_all(p).total + (n as nat)),
{
    let d = decimal(n as nat);
    lemma_decimal_digits(n as nat);
    lemma_scan_digits(p, d);
    assert(digits_u64(d) == Some(n as nat));
    let x = p + d + seq![u];
    assert(x.drop_last() =~= p + d);
    assert(x.last() == u);
    assert(!is_digit(u));
}

/// A numeric indicator shows a number that reads back as the percentage, with a
/// `%` after it unless its first parameter is `false`.
pub proof fn law_numeric_reads_back(percent: usize, parts: Seq<Seq<char>>)
    ensures
        ({
            let t = numeric_text_of(percent as nat, parts);
            let shows_sign = parts.len() == 0 || parts[0] != "false"@;
            &&& shows_sign ==> t.len() > 0 && t.last() == '%' && parsed_usize(t.drop_last()) == Some(percent)
            &&& !shows_sign ==> parsed_usize(t) == Some(percent)
        }),
{
    reveal_strlit("%");
    law_parse_decimal(percent);
    let d = decimal(percent as nat);
    assert((d + "%"@).drop_last() =~= d);
}

/// A ratio reads back: split at `/`, its text gives the numerator and the
/// denominator.
pub proof fn law_ratio_reads_back(numerator: usize, denominator: usize)
    ensures
        ({
            let parts = split_seq(decimal(numerator as nat) + "/"@ + decimal(denominator as nat), '/');
            &&& parts.len() == 2
            &&& parsed_usize(parts[0]) == Some(numerator)
            &&& parsed_usize(parts[1]) == Some(denominator)
        }),
{
    reveal_strlit("/");
    let a = decimal(numerator as nat);
    let b = decimal(denominator as nat);
    lemma_decimal_digits(numerator as nat);
    lemma_decimal_digits(denominator as nat);
    law_parse_decimal(numerator);
    law_parse_decimal(denominator);
    assert forall|i: int| 0 <= i < a.len() implies #[trigger] a[i] != '/' by {
        assert(is_digit(a[i]));
    }
    assert forall|i: int| 0 <= i < b.len() implies #[trigger] b[i] != '/' by {
        assert(is_digit(b[i]));
    }
    lemma_no_sep(a, '/');
    lemma_no_sep(b, '/');
    lemma_split_no_sep(a, '/');
    lemma_split_append(a, b, '/');
    assert(a + "/"@ + b =~= a + seq!['/'] + b);
}

} // verus!
