//! Drawing progress indicators: the characters of each kind of bar, given how
//! many of its cells are filled.
use vstd::prelude::*;
use crossterm::style::{ResetColor, SetForegroundColor, Stylize};
use crate::indicators::{color_named, ColorName, CustomIndicatorType};
use crate::window_base::{utf8_len, utf8_width};
use crate::errors::ProgressError;
use crate::strs::{
    chars_of, decimal, decimal_string, folded, lemma_folded_plain, owned, push_char, push_decimal,
    push_str, str_eq, string_of, strings, trim_chars, trim_end_seq, trim_seq, trim_start_seq,
};

verus! {

/// Whether `c` is an ASCII decimal digit.
pub open spec fn is_digit(c: char) -> bool {
    '0' <= c && c <= '9'
}

/// The value of the decimal digits `s`.
pub open spec fn digits_value(s: Seq<char>) -> nat
    decreases s.len(),
{
    if s.len() == 0 {
        0
    } else {
        digits_value(s.drop_last()) * 10 + ((s.last() as u32) - ('0' as u32)) as nat
    }
}

/// `s` without one leading `+`.
pub open spec fn unsigned_digits(s: Seq<char>) -> Seq<char> {
    if s.len() > 0 && s[0] == '+' {
        s.drop_first()
    } else {
        s
    }
}

/// What `str::parse::<usize>` gives for `s`: an optional `+` and one or more
/// decimal digits whose value fits in `usize`.
pub open spec fn parsed_usize(s: Seq<char>) -> Option<usize> {
    let d = unsigned_digits(s);
    if d.len() > 0 && (forall|i: int| 0 <= i < d.len() ==> is_digit(#[trigger] d[i])) && digits_value(d)
        <= usize::MAX {
        Some(digits_value(d) as usize)
    } else {
        None
    }
}

proof fn lemma_digits_monotone(d: Seq<char>, i: int, j: int)
    requires
        0 <= i <= j <= d.len(),
    ensures
        digits_value(d.take(i)) <= digits_value(d.take(j)),
    decreases j - i,
{
    if i < j {
        lemma_digits_monotone(d, i, j - 1);
        assert(d.take(j).drop_last() =~= d.take(j - 1));
    }
}

/// Parses an unsigned decimal number, as `parsed_usize` says.
pub fn parse_usize(s: &str) -> (r: Option<usize>)
    ensures
        r == parsed_usize(s@),
{
    let chars = chars_of(s);
    let n = chars.len();
    let start: usize = if n > 0 && chars[0] == '+' {
        1
    } else {
        0
    };
    let ghost d = unsigned_digits(s@);
    assert(d =~= chars@.skip(start as int));
    if start >= n {
        return None;
    }
    let mut value: usize = 0;
    let mut i: usize = start;
    while i < n
        invariant
            start <= i <= n,
            n == chars@.len(),
            d == chars@.skip(start as int),
            d == unsigned_digits(s@),
            chars@ == s@,
            value as nat == digits_value(d.take(i - start)),
            forall|k: int| 0 <= k < i - start ==> is_digit(#[trigger] d[k]),
        decreases n - i,
    {
        let c = chars[i];
        proof {
            assert(d.take(i - start + 1).drop_last() =~= d.take(i - start));
            assert(d[i - start] == c);
        }
        if !('0' <= c && c <= '9') {
            assert(!is_digit(d[i - start]));
            assert(!(forall|k: int| 0 <= k < d.len() ==> is_digit(#[trigger] d[k])));
            return None;
        }
        let digit = (c as u32 - '0' as u32) as usize;
        let next = match value.checked_mul(10) {
            Some(v) => v.checked_add(digit),
            None => None,
        };
        match next {
            Some(v) => {
                value = v;
            },
            None => {
                proof {
                    let t = d.take(i - start + 1);
                    assert(t.last() == c);
                    assert(digits_value(t) == value * 10 + digit);
                    assert(digits_value(t) > usize::MAX);
                    lemma_digits_monotone(d, i - start + 1, d.len() as int);
                    assert(d.take(d.len() as int) =~= d);
                }
                return None;
            },
        }
        i = i + 1;
    }
    assert(d.take(n - start) =~= d);
    Some(value)
}

/// The character a part stands for when it is one byte long.
pub open spec fn single_char(p: Seq<char>) -> Option<char> {
    if p.len() == 1 && (p[0] as u32) < 0x80 {
        Some(p[0])
    } else {
        None
    }
}

fn single_char_of(p: &str) -> (r: Option<char>)
    ensures
        r == single_char(p@),
{
    let chars = chars_of(p);
    if chars.len() == 1 && (chars[0] as u32) < 0x80 {
        Some(chars[0])
    } else {
        None
    }
}

/// The characters and colors of a bar.
#[derive(Debug, Clone, Copy, PartialEq, Eq, Structural)]
pub struct BarStyle {
    pub fill: char,
    pub empty: char,
    pub fill_color: Option<ColorName>,
    pub empty_color: Option<ColorName>,
    pub left: char,
    pub right: char,
}

/// The part at `i`, if there is one.
pub open spec fn part(parts: Seq<Seq<char>>, i: int) -> Option<Seq<char>> {
    if 0 <= i < parts.len() {
        Some(parts[i])
    } else {
        None
    }
}

/// The character the part at `i` gives, or `default`.
pub open spec fn char_param(parts: Seq<Seq<char>>, i: int, default: char) -> char {
    match part(parts, i) {
        Some(p) => match single_char(p) {
            Some(c) => c,
            None => default,
        },
        None => default,
    }
}

/// The color the part at `i` names, if any.
pub open spec fn color_param(parts: Seq<Seq<char>>, i: int) -> Option<ColorName> {
    match part(parts, i) {
        Some(p) => color_named(folded(p)),
        None => None,
    }
}

/// The style of a bar from its parameters `fill:empty:fill_color:empty_color:left:right`;
/// a character parameter counts when it is one byte, a color when it names one.
pub open spec fn bar_style_of(parts: Seq<Seq<char>>, default_fill: char) -> BarStyle {
    BarStyle {
        fill: char_param(parts, 0, default_fill),
        empty: char_param(parts, 1, ' '),
        fill_color: color_param(parts, 2),
        empty_color: color_param(parts, 3),
        left: char_param(parts, 4, '['),
        right: char_param(parts, 5, ']'),
    }
}

fn char_param_of(parts: &Vec<String>, i: usize, default: char) -> (r: char)
    ensures
        r == char_param(strings(parts@), i as int, default),
{
    if i < parts.len() {
        match single_char_of(parts[i].as_str()) {
            Some(c) => c,
            None => default,
        }
    } else {
        default
    }
}

fn color_param_of(parts: &Vec<String>, i: usize) -> (r: Option<ColorName>)
    ensures
        r == color_param(strings(parts@), i as int),
{
    if i < parts.len() {
        ColorName::from_str(parts[i].as_str())
    } else {
        None
    }
}

/// The style of a standard bar (`=` fill) or block bar (`█` fill) from its parameters.
pub fn bar_style(parts: &Vec<String>, default_fill: char) -> (r: BarStyle)
    ensures
        r == bar_style_of(strings(parts@), default_fill),
{
    BarStyle {
        fill: char_param_of(parts, 0, default_fill),
        empty: char_param_of(parts, 1, ' '),
        fill_color: color_param_of(parts, 2),
        empty_color: color_param_of(parts, 3),
        left: char_param_of(parts, 4, '['),
        right: char_param_of(parts, 5, ']'),
    }
}

/// The parameters `SetForegroundColor` writes for each color.
pub open spec fn fg_params(c: ColorName) -> Seq<char> {
    match c {
        ColorName::Black => "38;5;0"@,
        ColorName::Red => "38;5;9"@,
        ColorName::Green => "38;5;10"@,
        ColorName::Yellow => "38;5;11"@,
        ColorName::Blue => "38;5;12"@,
        ColorName::Magenta => "38;5;13"@,
        ColorName::Cyan => "38;5;14"@,
        ColorName::White => "38;5;15"@,
        ColorName::Reset => "39"@,
    }
}

/// The escape sequence that sets the foreground color `c`, or the empty sequence
/// `ESC [ m` when ANSI colors are switched off.
pub open spec fn fg_text(c: ColorName, on: bool) -> Seq<char> {
    if on {
        "\x1b["@ + fg_params(c) + "m"@
    } else {
        "\x1b[m"@
    }
}

/// The escape sequence that resets colors.
pub open spec fn reset_text() -> Seq<char> {
    "\x1b[0m"@
}

/// Formats crossterm's `SetForegroundColor` for `c`. Whether ANSI colors are on
/// depends on the environment (`NO_COLOR`), so both outcomes are stated.
#[verifier::external_body]
fn foreground_code(c: ColorName) -> (r: String)
    ensures
        r@ == fg_text(c, true) || r@ == fg_text(c, false),
{
    format!("{}", SetForegroundColor(c.to_color()))
}

/// Formats crossterm's `ResetColor`.
#[verifier::external_body]
fn reset_code() -> (r: String)
    ensures
        r@ == reset_text(),
{
    format!("{}", ResetColor)
}

/// `n` copies of `c`.
pub open spec fn repeat(c: char, n: nat) -> Seq<char> {
    Seq::new(n, |i: int| c)
}

/// `text` in `color` (with the color set before it and reset after it), or as is.
pub open spec fn colored(text: Seq<char>, color: Option<ColorName>, on: bool) -> Seq<char> {
    match color {
        Some(c) => fg_text(c, on) + text + reset_text(),
        None => text,
    }
}

/// The smaller of `a` and `b`.
pub open spec fn min_nat(a: nat, b: nat) -> nat {
    if a < b {
        a
    } else {
        b
    }
}

/// A bar of `width` cells with `filled` of them filled (at most `width`), between
/// its brackets, each part in its color.
pub open spec fn bar_text(st: BarStyle, filled: nat, width: nat, fill_on: bool, empty_on: bool) -> Seq<char> {
    let f = min_nat(filled, width);
    seq![st.left] + colored(repeat(st.fill, f), st.fill_color, fill_on) + colored(
        repeat(st.empty, (width - f) as nat),
        st.empty_color,
        empty_on,
    ) + seq![st.right]
}

fn push_repeat(s: &mut String, c: char, n: usize)
    ensures
        final(s)@ == old(s)@ + repeat(c, n as nat),
{
    let mut i: usize = 0;
    while i < n
        invariant
            i <= n,
            s@ == old(s)@ + repeat(c, i as nat),
        decreases n - i,
    {
        push_char(s, c);
        i = i + 1;
        assert(s@ =~= old(s)@ + repeat(c, i as nat));
    }
}

/// `text` between `open` and `close` when `colored`; `text` alone otherwise.
pub open spec fn enclosed(text: Seq<char>, colored: bool, open: Seq<char>, close: Seq<char>) -> Seq<char> {
    if colored {
        open + text + close
    } else {
        text
    }
}

/// A bar of `width` cells with `filled` of them filled (at most `width`), between
/// its brackets; the filled part is opened by `fill_open` and the empty part by
/// `empty_open` when the style gives them a color, each then closed by `reset`.
pub open spec fn bar_text_with(
    st: BarStyle,
    filled: nat,
    width: nat,
    fill_open: Seq<char>,
    empty_open: Seq<char>,
    reset: Seq<char>,
) -> Seq<char> {
    let f = min_nat(filled, width);
    seq![st.left] + enclosed(repeat(st.fill, f), st.fill_color is Some, fill_open, reset) + enclosed(
        repeat(st.empty, (width - f) as nat),
        st.empty_color is Some,
        empty_open,
        reset,
    ) + seq![st.right]
}

fn push_enclosed(s: &mut String, c: char, n: usize, colored: bool, open: &str, close: &str)
    ensures
        final(s)@ == old(s)@ + enclosed(repeat(c, n as nat), colored, open@, close@),
{
    if colored {
        push_str(s, open);
    }
    push_repeat(s, c, n);
    if colored {
        push_str(s, close);
    }
    assert(final(s)@ =~= old(s)@ + enclosed(repeat(c, n as nat), colored, open@, close@)) by {
        if colored {
            assert(s@ =~= old(s)@ + open@ + repeat(c, n as nat) + close@);
        }
    }
}

/// Draws a bar with the escape sequences given: `fill_open` and `empty_open` set
/// the colors of the filled and empty parts, `reset` resets them.
pub fn compose_bar(
    style: &BarStyle,
    filled: usize,
    width: usize,
    fill_open: &str,
    empty_open: &str,
    reset: &str,
) -> (r: String)
    ensures
        r@ == bar_text_with(*style, filled as nat, width as nat, fill_open@, empty_open@, reset@),
{
    let f = if filled < width {
        filled
    } else {
        width
    };
    let mut bar = String::new();
    push_char(&mut bar, style.left);
    push_enclosed(&mut bar, style.fill, f, style.fill_color.is_some(), fill_open, reset);
    push_enclosed(&mut bar, style.empty, width - f, style.empty_color.is_some(), empty_open, reset);
    push_char(&mut bar, style.right);
    assert(bar@ =~= bar_text_with(*style, filled as nat, width as nat, fill_open@, empty_open@, reset@));
    bar
}

/// The escape sequence that sets `color`, when there is one, and whether colors
/// were on.
fn color_code(color: Option<ColorName>) -> (r: (String, Ghost<bool>))
    ensures
        color matches Some(c) ==> r.0@ == fg_text(c, r.1@),
{
    match color {
        Some(c) => {
            let code = foreground_code(c);
            proof {
                reveal_strlit("\x1b[");
                reveal_strlit("m");
                reveal_strlit("\x1b[m");
            }
            let ghost on = code@ == fg_text(c, true);
            (code, Ghost(on))
        },
        None => (String::new(), Ghost(true)),
    }
}

/// Draws a bar of `width` cells, `filled` of them filled (at most `width`), with
/// the escape sequences crossterm writes for its colors.
pub fn draw_bar(style: &BarStyle, filled: usize, width: usize) -> (r: String)
    ensures
        exists|fill_on: bool, empty_on: bool| r@ == bar_text(*style, filled as nat, width as nat, fill_on, empty_on),
{
    let (fill_open, fill_on) = color_code(style.fill_color);
    let (empty_open, empty_on) = color_code(style.empty_color);
    let reset = if style.fill_color.is_some() || style.empty_color.is_some() {
        reset_code()
    } else {
        String::new()
    };
    let bar = compose_bar(style, filled, width, fill_open.as_str(), empty_open.as_str(), reset.as_str());
    proof {
        let f = min_nat(filled as nat, width as nat);
        assert(enclosed(repeat(style.fill, f), style.fill_color is Some, fill_open@, reset@) == colored(
            repeat(style.fill, f),
            style.fill_color,
            fill_on@,
        ));
        assert(enclosed(repeat(style.empty, (width - f) as nat), style.empty_color is Some, empty_open@, reset@)
            == colored(repeat(style.empty, (width - f) as nat), style.empty_color, empty_on@));
        assert(bar@ =~= bar_text(*style, filled as nat, width as nat, fill_on@, empty_on@));
    }
    bar
}

/// The width and characters of an interactive bar.
#[derive(Debug, Clone, Copy, PartialEq, Eq, Structural)]
pub struct InteractiveStyle {
    pub width: usize,
    pub fill: char,
    pub background: char,
    pub cursor: char,
}

/// The interactive style of a bar `width` cells wide: at index 3 of its parameters
/// a text whose first three characters are fill, background and cursor (default
/// `=`, space, `>`).
pub open spec fn interactive_style_of(parts: Seq<Seq<char>>, width: usize) -> InteractiveStyle {
    let (f, b, c) = match part(parts, 3) {
        Some(p) => if p.len() >= 3 {
            (p[0], p[1], p[2])
        } else {
            ('=', ' ', '>')
        },
        None => ('=', ' ', '>'),
    };
    InteractiveStyle { width, fill: f, background: b, cursor: c }
}

/// The interactive style of a bar `width` cells wide, from its parameters.
pub fn interactive_style(parts: &Vec<String>, width: usize) -> (r: InteractiveStyle)
    ensures
        r == interactive_style_of(strings(parts@), width),
{
    let (f, b, c) = if parts.len() > 3 {
        let chars = chars_of(parts[3].as_str());
        if chars.len() >= 3 {
            (chars[0], chars[1], chars[2])
        } else {
            crate::indicators::ProgressIndicator::default_interactive_chars()
        }
    } else {
        crate::indicators::ProgressIndicator::default_interactive_chars()
    };
    InteractiveStyle { width, fill: f, background: b, cursor: c }
}

/// The cell at `i` of an interactive bar: fill before the cursor, the cursor at
/// `filled`, background after it.
pub open spec fn interactive_cell(st: InteractiveStyle, filled: nat, i: int) -> char {
    if i < filled {
        st.fill
    } else if i == filled {
        st.cursor
    } else {
        st.background
    }
}

/// An interactive bar between brackets.
pub open spec fn interactive_text(st: InteractiveStyle, filled: nat) -> Seq<char> {
    "["@ + Seq::new(st.width as nat, |i: int| interactive_cell(st, filled, i)) + "]"@
}

/// Draws an interactive bar with the cursor at `filled`.
pub fn draw_interactive(st: &InteractiveStyle, filled: usize) -> (r: String)
    ensures
        r@ == interactive_text(*st, filled as nat),
{
    let mut s = String::new();
    push_char(&mut s, '[');
    let mut i: usize = 0;
    while i < st.width
        invariant
            i <= st.width,
            s@ == seq!['['] + Seq::new(i as nat, |k: int| interactive_cell(*st, filled as nat, k)),
        decreases st.width - i,
    {
        let c = if i < filled {
            st.fill
        } else if i == filled {
            st.cursor
        } else {
            st.background
        };
        push_char(&mut s, c);
        i = i + 1;
        assert(s@ =~= seq!['['] + Seq::new(i as nat, |k: int| interactive_cell(*st, filled as nat, k)));
    }
    push_char(&mut s, ']');
    proof {
        reveal_strlit("[");
        reveal_strlit("]");
    }
    assert(s@ =~= interactive_text(*st, filled as nat));
    s
}

/// The braille dots of the dots indicator, from empty to full.
pub open spec fn dot_levels() -> Seq<char> {
    seq!['\u{2800}', '\u{2840}', '\u{28c0}', '\u{28c4}', '\u{28e4}', '\u{28e6}', '\u{28f6}', '\u{28fe}', '\u{28ff}']
}

/// The cell at `i` of a dots bar: full before `filled`, the partial level at
/// `filled` when it is not 0, empty otherwise.
pub open spec fn dots_cell(filled: nat, partial: nat, i: int) -> char {
    if i < filled {
        dot_levels()[8]
    } else if i == filled && partial > 0 {
        dot_levels()[partial as int]
    } else {
        dot_levels()[0]
    }
}

/// A dots bar of `width` cells.
pub open spec fn dots_text(filled: nat, partial: nat, width: nat) -> Seq<char> {
    Seq::new(width, |i: int| dots_cell(filled, partial, i))
}

/// Draws a dots bar of `width` cells.
pub fn draw_dots(filled: usize, partial: usize, width: usize) -> (r: String)
    requires
        partial < 9,
    ensures
        r@ == dots_text(filled as nat, partial as nat, width as nat),
{
    let levels: Vec<char> = vec!['\u{2800}', '\u{2840}', '\u{28c0}', '\u{28c4}', '\u{28e4}', '\u{28e6}', '\u{28f6}', '\u{28fe}', '\u{28ff}'];
    assert(levels@ =~= dot_levels());
    let mut s = String::new();
    let mut i: usize = 0;
    while i < width
        invariant
            i <= width,
            levels@ == dot_levels(),
            partial < 9,
            s@ == Seq::new(i as nat, |k: int| dots_cell(filled as nat, partial as nat, k)),
        decreases width - i,
    {
        let c = if i < filled {
            levels[8]
        } else if i == filled && partial > 0 {
            levels[partial]
        } else {
            levels[0]
        };
        push_char(&mut s, c);
        i = i + 1;
        assert(s@ =~= Seq::new(i as nat, |k: int| dots_cell(filled as nat, partial as nat, k)));
    }
    s
}

/// The partial braille patterns of the braille indicator.
pub open spec fn braille_partials() -> Seq<char> {
    seq!['\u{283f}', '\u{2837}', '\u{282f}', '\u{281f}', '\u{283b}', '\u{281b}', '\u{2819}', '\u{2809}']
}

/// The cell at `i` of a braille bar: `⣿` before `filled`, the partial pattern at
/// `filled` when it is not 0, `⠄` otherwise.
pub open spec fn braille_cell(filled: nat, partial: nat, i: int) -> char {
    if i < filled {
        '\u{28ff}'
    } else if i == filled && partial > 0 {
        braille_partials()[partial as int]
    } else {
        '\u{2804}'
    }
}

/// A braille bar of `width` cells.
pub open spec fn braille_text(filled: nat, partial: nat, width: nat) -> Seq<char> {
    Seq::new(width, |i: int| braille_cell(filled, partial, i))
}

/// Draws a braille bar of `width` cells.
pub fn draw_braille(filled: usize, partial: usize, width: usize) -> (r: String)
    requires
        partial < 8,
    ensures
        r@ == braille_text(filled as nat, partial as nat, width as nat),
{
    let partials: Vec<char> = vec!['\u{283f}', '\u{2837}', '\u{282f}', '\u{281f}', '\u{283b}', '\u{281b}', '\u{2819}', '\u{2809}'];
    assert(partials@ =~= braille_partials());
    let mut s = String::new();
    let mut i: usize = 0;
    while i < width
        invariant
            i <= width,
            partials@ == braille_partials(),
            partial < 8,
            s@ == Seq::new(i as nat, |k: int| braille_cell(filled as nat, partial as nat, k)),
        decreases width - i,
    {
        let c = if i < filled {
            '\u{28ff}'
        } else if i == filled && partial > 0 {
            partials[partial]
        } else {
            '\u{2804}'
        };
        push_char(&mut s, c);
        i = i + 1;
        assert(s@ =~= Seq::new(i as nat, |k: int| braille_cell(filled as nat, partial as nat, k)));
    }
    s
}

/// The gradient color a part names (`red`, `green`, `blue`, `yellow`, `magenta`
/// or `cyan`, exactly), or `default`.
pub open spec fn gradient_color(p: Option<Seq<char>>, default: ColorName) -> ColorName {
    match p {
        Some(m) => if m == "red"@ {
            ColorName::Red
        } else if m == "green"@ {
            ColorName::Green
        } else if m == "blue"@ {
            ColorName::Blue
        } else if m == "yellow"@ {
            ColorName::Yellow
        } else if m == "magenta"@ {
            ColorName::Magenta
        } else if m == "cyan"@ {
            ColorName::Cyan
        } else {
            default
        },
        None => default,
    }
}

fn gradient_color_of(parts: &Vec<String>, i: usize, default: ColorName) -> (r: ColorName)
    ensures
        r == gradient_color(part(strings(parts@), i as int), default),
{
    if i < parts.len() {
        let m = parts[i].as_str();
        if crate::strs::str_eq(m, "red") {
            ColorName::Red
        } else if crate::strs::str_eq(m, "green") {
            ColorName::Green
        } else if crate::strs::str_eq(m, "blue") {
            ColorName::Blue
        } else if crate::strs::str_eq(m, "yellow") {
            ColorName::Yellow
        } else if crate::strs::str_eq(m, "magenta") {
            ColorName::Magenta
        } else if crate::strs::str_eq(m, "cyan") {
            ColorName::Cyan
        } else {
            default
        }
    } else {
        default
    }
}

/// The width and colors of a gradient bar.
#[derive(Debug, Clone, Copy, PartialEq, Eq, Structural)]
pub struct GradientStyle {
    pub width: usize,
    pub start: ColorName,
    pub end: ColorName,
}

/// The gradient style of a bar `width` cells wide: the start color at index 4 of
/// its parameters (default red) and the end color at index 5 (default green).
pub open spec fn gradient_style_of(parts: Seq<Seq<char>>, width: usize) -> GradientStyle {
    GradientStyle {
        width,
        start: gradient_color(part(parts, 4), ColorName::Red),
        end: gradient_color(part(parts, 5), ColorName::Green),
    }
}

/// The gradient style of a bar `width` cells wide, from its parameters.
pub fn gradient_style(parts: &Vec<String>, width: usize) -> (r: GradientStyle)
    ensures
        r == gradient_style_of(strings(parts@), width),
{
    GradientStyle {
        width,
        start: gradient_color_of(parts, 4, ColorName::Red),
        end: gradient_color_of(parts, 5, ColorName::Green),
    }
}

/// `ch` in color `c`, the color reset to the default after it; `on` tells for each
/// of the two escape sequences whether ANSI colors were on.
pub open spec fn styled_text(ch: char, c: ColorName, on: (bool, bool)) -> Seq<char> {
    fg_text(c, on.0) + seq![ch] + fg_text(ColorName::Reset, on.1)
}

/// Formats `ch` styled with crossterm's `Stylize::with` in color `c`.
#[verifier::external_body]
fn styled_char(ch: char, c: ColorName) -> (r: String)
    ensures
        exists|on: (bool, bool)| r@ == styled_text(ch, c, on),
{
    ch.to_string().with(c.to_color()).to_string()
}

/// Whether filled cell `i` takes the start color: it lies in the first half of the
/// filled cells (`i / max(filled, 1) < 1/2`).
pub open spec fn in_first_half(filled: nat, i: int) -> bool {
    let m = if filled > 0 {
        filled as int
    } else {
        1
    };
    2 * i < m
}

/// The first `n` cells of a gradient bar, a filled cell being `start_cell` in the
/// first half of the filled cells and `end_cell` after it, an empty cell a space.
pub open spec fn gradient_cells_with(filled: nat, n: nat, start_cell: Seq<char>, end_cell: Seq<char>) -> Seq<char>
    decreases n,
{
    if n == 0 {
        Seq::empty()
    } else {
        let i = n - 1;
        gradient_cells_with(filled, (n - 1) as nat, start_cell, end_cell) + if i < filled {
            if in_first_half(filled, i) {
                start_cell
            } else {
                end_cell
            }
        } else {
            seq![' ']
        }
    }
}

/// A gradient bar of `width` cells between brackets, with the cells given.
pub open spec fn gradient_text_with(width: nat, filled: nat, start_cell: Seq<char>, end_cell: Seq<char>) -> Seq<char> {
    "["@ + gradient_cells_with(filled, width, start_cell, end_cell) + "]"@
}

/// Draws a gradient bar of `width` cells, `filled` of them filled, each filled cell
/// being `start_cell` or `end_cell`.
pub fn compose_gradient(width: usize, filled: usize, start_cell: &str, end_cell: &str) -> (r: String)
    ensures
        r@ == gradient_text_with(width as nat, filled as nat, start_cell@, end_cell@),
{
    let mut s = String::new();
    push_char(&mut s, '[');
    let m: usize = if filled > 0 {
        filled
    } else {
        1
    };
    let mut i: usize = 0;
    while i < width
        invariant
            i <= width,
            m == if filled > 0 {
                filled
            } else {
                1
            },
            s@ == seq!['['] + gradient_cells_with(filled as nat, i as nat, start_cell@, end_cell@),
        decreases width - i,
    {
        if i < filled {
            if i < m - i {
                push_str(&mut s, start_cell);
            } else {
                push_str(&mut s, end_cell);
            }
        } else {
            push_char(&mut s, ' ');
        }
        i = i + 1;
        assert(s@ =~= seq!['['] + gradient_cells_with(filled as nat, i as nat, start_cell@, end_cell@));
    }
    push_char(&mut s, ']');
    proof {
        reveal_strlit("[");
        reveal_strlit("]");
    }
    assert(s@ =~= gradient_text_with(width as nat, filled as nat, start_cell@, end_cell@));
    s
}

/// Draws a gradient bar with `filled` cells filled, each `=` in crossterm's styling
/// for its color.
pub fn draw_gradient(st: &GradientStyle, filled: usize) -> (r: String)
    ensures
        exists|start_on: (bool, bool), end_on: (bool, bool)|
            r@ == gradient_text_with(
                st.width as nat,
                filled as nat,
                styled_text('=', st.start, start_on),
                styled_text('=', st.end, end_on),
            ),
{
    let start_cell = styled_char('=', st.start);
    let end_cell = styled_char('=', st.end);
    compose_gradient(st.width, filled, start_cell.as_str(), end_cell.as_str())
}

/// The frames of a spinner: the characters of the first parameter, or `-\|/`.
pub open spec fn spinner_frames_of(parts: Seq<Seq<char>>) -> Seq<char> {
    match part(parts, 0) {
        Some(p) => p,
        None => "-\\|/"@,
    }
}

/// The frames of a spinner; a spinner needs at least one frame.
pub fn spinner_frames(parts: &Vec<String>) -> (r: Result<Vec<char>, ProgressError>)
    ensures
        spinner_frames_of(strings(parts@)).len() > 0 ==> (r matches Ok(v) && v@ == spinner_frames_of(strings(parts@))),
        spinner_frames_of(strings(parts@)).len() == 0 ==> (r matches Err(ProgressError::DisplayOperation(m)) && m@
            == "Spinner indicator requires at least one frame"@),
{
    let frames = if parts.len() > 0 {
        chars_of(parts[0].as_str())
    } else {
        // the default spinner frames, joined
        chars_of("-\\|/")
    };
    if frames.len() == 0 {
        return Err(ProgressError::DisplayOperation(owned("Spinner indicator requires at least one frame")));
    }
    Ok(frames)
}

/// The text of a numeric indicator: the percentage, with `%` unless the first
/// parameter is `false`.
pub open spec fn numeric_text_of(percent: nat, parts: Seq<Seq<char>>) -> Seq<char> {
    if parts.len() == 0 || parts[0] != "false"@ {
        decimal(percent) + "%"@
    } else {
        decimal(percent)
    }
}

/// The text of a numeric indicator for `percent`.
pub fn numeric_text(percent: usize, parts: &Vec<String>) -> (r: String)
    ensures
        r@ == numeric_text_of(percent as nat, strings(parts@)),
{
    let mut s = decimal_string(percent as u64);
    if parts.len() == 0 || !str_eq(parts[0].as_str(), "false") {
        push_str(&mut s, "%");
    }
    s
}

/// A ratio as text: `"numerator/denominator"`.
pub fn ratio_text(numerator: usize, denominator: usize) -> (r: String)
    ensures
        r@ == decimal(numerator as nat) + "/"@ + decimal(denominator as nat),
{
    let mut s = decimal_string(numerator as u64);
    push_str(&mut s, "/");
    push_decimal(&mut s, denominator as u64);
    s
}

/// The kinds of indicator a `bar` format draws.
#[derive(Debug, Clone, Copy, PartialEq, Eq, Structural)]
pub enum IndicatorKind {
    Bar,
    Block,
    Spinner,
    Numeric,
    Interactive,
    Dots,
    Braille,
    Gradient,
}

/// The options of a `bar` format after its indicator name: the parameters that
/// are neither a width nor `smooth`, the last width given (default 10), and
/// whether `smooth` was given.
pub open spec fn bar_options(rest: Seq<Seq<char>>) -> (Seq<Seq<char>>, usize, bool)
    decreases rest.len(),
{
    if rest.len() == 0 {
        (Seq::empty(), 10, false)
    } else {
        let (c, w, sm) = bar_options(rest.drop_last());
        let p = rest.last();
        match parsed_usize(p) {
            Some(x) => (c, x, sm),
            None => if p == "smooth"@ {
                (c, w, true)
            } else {
                (c.push(p), w, sm)
            },
        }
    }
}

/// What a `bar` format asks to draw.
pub struct BarRequest {
    pub kind: IndicatorKind,
    pub params: Vec<String>,
    pub width: usize,
    pub smooth: bool,
}

/// The abstract value of a bar request.
pub struct BarRequestView {
    pub kind: IndicatorKind,
    pub params: Seq<Seq<char>>,
    pub width: usize,
    pub smooth: bool,
}

impl View for BarRequest {
    type V = BarRequestView;

    open spec fn view(&self) -> BarRequestView {
        BarRequestView { kind: self.kind, params: strings(self.params@), width: self.width, smooth: self.smooth }
    }
}

/// The request for the parameters of a `bar` format, or the message of its error:
/// the first parameter names the indicator (`bar` when there is none or it is not
/// known); `custom` takes the next remaining parameter as the custom type's name
/// and the rest as its options.
pub open spec fn bar_request_of(parts: Seq<Seq<char>>) -> Result<BarRequestView, Seq<char>> {
    if parts.len() == 0 {
        Ok(BarRequestView { kind: IndicatorKind::Bar, params: Seq::empty(), width: 10, smooth: false })
    } else {
        let (c, w, sm) = bar_options(parts.drop_first());
        let ind = parts[0];
        if ind == "bar"@ {
            Ok(BarRequestView { kind: IndicatorKind::Bar, params: c, width: w, smooth: sm })
        } else if ind == "block"@ {
            Ok(BarRequestView { kind: IndicatorKind::Block, params: c, width: w, smooth: sm })
        } else if ind == "spinner"@ {
            Ok(BarRequestView { kind: IndicatorKind::Spinner, params: c, width: w, smooth: sm })
        } else if ind == "numeric"@ {
            Ok(BarRequestView { kind: IndicatorKind::Numeric, params: c, width: w, smooth: sm })
        } else if ind == "interactive"@ {
            Ok(BarRequestView { kind: IndicatorKind::Interactive, params: c, width: w, smooth: sm })
        } else if ind == "custom"@ {
            if c.len() == 0 {
                Err("Missing custom indicator name"@)
            } else {
                match crate::indicators::custom_named(folded(c[0])) {
                    Some(t) => Ok(
                        BarRequestView {
                            kind: match t {
                                CustomIndicatorType::Dots => IndicatorKind::Dots,
                                CustomIndicatorType::Braille => IndicatorKind::Braille,
                                CustomIndicatorType::Gradient => IndicatorKind::Gradient,
                            },
                            params: c.drop_first(),
                            width: w,
                            smooth: sm,
                        },
                    ),
                    None => Err("Unknown custom indicator type: "@ + c[0]),
                }
            }
        } else {
            Ok(BarRequestView { kind: IndicatorKind::Bar, params: Seq::empty(), width: w, smooth: sm })
        }
    }
}

/// The request for the parameters of a `bar` format, as `bar_request_of` says.
pub fn bar_request(parts: &Vec<String>) -> (r: Result<BarRequest, ProgressError>)
    ensures
        match bar_request_of(strings(parts@)) {
            Ok(v) => r matches Ok(q) && q@ == v,
            Err(m) => r matches Err(ProgressError::DisplayOperation(x)) && x@ == m,
        },
{
    let ghost ps = strings(parts@);
    if parts.len() == 0 {
        let q = BarRequest { kind: IndicatorKind::Bar, params: Vec::new(), width: 10, smooth: false };
        assert(q@.params =~= Seq::<Seq<char>>::empty());
        return Ok(q);
    }
    let mut custom: Vec<String> = Vec::new();
    let mut width: usize = 10;
    let mut smooth = false;
    let mut i: usize = 1;
    assert(ps.drop_first().take(0) =~= Seq::<Seq<char>>::empty());
    while i < parts.len()
        invariant
            1 <= i <= parts@.len(),
            ps == strings(parts@),
            bar_options(ps.drop_first().take(i - 1)) == (strings(custom@), width, smooth),
        decreases parts@.len() - i,
    {
        let p = parts[i].as_str();
        proof {
            let t = ps.drop_first().take(i as int);
            assert(t.drop_last() =~= ps.drop_first().take(i - 1));
            assert(t.last() == p@);
        }
        match parse_usize(p) {
            Some(w) => {
                width = w;
            },
            None => {
                if str_eq(p, "smooth") {
                    smooth = true;
                } else {
                    let ghost before = strings(custom@);
                    custom.push(owned(p));
                    assert(strings(custom@) =~= before.push(p@));
                }
            },
        }
        i = i + 1;
    }
    assert(ps.drop_first().take(parts@.len() - 1) =~= ps.drop_first());
    let ind = parts[0].as_str();
    if str_eq(ind, "bar") {
        Ok(BarRequest { kind: IndicatorKind::Bar, params: custom, width, smooth })
    } else if str_eq(ind, "block") {
        Ok(BarRequest { kind: IndicatorKind::Block, params: custom, width, smooth })
    } else if str_eq(ind, "spinner") {
        Ok(BarRequest { kind: IndicatorKind::Spinner, params: custom, width, smooth })
    } else if str_eq(ind, "numeric") {
        Ok(BarRequest { kind: IndicatorKind::Numeric, params: custom, width, smooth })
    } else if str_eq(ind, "interactive") {
        Ok(BarRequest { kind: IndicatorKind::Interactive, params: custom, width, smooth })
    } else if str_eq(ind, "custom") {
        if custom.len() == 0 {
            return Err(ProgressError::DisplayOperation(owned("Missing custom indicator name")));
        }
        let ghost before = strings(custom@);
        let name = custom.remove(0);
        assert(strings(custom@) =~= before.drop_first());
        let kind = match CustomIndicatorType::from_str(name.as_str()) {
            Ok(CustomIndicatorType::Dots) => IndicatorKind::Dots,
            Ok(CustomIndicatorType::Braille) => IndicatorKind::Braille,
            Ok(CustomIndicatorType::Gradient) => IndicatorKind::Gradient,
            Err(_) => {
                let mut msg = owned("Unknown custom indicator type: ");
                push_str(&mut msg, name.as_str());
                return Err(ProgressError::DisplayOperation(msg));
            },
        };
        Ok(BarRequest { kind, params: custom, width, smooth })
    } else {
        let q = BarRequest { kind: IndicatorKind::Bar, params: Vec::new(), width, smooth };
        assert(q@.params =~= Seq::<Seq<char>>::empty());
        Ok(q)
    }
}

/// The number of bytes of the UTF-8 encoding of `s`.
pub open spec fn utf8_bytes(s: Seq<char>) -> nat
    decreases s.len(),
{
    if s.len() == 0 {
        0
    } else {
        utf8_bytes(s.drop_last()) + utf8_len(s.last())
    }
}

fn utf8_size(s: &Vec<char>) -> (r: usize)
    requires
        utf8_bytes(s@) <= usize::MAX,
    ensures
        r == utf8_bytes(s@),
{
    let mut n: usize = 0;
    let mut i: usize = 0;
    while i < s.len()
        invariant
            i <= s@.len(),
            utf8_bytes(s@) <= usize::MAX,
            n == utf8_bytes(s@.take(i as int)),
        decreases s@.len() - i,
    {
        proof {
            assert(s@.take(i as int + 1).drop_last() =~= s@.take(i as int));
            lemma_utf8_bytes_prefix(s@, i as int + 1);
        }
        n = n + utf8_width(s[i]);
        i = i + 1;
    }
    assert(s@.take(s@.len() as int) =~= s@);
    n
}

proof fn lemma_utf8_bytes_prefix(s: Seq<char>, k: int)
    requires
        0 <= k <= s.len(),
    ensures
        utf8_bytes(s.take(k)) <= utf8_bytes(s),
    decreases s.len() - k,
{
    if k < s.len() {
        lemma_utf8_bytes_prefix(s, k + 1);
        assert(s.take(k + 1).drop_last() =~= s.take(k));
    } else {
        assert(s.take(k) =~= s);
    }
}

/// The ways of padding text.
#[derive(Debug, Clone, Copy, PartialEq, Eq, Structural)]
pub enum PadAlign {
    /// Right-aligned: spaces before the text (`lpad`).
    Left,
    /// Left-aligned: spaces after the text (`rpad`).
    Right,
    /// Centered: half the spaces before (rounded down), the rest after (`pad`).
    Center,
}

/// `n` spaces.
pub open spec fn spaces(n: nat) -> Seq<char> {
    repeat(' ', n)
}

/// `text` padded with spaces to `width` characters.
pub open spec fn padded(text: Seq<char>, align: PadAlign, width: nat) -> Seq<char> {
    if width <= text.len() {
        text
    } else {
        let pad = (width - text.len()) as nat;
        match align {
            PadAlign::Left => spaces(pad) + text,
            PadAlign::Right => text + spaces(pad),
            PadAlign::Center => spaces(pad / 2) + text + spaces((pad - pad / 2) as nat),
        }
    }
}

/// The padding width of a pad format: its first parameter, or else the byte
/// length of the text.
pub open spec fn pad_width(text: Seq<char>, parts: Seq<Seq<char>>) -> nat {
    match part(parts, 0) {
        Some(p) => match parsed_usize(p) {
            Some(w) => w as nat,
            None => utf8_bytes(text),
        },
        None => utf8_bytes(text),
    }
}

/// Pads `text` as a pad format with parameters `parts` asks.
pub fn pad_text(text: &str, align: PadAlign, parts: &Vec<String>) -> (r: String)
    requires
        utf8_bytes(text@) <= usize::MAX,
    ensures
        r@ == padded(text@, align, pad_width(text@, strings(parts@))),
{
    let chars = chars_of(text);
    let width = if parts.len() > 0 {
        match parse_usize(parts[0].as_str()) {
            Some(w) => w,
            None => utf8_size(&chars),
        }
    } else {
        utf8_size(&chars)
    };
    let n = chars.len();
    let mut s = String::new();
    if width <= n {
        push_str(&mut s, text);
        return s;
    }
    let pad = width - n;
    match align {
        PadAlign::Left => {
            push_repeat(&mut s, ' ', pad);
            push_str(&mut s, text);
        },
        PadAlign::Right => {
            push_str(&mut s, text);
            push_repeat(&mut s, ' ', pad);
        },
        PadAlign::Center => {
            push_repeat(&mut s, ' ', pad / 2);
            push_str(&mut s, text);
            push_repeat(&mut s, ' ', pad - pad / 2);
        },
    }
    s
}

/// The ANSI code that starts text in color `c`.
pub open spec fn ansi_code(c: ColorName) -> Seq<char> {
    match c {
        ColorName::Black => "\x1B[30m"@,
        ColorName::Red => "\x1B[31m"@,
        ColorName::Green => "\x1B[32m"@,
        ColorName::Yellow => "\x1B[33m"@,
        ColorName::Blue => "\x1B[34m"@,
        ColorName::Magenta => "\x1B[35m"@,
        ColorName::Cyan => "\x1B[36m"@,
        ColorName::White => "\x1B[37m"@,
        ColorName::Reset => "\x1B[0m"@,
    }
}

/// What a color format gives for `text`: the text in the color its first parameter
/// names (trimmed, case-insensitively), then a reset; or the message of its error.
pub open spec fn colorized(text: Seq<char>, parts: Seq<Seq<char>>) -> Result<Seq<char>, Seq<char>> {
    if parts.len() == 0 {
        Err("Color format requires a color name"@)
    } else {
        let name = trim_seq(parts[0]);
        match color_named(folded(name)) {
            Some(c) => Ok(ansi_code(c) + text + "\x1B[0m"@),
            None => Err("Unknown color: "@ + name),
        }
    }
}

/// Colors `text` as a color format with parameters `parts` asks.
pub fn colorize(text: &str, parts: &Vec<String>) -> (r: Result<String, ProgressError>)
    ensures
        match colorized(text@, strings(parts@)) {
            Ok(t) => r matches Ok(s) && s@ == t,
            Err(m) => r matches Err(ProgressError::DisplayOperation(x)) && x@ == m,
        },
{
    if parts.len() == 0 {
        return Err(ProgressError::DisplayOperation(owned("Color format requires a color name")));
    }
    let name_chars = trim_chars(chars_of(parts[0].as_str()).as_slice());
    let name = string_of(name_chars.as_slice());
    let color = match ColorName::from_str(name.as_str()) {
        Some(c) => c,
        None => {
            let mut msg = owned("Unknown color: ");
            push_str(&mut msg, name.as_str());
            return Err(ProgressError::DisplayOperation(msg));
        },
    };
    let code = match color {
        ColorName::Black => "\x1B[30m",
        ColorName::Red => "\x1B[31m",
        ColorName::Green => "\x1B[32m",
        ColorName::Yellow => "\x1B[33m",
        ColorName::Blue => "\x1B[34m",
        ColorName::Magenta => "\x1B[35m",
        ColorName::Cyan => "\x1B[36m",
        ColorName::White => "\x1B[37m",
        ColorName::Reset => "\x1B[0m",
    };
    let mut s = owned(code);
    push_str(&mut s, text);
    push_str(&mut s, "\x1B[0m");
    Ok(s)
}

/// The formats a template tag can ask for.
#[derive(Debug, Clone, Copy, PartialEq, Eq, Structural)]
pub enum FormatKind {
    /// `bar`: a progress indicator
    Bar,
    /// `percent`: a percentage
    Percent,
    /// `ratio`: `n/d`
    Ratio,
    /// `pad`, `lpad`, `rpad`: padded text
    Pad(PadAlign),
    /// `color`: colored text
    Color,
    /// anything else: the value as text
    Plain,
}

/// The format a format name asks for (names are compared exactly).
pub open spec fn format_named(name: Seq<char>) -> FormatKind {
    if name == "bar"@ {
        FormatKind::Bar
    } else if name == "percent"@ {
        FormatKind::Percent
    } else if name == "ratio"@ {
        FormatKind::Ratio
    } else if name == "pad"@ {
        FormatKind::Pad(PadAlign::Center)
    } else if name == "lpad"@ {
        FormatKind::Pad(PadAlign::Left)
    } else if name == "rpad"@ {
        FormatKind::Pad(PadAlign::Right)
    } else if name == "color"@ {
        FormatKind::Color
    } else {
        FormatKind::Plain
    }
}

/// The format that the format name `name` asks for.
pub fn format_kind(name: &str) -> (r: FormatKind)
    ensures
        r == format_named(name@),
{
    if str_eq(name, "bar") {
        FormatKind::Bar
    } else if str_eq(name, "percent") {
        FormatKind::Percent
    } else if str_eq(name, "ratio") {
        FormatKind::Ratio
    } else if str_eq(name, "pad") {
        FormatKind::Pad(PadAlign::Center)
    } else if str_eq(name, "lpad") {
        FormatKind::Pad(PadAlign::Left)
    } else if str_eq(name, "rpad") {
        FormatKind::Pad(PadAlign::Right)
    } else if str_eq(name, "color") {
        FormatKind::Color
    } else {
        FormatKind::Plain
    }
}

/// Where the denominator of a ratio comes from.
#[derive(Debug, Clone)]
pub enum Denominator {
    /// A number written in the format.
    Number(usize),
    /// The variable of that name, when it holds a number.
    Variable(String),
    /// 100.
    Default,
}

/// The denominator a ratio format asks for: its first parameter, as a number when
/// it reads as one, else as a variable name; 100 when there is no parameter.
pub fn ratio_denominator(parts: &Vec<String>) -> (r: Denominator)
    ensures
        match part(strings(parts@), 0) {
            None => r is Default,
            Some(p) => match parsed_usize(p) {
                Some(n) => r matches Denominator::Number(x) && x == n,
                None => r matches Denominator::Variable(v) && v@ == p,
            },
        },
{
    if parts.len() == 0 {
        return Denominator::Default;
    }
    match parse_usize(parts[0].as_str()) {
        Some(n) => Denominator::Number(n),
        None => Denominator::Variable(owned(parts[0].as_str())),
    }
}

/// The standard color names, in the order of the ANSI foreground codes 30 to 37.
pub open spec fn ansi_color_names() -> Seq<Seq<char>> {
    seq!["black"@, "red"@, "green"@, "yellow"@, "blue"@, "magenta"@, "cyan"@, "white"@]
}

proof fn lemma_plain_name(m: Seq<char>)
    requires
        m.len() > 0,
        forall|i: int| 0 <= i < m.len() ==> 'a' <= #[trigger] m[i] && m[i] <= 'z',
    ensures
        trim_seq(m) == m,
        folded(m) == m,
{
    assert(trim_start_seq(m) == m);
    assert(trim_end_seq(m) == m);
    lemma_folded_plain(m);
}

/// A color format naming the `n`-th standard color sets the ANSI foreground code
/// `30 + n` (the escape `ESC [ 3n m`), then gives the text, then resets the color
/// with `ESC [ 0 m`: green is code 32, yellow 33, and so on.
pub proof fn law_color_codes(text: Seq<char>, n: int)
    requires
        0 <= n < 8,
    ensures
        colorized(text, seq![ansi_color_names()[n]]) == Ok::<Seq<char>, Seq<char>>(
            "\x1B["@ + decimal((30 + n) as nat) + "m"@ + text + "\x1B[0m"@,
        ),
{
    reveal_strlit("black");
    reveal_strlit("red");
    reveal_strlit("green");
    reveal_strlit("yellow");
    reveal_strlit("blue");
    reveal_strlit("magenta");
    reveal_strlit("cyan");
    reveal_strlit("white");
    reveal_strlit("reset");
    reveal_strlit("\x1B[");
    reveal_strlit("m");
    reveal_strlit("\x1B[30m");
    reveal_strlit("\x1B[31m");
    reveal_strlit("\x1B[32m");
    reveal_strlit("\x1B[33m");
    reveal_strlit("\x1B[34m");
    reveal_strlit("\x1B[35m");
    reveal_strlit("\x1B[36m");
    reveal_strlit("\x1B[37m");
    let name = ansi_color_names()[n];
    lemma_plain_name(name);
    let k = (30 + n) as nat;
    assert(decimal(k) == decimal(3).push(crate::strs::digit_char(n as nat)));
    assert(decimal(3) == seq!['3']);
    let code = "\x1B["@ + decimal(k) + "m"@;
    match color_named(name) {
        Some(c) => {
            assert(code =~= ansi_code(c));
        },
        None => {},
    }
}

/// Distinct colors start their text with distinct ANSI codes.
pub proof fn law_color_codes_distinct(a: ColorName, b: ColorName)
    requires
        a != b,
    ensures
        ansi_code(a) != ansi_code(b),
{
    reveal_strlit("\x1B[30m");
    reveal_strlit("\x1B[31m");
    reveal_strlit("\x1B[32m");
    reveal_strlit("\x1B[33m");
    reveal_strlit("\x1B[34m");
    reveal_strlit("\x1B[35m");
    reveal_strlit("\x1B[36m");
    reveal_strlit("\x1B[37m");
    reveal_strlit("\x1B[0m");
    if a == ColorName::Reset || b == ColorName::Reset {
        assert(ansi_code(a).len() != ansi_code(b).len());
    } else {
        assert(ansi_code(a)[3] != ansi_code(b)[3]);
    }
}

/// A braille bar of `width` cells shows, from the left: full cells `⣿` for the
/// `filled` cells; then, when `partial` is not 0 and there is room, the partial
/// pattern of `partial` eighths, which is neither full nor empty and differs for
/// each `partial`; then empty cells `⠄`.
pub proof fn law_braille_cells(filled: nat, partial: nat, width: nat)
    requires
        partial < 8,
    ensures
        braille_text(filled, partial, width).len() == width,
        forall|i: int| 0 <= i < width && i < filled ==> braille_text(filled, partial, width)[i] == '\u{28ff}',
        0 < partial && filled < width ==> {
            let c = braille_text(filled, partial, width)[filled as int];
            &&& c == braille_partials()[partial as int]
            &&& c != '\u{2804}'
            &&& c != '\u{28ff}'
        },
        forall|i: int|
            0 <= i < width && filled <= i && !(i == filled && partial > 0) ==> braille_text(filled, partial, width)[i]
                == '\u{2804}',
        forall|a: int, b: int| 0 < a < b < 8 ==> braille_partials()[a] != braille_partials()[b],
{
}

/// A dots bar of `width` cells shows, from the left: full cells for the `filled`
/// cells; then, when `partial` is not 0 and there is room, the level of
/// `partial` eighths, which is not empty and differs for each `partial`; then
/// empty cells.
pub proof fn law_dots_cells(filled: nat, partial: nat, width: nat)
    requires
        partial < 9,
    ensures
        dots_text(filled, partial, width).len() == width,
        forall|i: int| 0 <= i < width && i < filled ==> dots_text(filled, partial, width)[i] == '\u{28ff}',
        0 < partial && filled < width ==> {
            let c = dots_text(filled, partial, width)[filled as int];
            &&& c == dot_levels()[partial as int]
            &&& c != '\u{2800}'
        },
        forall|i: int|
            0 <= i < width && filled <= i && !(i == filled && partial > 0) ==> dots_text(filled, partial, width)[i]
                == '\u{2800}',
        forall|a: int, b: int| 0 <= a < b < 9 ==> dot_levels()[a] != dot_levels()[b],
{
}

/// The format names that pad: `lpad` puts the spaces before the text
/// (right-aligning it), `rpad` after it (left-aligning it), and `pad` on both
/// sides, the smaller half before; text at least `w` characters long is left as
/// it is.
pub proof fn law_pad_formats(t: Seq<char>, w: nat)
    ensures
        format_named("lpad"@) matches FormatKind::Pad(a) && padded(t, a, w) == if w <= t.len() {
            t
        } else {
            Seq::new((w - t.len()) as nat, |i: int| ' ') + t
        },
        format_named("rpad"@) matches FormatKind::Pad(a) && padded(t, a, w) == if w <= t.len() {
            t
        } else {
            t + Seq::new((w - t.len()) as nat, |i: int| ' ')
        },
        format_named("pad"@) matches FormatKind::Pad(a) && padded(t, a, w) == if w <= t.len() {
            t
        } else {
            Seq::new(((w - t.len()) / 2) as nat, |i: int| ' ') + t + Seq::new(
                ((w - t.len()) - (w - t.len()) / 2) as nat,
                |i: int| ' ',
            )
        },
{
    reveal_strlit("bar");
    reveal_strlit("percent");
    reveal_strlit("ratio");
    reveal_strlit("pad");
    reveal_strlit("lpad");
    reveal_strlit("rpad");
    assert("lpad"@ != "pad"@ && "rpad"@ != "pad"@ && "rpad"@ != "lpad"@ && "lpad"@ != "bar"@ && "rpad"@ != "bar"@
        && "lpad"@ != "ratio"@ && "rpad"@ != "ratio"@ && "lpad"@ != "percent"@ && "rpad"@ != "percent"@) by {
        assert("lpad"@[0] != "pad"@[0] && "rpad"@[0] != "pad"@[0] && "rpad"@[0] != "lpad"@[0]);
        assert("lpad"@.len() != "bar"@.len() && "rpad"@.len() != "bar"@.len());
        assert("lpad"@[0] != "ratio"@[0] && "rpad"@.len() != "ratio"@.len());
        assert("lpad"@.len() != "percent"@.len() && "rpad"@.len() != "percent"@.len());
    }
    assert("pad"@ != "bar"@ && "pad"@ != "percent"@ && "pad"@ != "ratio"@) by {
        assert("pad"@[0] != "bar"@[0] && "pad"@.len() != "percent"@.len() && "pad"@.len() != "ratio"@.len());
    }
    assert(format_named("lpad"@) == FormatKind::Pad(PadAlign::Left));
    assert(format_named("rpad"@) == FormatKind::Pad(PadAlign::Right));
    assert(format_named("pad"@) == FormatKind::Pad(PadAlign::Center));
    if w > t.len() {
        let n = (w - t.len()) as nat;
        let h = n / 2;
        let r = (n - n / 2) as nat;
        assert(spaces(n) =~= Seq::new(n, |i: int| ' '));
        assert(spaces(h) =~= Seq::new(h, |i: int| ' '));
        assert(spaces(r) =~= Seq::new(r, |i: int| ' '));
        assert(padded(t, PadAlign::Left, w) == Seq::new(n, |i: int| ' ') + t);
        assert(padded(t, PadAlign::Right, w) == t + Seq::new(n, |i: int| ' '));
        assert(padded(t, PadAlign::Center, w) == Seq::new(h, |i: int| ' ') + t + Seq::new(r, |i: int| ' '));
    }
}

/// An uncolored bar of `width` cells with `filled` of them filled lies between its
/// two bracket characters: the first `filled` cells (all of them, when `filled`
/// is more than `width`) are the fill character, the others the empty one.
pub proof fn law_bar_cells(st: BarStyle, filled: nat, width: nat, fill_open: Seq<char>, empty_open: Seq<char>, reset: Seq<char>)
    requires
        st.fill_color is None,
        st.empty_color is None,
    ensures
        ({
            let t = bar_text_with(st, filled, width, fill_open, empty_open, reset);
            &&& t.len() == width + 2
            &&& t[0] == st.left
            &&& t[width + 1int] == st.right
            &&& forall|i: int| 0 <= i < width ==> #[trigger] t[i + 1] == if i < filled {
                st.fill
            } else {
                st.empty
            }
        }),
{
    let t = bar_text_with(st, filled, width, fill_open, empty_open, reset);
    let f = min_nat(filled, width);
    assert forall|i: int| 0 <= i < width implies #[trigger] t[i + 1] == if i < filled {
        st.fill
    } else {
        st.empty
    } by {
        if i < f {
            assert(t[i + 1] == repeat(st.fill, f)[i]);
        } else {
            assert(t[i + 1] == repeat(st.empty, (width - f) as nat)[i - f]);
        }
    }
}

/// A colored part of a bar is opened by its escape and closed by the reset: with
/// both parts colored, the bar is its left bracket, the fill opening, the filled
/// cells, the reset, the empty opening, the empty cells, the reset and its right
/// bracket.
pub proof fn law_bar_colored(st: BarStyle, filled: nat, width: nat, fill_open: Seq<char>, empty_open: Seq<char>, reset: Seq<char>)
    requires
        st.fill_color is Some,
        st.empty_color is Some,
        filled <= width,
    ensures
        bar_text_with(st, filled, width, fill_open, empty_open, reset) == seq![st.left] + fill_open + Seq::new(
            filled,
            |i: int| st.fill,
        ) + reset + empty_open + Seq::new((width - filled) as nat, |i: int| st.empty) + reset + seq![st.right],
{
    assert(bar_text_with(st, filled, width, fill_open, empty_open, reset) =~= seq![st.left] + fill_open + Seq::new(
        filled,
        |i: int| st.fill,
    ) + reset + empty_open + Seq::new((width - filled) as nat, |i: int| st.empty) + reset + seq![st.right]);
}

/// An interactive bar of width `w` lies between `[` and `]`: its cells before
/// `filled` are the fill character, the cell at `filled` the cursor, the cells
/// after it the background.
pub proof fn law_interactive_cells(st: InteractiveStyle, filled: nat)
    ensures
        ({
            let t = interactive_text(st, filled);
            &&& t.len() == st.width + 2
            &&& t[0] == '['
            &&& t[st.width + 1] == ']'
            &&& forall|i: int| 0 <= i < st.width ==> #[trigger] t[i + 1] == if i < filled {
                st.fill
            } else if i == filled {
                st.cursor
            } else {
                st.background
            }
        }),
{
    reveal_strlit("[");
    reveal_strlit("]");
    let t = interactive_text(st, filled);
    let cells = Seq::new(st.width as nat, |i: int| interactive_cell(st, filled, i));
    assert forall|i: int| 0 <= i < st.width implies #[trigger] t[i + 1] == cells[i] by {}
}

proof fn lemma_gradient_cells(filled: nat, n: nat, a: char, b: char)
    ensures
        gradient_cells_with(filled, n, seq![a], seq![b]) == Seq::new(
            n,
            |i: int| if i < filled {
                if 2 * i < filled {
                    a
                } else {
                    b
                }
            } else {
                ' '
            },
        ),
    decreases n,
{
    if n > 0 {
        lemma_gradient_cells(filled, (n - 1) as nat, a, b);
        assert(gradient_cells_with(filled, n, seq![a], seq![b]) =~= Seq::new(
            n,
            |i: int| if i < filled {
                if 2 * i < filled {
                    a
                } else {
                    b
                }
            } else {
                ' '
            },
        ));
    } else {
        assert(gradient_cells_with(filled, n, seq![a], seq![b]) =~= Seq::<char>::empty());
    }
}

/// A gradient bar of width `w` with one-character cells lies between `[` and `]`:
/// a filled cell `i` is the start cell while `i / filled` is below one half and
/// the end cell from there on; the cells from `filled` on are spaces.
pub proof fn law_gradient_cells(width: nat, filled: nat, a: char, b: char)
    ensures
        ({
            let t = gradient_text_with(width, filled, seq![a], seq![b]);
            &&& t.len() == width + 2
            &&& t[0] == '['
            &&& t[width + 1int] == ']'
            &&& forall|i: int| 0 <= i < width ==> #[trigger] t[i + 1] == if i < filled {
                if 2 * i < filled {
                    a
                } else {
                    b
                }
            } else {
                ' '
            }
        }),
{
    reveal_strlit("[");
    reveal_strlit("]");
    lemma_gradient_cells(filled, width, a, b);
    let t = gradient_text_with(width, filled, seq![a], seq![b]);
    let cells = gradient_cells_with(filled, width, seq![a], seq![b]);
    assert forall|i: int| 0 <= i < width implies #[trigger] t[i + 1] == cells[i] by {}
}

proof fn lemma_color_name_keys()
    ensures
        "black"@.len() == 5 && "black"@[0] == 'b',
        "red"@.len() == 3 && "red"@[0] == 'r',
        "green"@.len() == 5 && "green"@[0] == 'g',
        "yellow"@.len() == 6 && "yellow"@[0] == 'y',
        "blue"@.len() == 4 && "blue"@[0] == 'b',
        "magenta"@.len() == 7 && "magenta"@[0] == 'm',
        "cyan"@.len() == 4 && "cyan"@[0] == 'c',
        "white"@.len() == 5 && "white"@[0] == 'w',
        "reset"@.len() == 5 && "reset"@[0] == 'r',
{
    reveal_strlit("black");
    reveal_strlit("red");
    reveal_strlit("green");
    reveal_strlit("yellow");
    reveal_strlit("blue");
    reveal_strlit("magenta");
    reveal_strlit("cyan");
    reveal_strlit("white");
    reveal_strlit("reset");
}

/// The color names a gradient accepts mean what they mean in a color format:
/// each of `red`, `green`, `blue`, `yellow`, `magenta` and `cyan` is the color of
/// that name; any other text leaves the default.
pub proof fn law_gradient_color_names(m: Seq<char>, default: ColorName)
    ensures
        (m == "red"@ || m == "green"@ || m == "blue"@ || m == "yellow"@ || m == "magenta"@ || m == "cyan"@)
            ==> color_named(m) == Some(gradient_color(Some(m), default)),
        !(m == "red"@ || m == "green"@ || m == "blue"@ || m == "yellow"@ || m == "magenta"@ || m == "cyan"@)
            ==> gradient_color(Some(m), default) == default,
        gradient_color(None, default) == default,
{
    lemma_color_name_keys();
}

/// Each color's foreground parameters, told apart by their length and last character.
proof fn lemma_fg_key(c: ColorName)
    ensures
        (fg_params(c).len(), fg_params(c).last()) == match c {
            ColorName::Black => (6nat, '0'),
            ColorName::Red => (6nat, '9'),
            ColorName::Green => (7nat, '0'),
            ColorName::Yellow => (7nat, '1'),
            ColorName::Blue => (7nat, '2'),
            ColorName::Magenta => (7nat, '3'),
            ColorName::Cyan => (7nat, '4'),
            ColorName::White => (7nat, '5'),
            ColorName::Reset => (2nat, '9'),
        },
{
    reveal_strlit("38;5;0");
    reveal_strlit("38;5;9");
    reveal_strlit("38;5;10");
    reveal_strlit("38;5;11");
    reveal_strlit("38;5;12");
    reveal_strlit("38;5;13");
    reveal_strlit("38;5;14");
    reveal_strlit("38;5;15");
    reveal_strlit("39");
}

/// Distinct colors are set by distinct foreground escapes.
pub proof fn law_fg_distinct(a: ColorName, b: ColorName)
    requires
        a != b,
    ensures
        fg_params(a) != fg_params(b),
        fg_text(a, true) != fg_text(b, true),
{
    lemma_fg_key(a);
    lemma_fg_key(b);
    reveal_strlit("\x1b[");
    reveal_strlit("m");
    let pa = fg_params(a);
    let pb = fg_params(b);
    if fg_text(a, true) == fg_text(b, true) {
        assert(fg_text(a, true).len() == pa.len() + 3);
        assert(pa =~= fg_text(a, true).subrange(2, pa.len() + 2int));
        assert(pb =~= fg_text(b, true).subrange(2, pb.len() + 2int));
    }
}

/// A bar with no parameters is its filled cells in the default fill character
/// followed by spaces, between `[` and `]`, with no color escapes, whatever
/// escapes would have been used.
pub proof fn law_default_bar(default_fill: char, filled: nat, width: nat, fill_open: Seq<char>, empty_open: Seq<char>, reset: Seq<char>)
    ensures
        bar_text_with(bar_style_of(Seq::empty(), default_fill), filled, width, fill_open, empty_open, reset) == seq!['[']
            + Seq::new(if filled < width { filled } else { width }, |i: int| default_fill) + Seq::new(
            (width - if filled < width { filled } else { width }) as nat,
            |i: int| ' ',
        ) + seq![']'],
{
    let st = bar_style_of(Seq::empty(), default_fill);
    assert(st.fill_color is None && st.empty_color is None);
    let f = if filled < width { filled } else { width };
    assert(bar_text_with(st, filled, width, fill_open, empty_open, reset) =~= seq!['['] + Seq::new(
        f,
        |i: int| default_fill,
    ) + Seq::new((width - f) as nat, |i: int| ' ') + seq![']']);
}

/// An interactive bar with no parameters draws `=` before the cursor `>` and
/// spaces after it.
pub proof fn law_default_interactive(width: usize)
    ensures
        interactive_style_of(Seq::empty(), width) == (InteractiveStyle { width, fill: '=', background: ' ', cursor: '>' }),
{
}

/// A spinner with no parameters turns through `-`, `\`, `|` and `/`.
pub proof fn law_default_spinner()
    ensures
        spinner_frames_of(Seq::empty()) == seq!['-', '\\', '|', '/'],
{
    reveal_strlit("-\\|/");
    assert(spinner_frames_of(Seq::empty()) =~= seq!['-', '\\', '|', '/']);
}

} // verus!
