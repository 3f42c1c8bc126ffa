//! Comparing what a terminal shows with what a test expected it to show.
use vstd::prelude::*;
use crate::strs::{chars_of, decimal, owned, push_decimal, push_str, str_eq, string_of, strings, trim_end_chars, trim_end_seq};

verus! {

/// Whether `p` occurs in `s` starting at index `i`.
pub open spec fn occurs_at(s: Seq<char>, p: Seq<char>, i: int) -> bool {
    0 <= i && i + p.len() <= s.len() && s.subrange(i, i + p.len()) == p
}

/// Whether `p` occurs somewhere in `s`.
pub open spec fn has_infix(s: Seq<char>, p: Seq<char>) -> bool {
    exists|i: int| occurs_at(s, p, i)
}

fn matches_at(s: &[char], p: &[char], i: usize) -> (r: bool)
    requires
        i + p@.len() <= s@.len(),
    ensures
        r == occurs_at(s@, p@, i as int),
{
    let mut j: usize = 0;
    while j < p.len()
        invariant
            j <= p@.len(),
            i + p@.len() <= s@.len(),
            s@.len() == s.len(),
            forall|k: int| 0 <= k < j ==> s@[i + k] == p@[k],
        decreases p@.len() - j,
    {
        if s[i + j] != p[j] {
            assert(s@.subrange(i as int, i + p@.len())[j as int] == s@[i + j]);
            return false;
        }
        j = j + 1;
    }
    assert(s@.subrange(i as int, i + p@.len()) =~= p@);
    true
}

/// Whether the characters `p` occur together somewhere in `s`.
pub fn contains_chars(s: &[char], p: &[char]) -> (r: bool)
    ensures
        r == has_infix(s@, p@),
{
    if p.len() > s.len() {
        return false;
    }
    let last = s.len() - p.len();
    let mut i: usize = 0;
    loop
        invariant
            i <= last,
            last + p@.len() == s@.len(),
            forall|k: int| 0 <= k < i ==> !occurs_at(s@, p@, k),
        decreases last - i,
    {
        if matches_at(s, p, i) {
            return true;
        }
        if i == last {
            return false;
        }
        i = i + 1;
    }
}

/// The line that thread `t` writes as its message `m`.
pub open spec fn thread_message(t: nat, m: nat) -> Seq<char> {
    "Thread "@ + decimal(t) + ": Message "@ + decimal(m)
}

/// What marks the output of thread `t` on the screen.
pub open spec fn thread_marker(t: nat) -> Seq<char> {
    "Thread "@ + decimal(t) + ": Message"@
}

/// Whether the screen holds the output of several threads at once, which
/// may interleave in any order.
pub open spec fn is_concurrent(actual: Seq<char>) -> bool {
    &&& has_infix(actual, thread_marker(0))
    &&& has_infix(actual, thread_marker(1))
    &&& has_infix(actual, thread_marker(2))
}

/// The messages, among the first `k` of threads 0 to 4 with messages 0 to 4
/// (thread by thread), that were expected and are not on the screen.
pub open spec fn missing_upto(actual: Seq<char>, expected: Seq<char>, k: nat) -> Seq<Seq<char>>
    decreases k,
{
    if k == 0 {
        Seq::empty()
    } else {
        let before = missing_upto(actual, expected, (k - 1) as nat);
        let p = thread_message(((k - 1) / 5) as nat, ((k - 1) % 5) as nat);
        if has_infix(expected, p) && !has_infix(actual, p) {
            before.push(p)
        } else {
            before
        }
    }
}

/// The expected messages that the screen lacks.
pub open spec fn missing_messages(actual: Seq<char>, expected: Seq<char>) -> Seq<Seq<char>> {
    missing_upto(actual, expected, 25)
}

/// Whether a screen that is not concurrent shows what was expected: equal up to
/// trailing whitespace, where nothing expected accepts anything.
pub open spec fn plain_match(actual: Seq<char>, expected: Seq<char>) -> bool {
    trim_end_seq(expected).len() == 0 || trim_end_seq(actual) == trim_end_seq(expected)
}

/// How a screen differs from what was expected.
#[derive(Debug, Clone, PartialEq, Eq)]
pub enum ScreenMismatch {
    /// Output of several threads, lacking these expected messages.
    MissingMessages(Vec<String>),
    /// The screen's text differs from the expected text.
    Differs,
}

fn message_text(t: u64, m: u64) -> (r: String)
    ensures
        r@ == thread_message(t as nat, m as nat),
{
    let mut s = owned("Thread ");
    push_decimal(&mut s, t);
    push_str(&mut s, ": Message ");
    push_decimal(&mut s, m);
    s
}

fn marker_text(t: u64) -> (r: String)
    ensures
        r@ == thread_marker(t as nat),
{
    let mut s = owned("Thread ");
    push_decimal(&mut s, t);
    push_str(&mut s, ": Message");
    s
}

fn shows(screen: &[char], text: &String) -> (r: bool)
    ensures
        r == has_infix(screen@, text@),
{
    let v = chars_of(text.as_str());
    contains_chars(screen, v.as_slice())
}

/// Checks a screen against what was expected. A screen with the output of
/// threads 0, 1 and 2 passes when every expected message `Thread t: Message m`
/// (t and m below 5) is on it; any other screen passes when it equals the
/// expected text up to trailing whitespace, or nothing was expected.
pub fn check_screen(actual: &str, expected: &str) -> (r: Result<(), ScreenMismatch>)
    ensures
        is_concurrent(actual@) ==> match r {
            Ok(()) => missing_messages(actual@, expected@).len() == 0,
            Err(ScreenMismatch::MissingMessages(v)) => strings(v@) == missing_messages(actual@, expected@)
                && v@.len() > 0,
            Err(ScreenMismatch::Differs) => false,
        },
        !is_concurrent(actual@) ==> match r {
            Ok(()) => plain_match(actual@, expected@),
            Err(ScreenMismatch::Differs) => !plain_match(actual@, expected@),
            Err(ScreenMismatch::MissingMessages(_)) => false,
        },
{
    let a = chars_of(actual);
    let e = chars_of(expected);
    let concurrent = shows(a.as_slice(), &marker_text(0)) && shows(a.as_slice(), &marker_text(1))
        && shows(a.as_slice(), &marker_text(2));
    if concurrent {
        let mut missing: Vec<String> = Vec::new();
        let mut k: u64 = 0;
        while k < 25
            invariant
                k <= 25,
                a@ == actual@,
                e@ == expected@,
                strings(missing@) == missing_upto(actual@, expected@, k as nat),
            decreases 25 - k,
        {
            let p = message_text(k / 5, k % 5);
            if shows(e.as_slice(), &p) && !shows(a.as_slice(), &p) {
                missing.push(p);
            }
            k = k + 1;
            assert(strings(missing@) =~= missing_upto(actual@, expected@, k as nat));
        }
        if missing.len() == 0 {
            return Ok(());
        }
        return Err(ScreenMismatch::MissingMessages(missing));
    }
    let ta = trim_end_chars(a.as_slice());
    let te = trim_end_chars(e.as_slice());
    if te.len() == 0 {
        return Ok(());
    }
    let sa = string_of(ta.as_slice());
    let se = string_of(te.as_slice());
    if str_eq(sa.as_str(), se.as_str()) {
        Ok(())
    } else {
        Err(ScreenMismatch::Differs)
    }
}

} // verus!
