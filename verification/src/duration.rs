//! Human-readable durations such as `1h15m30s`, as the command line takes them.
use vstd::prelude::*;
use crate::bars::{digits_value, is_digit};
use crate::strs::{chars_of, is_whitespace, is_ws, owned, push_char, push_str};

verus! {

/// The state of reading a duration: the seconds so far, the digits not yet given
/// a unit, whether a number has been read, and the error, once there is one.
pub struct DurationScan {
    pub total: nat,
    pub digits: Seq<char>,
    pub has_unit: bool,
    pub error: Option<Seq<char>>,
}

/// The value of a run of digits, when there is one and it fits in a `u64`.
pub open spec fn digits_u64(d: Seq<char>) -> Option<nat> {
    if d.len() > 0 && digits_value(d) <= u64::MAX {
        Some(digits_value(d))
    } else {
        None
    }
}

/// The seconds in one of a unit: `s`, `m`, `h` or `d`.
pub open spec fn unit_seconds(c: char) -> Option<nat> {
    if c == 's' {
        Some(1)
    } else if c == 'm' {
        Some(60)
    } else if c == 'h' {
        Some(3600)
    } else if c == 'd' {
        Some(86400)
    } else {
        None
    }
}

/// One character of a duration: a digit extends the number; after a number, a
/// unit adds it to the total (any other character is an unknown unit);
/// whitespace elsewhere is skipped; anything else is an error.
pub open spec fn scan_step(st: DurationScan, c: char) -> DurationScan {
    if st.error is Some {
        st
    } else if is_digit(c) {
        DurationScan { digits: st.digits.push(c), ..st }
    } else if digits_u64(st.digits) is Some {
        let num = digits_u64(st.digits).unwrap();
        match unit_seconds(c) {
            Some(k) => DurationScan { total: st.total + num * k, digits: Seq::empty(), has_unit: true, ..st },
            None => DurationScan { error: Some("Invalid duration unit: "@ + seq![c]), ..st },
        }
    } else if !is_ws(c) {
        DurationScan { error: Some("Invalid character in duration: "@ + seq![c]), ..st }
    } else {
        st
    }
}

/// The state after reading all of `s`.
pub open spec fn scan_all(s: Seq<char>) -> DurationScan
    decreases s.len(),
{
    if s.len() == 0 {
        DurationScan { total: 0, digits: Seq::empty(), has_unit: false, error: None }
    } else {
        scan_step(scan_all(s.drop_last()), s.last())
    }
}

/// The seconds a duration text stands for, or its error: digits left at the end
/// count as seconds.
pub open spec fn duration_seconds(s: Seq<char>) -> Result<nat, Seq<char>> {
    let st = scan_all(s);
    match st.error {
        Some(e) => Err(e),
        None => if st.digits.len() > 0 {
            match digits_u64(st.digits) {
                Some(n) => Ok(st.total + n),
                None => Err("Invalid number in duration"@),
            }
        } else if st.has_unit {
            Ok(st.total)
        } else {
            Err("Duration must include a number"@)
        },
    }
}

/// The largest number of seconds reached while reading `s`.
pub open spec fn duration_peak(s: Seq<char>) -> nat {
    let st = scan_all(s);
    match duration_seconds(s) {
        Ok(n) => n,
        Err(_) => st.total,
    }
}

proof fn lemma_scan_total_grows(s: Seq<char>, k: int)
    requires
        0 <= k <= s.len(),
    ensures
        scan_all(s.take(k)).total <= scan_all(s).total,
        scan_all(s.take(k)).error is Some ==> scan_all(s) == scan_all(s.take(k)),
    decreases s.len() - k,
{
    if k < s.len() {
        lemma_scan_total_grows(s, k + 1);
        assert(s.take(k + 1).drop_last() =~= s.take(k));
    } else {
        assert(s.take(k) =~= s);
    }
}

/// The value of the digits `d`, when it fits in a `u64`.
fn digits_to_u64(d: &Vec<char>) -> (r: Option<u64>)
    requires
        forall|i: int| 0 <= i < d@.len() ==> is_digit(#[trigger] d@[i]),
    ensures
        r matches Some(v) ==> digits_u64(d@) == Some(v as nat),
        r is None ==> digits_u64(d@) is None,
{
    if d.len() == 0 {
        return None;
    }
    let mut value: u64 = 0;
    let mut i: usize = 0;
    while i < d.len()
        invariant
            i <= d@.len(),
            forall|k: int| 0 <= k < d@.len() ==> is_digit(#[trigger] d@[k]),
            value as nat == digits_value(d@.take(i as int)),
        decreases d@.len() - i,
    {
        proof {
            assert(d@.take(i as int + 1).drop_last() =~= d@.take(i as int));
        }
        let digit = (d[i] as u32 - '0' as u32) as u64;
        match value.checked_mul(10) {
            Some(v) => match v.checked_add(digit) {
                Some(w) => {
                    value = w;
                },
                None => {
                    proof {
                        lemma_digits_prefix(d@, i as int + 1);
                    }
                    return None;
                },
            },
            None => {
                proof {
                    lemma_digits_prefix(d@, i as int + 1);
                }
                return None;
            },
        }
        i = i + 1;
    }
    assert(d@.take(d@.len() as int) =~= d@);
    Some(value)
}

proof fn lemma_digits_prefix(d: Seq<char>, k: int)
    requires
        0 <= k <= d.len(),
    ensures
        digits_value(d.take(k)) <= digits_value(d),
    decreases d.len() - k,
{
    if k < d.len() {
        lemma_digits_prefix(d, k + 1);
        assert(d.take(k + 1).drop_last() =~= d.take(k));
    } else {
        assert(d.take(k) =~= d);
    }
}

/// The seconds a human-readable duration stands for, as `duration_seconds` says;
/// `None` when the seconds reached on the way do not fit in a `u64`.
pub fn try_parse_duration(s: &str) -> (r: Option<Result<u64, String>>)
    ensures
        r is None <==> duration_peak(s@) > u64::MAX,
        r matches Some(x) ==> match duration_seconds(s@) {
            Ok(n) => x == Ok::<u64, String>(n as u64),
            Err(m) => x matches Err(e) && e@ == m,
        },
{
    let chars = chars_of(s);
    let mut total: u64 = 0;
    let mut digits: Vec<char> = Vec::new();
    let mut has_unit = false;
    let mut i: usize = 0;
    while i < chars.len()
        invariant
            i <= chars@.len(),
            chars@ == s@,
            scan_all(chars@.take(i as int)) == (DurationScan {
                total: total as nat,
                digits: digits@,
                has_unit,
                error: None,
            }),
            forall|k: int| 0 <= k < digits@.len() ==> is_digit(#[trigger] digits@[k]),
        decreases chars@.len() - i,
    {
        let c = chars[i];
        let ghost before = scan_all(chars@.take(i as int));
        proof {
            assert(chars@.take(i as int + 1).drop_last() =~= chars@.take(i as int));
            assert(chars@.take(i as int + 1).last() == c);
            lemma_scan_total_grows(chars@, i as int + 1);
            assert(chars@.take(chars@.len() as int) =~= chars@);
        }
        if '0' <= c && c <= '9' {
            digits.push(c);
        } else {
            match digits_to_u64(&digits) {
                Some(num) => {
                    let k: u64 = if c == 's' {
                        1
                    } else if c == 'm' {
                        60
                    } else if c == 'h' {
                        3600
                    } else if c == 'd' {
                        86400
                    } else {
                        let mut m = owned("Invalid duration unit: ");
                        push_char(&mut m, c);
                        proof {
                            lemma_scan_total_grows(chars@, i as int + 1);
                            lemma_peak_bounds(s@);
                        }
                        return Some(Err(m));
                    };
                    proof {
                        let after = scan_all(chars@.take(i as int + 1));
                        assert(after.total == total + num * k);
                        lemma_peak_bounds(s@);
                        lemma_scan_total_grows(s@, i as int + 1);
                    }
                    let sum = match num.checked_mul(k) {
                        Some(p) => total.checked_add(p),
                        None => None,
                    };
                    let new_total = match sum {
                        Some(t) => t,
                        None => {
                            proof {
                                assert(total + num * k > u64::MAX) by (nonlinear_arith)
                                    requires
                                        num * k > u64::MAX || total + num * k > u64::MAX,
                                        total >= 0,
                                ;
                            }
                            return None;
                        },
                    };
                    total = new_total;
                    digits = Vec::new();
                    has_unit = true;
                },
                None => {
                    if !is_whitespace(c) {
                        let mut m = owned("Invalid character in duration: ");
                        push_char(&mut m, c);
                        proof {
                            lemma_scan_total_grows(chars@, i as int + 1);
                            lemma_peak_bounds(s@);
                        }
                        return Some(Err(m));
                    }
                },
            }
        }
        i = i + 1;
        assert(digits@ =~= scan_all(chars@.take(i as int)).digits);
    }
    assert(chars@.take(chars@.len() as int) =~= chars@);
    if digits.len() > 0 {
        match digits_to_u64(&digits) {
            Some(num) => {
                match total.checked_add(num) {
                    Some(t) => {
                        total = t;
                    },
                    None => {
                        return None;
                    },
                }
                has_unit = true;
            },
            None => {
                return Some(Err(owned("Invalid number in duration")));
            },
        }
    }
    if !has_unit {
        return Some(Err(owned("Duration must include a number")));
    }
    Some(Ok(total))
}

/// The peak bounds every total reached.
proof fn lemma_peak_bounds(s: Seq<char>)
    ensures
        scan_all(s).total <= duration_peak(s),
{
}

/// A duration in whole seconds.
#[derive(Debug, Clone, Copy, PartialEq, Eq, Structural)]
pub struct HumanDuration {
    pub seconds: u64,
}

impl HumanDuration {
    /// Reads a human-readable duration such as `1h15m30s` or `90`.
    pub fn from_str(s: &str) -> (r: Result<Self, String>)
        requires
            duration_peak(s@) <= u64::MAX,
        ensures
            match duration_seconds(s@) {
                Ok(n) => r matches Ok(d) && d.seconds == n,
                Err(m) => r matches Err(x) && x@ == m,
            },
    {
        match try_parse_duration(s) {
            Some(Ok(n)) => Ok(HumanDuration { seconds: n }),
            Some(Err(m)) => Err(m),
            None => {
                assert(false);
                Err(String::new())
            },
        }
    }
}

} // verus!
