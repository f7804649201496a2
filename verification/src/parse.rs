//! Parsing the numeric prefix of a string.
//!
//! The grammar is one or more decimal digits, optionally followed by a dot
//! and one or more further digits — the leading-number shape a client may
//! send where a number is wanted.  [`numeric_prefix`] takes the longest
//! such prefix; [`parse_u8`] and [`parse_i32`] then read it as an integer
//! exactly when it has no fractional part and fits the target type.

use vstd::prelude::*;
use vstd::string::{StrSliceExecFns, StringExecFns};

verus! {

/// Whether `c` is a decimal digit.
pub open spec fn is_digit(c: char) -> bool {
    '0' <= c && c <= '9'
}

/// Whether every character of `s` is a decimal digit.
pub open spec fn all_digits(s: Seq<char>) -> bool {
    forall|i: int| 0 <= i < s.len() ==> is_digit(#[trigger] s[i])
}

/// The first position at or after `from` holding no digit (or the end).
pub open spec fn digit_run_end(s: Seq<char>, from: int) -> int
    recommends
        0 <= from <= s.len(),
    decreases s.len() - from when 0 <= from <= s.len()
{
    if from >= s.len() || !is_digit(s[from]) {
        from
    } else {
        digit_run_end(s, from + 1)
    }
}

/// How many characters the numeric prefix of `s` spans: the leading digit
/// run, extended over a dot exactly when at least one digit follows it.
/// Zero when `s` does not start with a digit.
pub open spec fn numeric_prefix_len(s: Seq<char>) -> int {
    let i = digit_run_end(s, 0);
    if i == 0 {
        0
    } else if i + 1 < s.len() && s[i] == '.' && is_digit(s[i + 1]) {
        digit_run_end(s, i + 1)
    } else {
        i
    }
}

/// The numeric prefix of `s`, or `None` when `s` starts with no digit.
pub open spec fn numeric_prefix_spec(s: Seq<char>) -> Option<Seq<char>> {
    if numeric_prefix_len(s) == 0 {
        None
    } else {
        Some(s.subrange(0, numeric_prefix_len(s)))
    }
}

/// The image of an optional string.
pub open spec fn opt_str_view(o: Option<String>) -> Option<Seq<char>> {
    match o {
        Some(p) => Some(p@),
        None => None,
    }
}

/// A digit run ends exactly at the first non-digit position.
proof fn lemma_digit_run_end_is(s: Seq<char>, from: int, end: int)
    requires
        0 <= from <= end <= s.len(),
        forall|j: int| from <= j < end ==> is_digit(#[trigger] s[j]),
        end == s.len() || !is_digit(s[end]),
    ensures
        digit_run_end(s, from) == end,
    decreases end - from,
{
    if from < end {
        lemma_digit_run_end_is(s, from + 1, end);
    }
}

/// The value of a digit string read in base ten.
pub open spec fn digits_value(s: Seq<char>) -> int
    decreases s.len(),
{
    if s.len() == 0 {
        0
    } else {
        digits_value(s.subrange(0, s.len() - 1)) * 10 + (s[s.len() - 1] as int - 48)
    }
}

/// On digit strings the value is nonnegative and grows with every further
/// digit.
proof fn lemma_digits_value_monotone(s: Seq<char>, i: int, j: int)
    requires
        0 <= i <= j <= s.len(),
        all_digits(s),
    ensures
        0 <= digits_value(s.subrange(0, i)) <= digits_value(s.subrange(0, j)),
    decreases j,
{
    if i > 0 && i == j {
        let p = s.subrange(0, i);
        assert(p.subrange(0, i - 1) =~= s.subrange(0, i - 1));
        assert(is_digit(s[i - 1]));
        lemma_digits_value_monotone(s, i - 1, i - 1);
    } else if i < j {
        lemma_digits_value_monotone(s, i, j - 1);
        let p = s.subrange(0, j);
        assert(p.subrange(0, j - 1) =~= s.subrange(0, j - 1));
        assert(is_digit(s[j - 1]));
        lemma_digits_value_monotone(s, j - 1, j - 1);
    }
}

/// The longest prefix of `s` matching the numeric grammar, or `None` when
/// `s` starts with no digit.
pub fn numeric_prefix(s: &str) -> (r: Option<String>)
    ensures
        opt_str_view(r) == numeric_prefix_spec(s@),
{
    let n = s.unicode_len();
    let mut i: usize = 0;
    while i < n
        invariant
            0 <= i <= n,
            n == s@.len(),
            forall|j: int| 0 <= j < i ==> is_digit(#[trigger] s@[j]),
        ensures
            0 <= i <= n,
            forall|j: int| 0 <= j < i ==> is_digit(#[trigger] s@[j]),
            i == n || !is_digit(s@[i as int]),
        decreases n - i,
    {
        let c = s.get_char(i);
        if !(c >= '0' && c <= '9') {
            break;
        }
        i = i + 1;
    }
    proof {
        lemma_digit_run_end_is(s@, 0, i as int);
    }
    if i == 0 {
        return None;
    }
    let mut end: usize = i;
    if i < n && s.get_char(i) == '.' && i + 1 < n {
        let c1 = s.get_char(i + 1);
        if c1 >= '0' && c1 <= '9' {
            let mut j: usize = i + 1;
            while j < n
                invariant
                    i + 1 <= j <= n,
                    n == s@.len(),
                    forall|q: int| i + 1 <= q < j ==> is_digit(#[trigger] s@[q]),
                ensures
                    i + 1 <= j <= n,
                    forall|q: int| i + 1 <= q < j ==> is_digit(#[trigger] s@[q]),
                    j == n || !is_digit(s@[j as int]),
                decreases n - j,
            {
                let c = s.get_char(j);
                if !(c >= '0' && c <= '9') {
                    break;
                }
                j = j + 1;
            }
            proof {
                lemma_digit_run_end_is(s@, i as int + 1, j as int);
            }
            end = j;
        }
    }
    let p = s.substring_char(0, end);
    Some(String::from_str(p))
}

/// Reads the numeric prefix of `s` as an unsigned byte: the value of its
/// digits when the prefix has no fractional part and the value fits,
/// nothing otherwise.
pub open spec fn parse_u8_spec(s: Seq<char>) -> Option<u8> {
    match numeric_prefix_spec(s) {
        None => None,
        Some(p) => if all_digits(p) && digits_value(p) <= 255 {
            Some(digits_value(p) as u8)
        } else {
            None
        },
    }
}

/// Reads the numeric prefix of `s` as a 32-bit integer (the grammar admits
/// no sign, so only nonnegative values arise).
pub open spec fn parse_i32_spec(s: Seq<char>) -> Option<i32> {
    match numeric_prefix_spec(s) {
        None => None,
        Some(p) => if all_digits(p) && digits_value(p) <= 2147483647 {
            Some(digits_value(p) as i32)
        } else {
            None
        },
    }
}

/// The digits of `p` read in base ten, when `p` is all digits and its value
/// is at most `bound`; `None` otherwise.
fn digits_to_u64(p: &str, bound: u64) -> (r: Option<u64>)
    requires
        bound <= 0xffff_ffff,
    ensures
        r matches Some(v) ==> all_digits(p@) && digits_value(p@) == v && v <= bound,
        r is None ==> !(all_digits(p@) && digits_value(p@) <= bound),
{
    let n = p.unicode_len();
    let mut acc: u64 = 0;
    let mut i: usize = 0;
    while i < n
        invariant
            0 <= i <= n,
            n == p@.len(),
            bound <= 0xffff_ffff,
            acc <= bound,
            forall|j: int| 0 <= j < i ==> is_digit(#[trigger] p@[j]),
            acc == digits_value(p@.subrange(0, i as int)),
        decreases n - i,
    {
        let c = p.get_char(i);
        if !(c >= '0' && c <= '9') {
            assert(!is_digit(p@[i as int]));
            return None;
        }
        let d: u64 = (c as u32 - 48) as u64;
        let next = acc * 10 + d;
        proof {
            let q = p@.subrange(0, i as int + 1);
            assert(q.subrange(0, i as int) =~= p@.subrange(0, i as int));
            assert(q[i as int] == p@[i as int]);
            assert(digits_value(q) == acc * 10 + d);
        }
        if next > bound {
            proof {
                if all_digits(p@) {
                    lemma_digits_value_monotone(p@, i as int + 1, p@.len() as int);
                    assert(p@.subrange(0, p@.len() as int) =~= p@);
                    assert(digits_value(p@) >= next > bound);
                }
            }
            return None;
        }
        acc = next;
        i = i + 1;
    }
    proof {
        assert(p@.subrange(0, n as int) =~= p@);
    }
    Some(acc)
}

/// The original's byte-sized read: the longest numeric prefix, taken as an
/// integer exactly when it is a plain digit run whose value fits in a byte.
pub fn parse_u8(s: &str) -> (r: Option<u8>)
    ensures
        r == parse_u8_spec(s@),
{
    match numeric_prefix(s) {
        None => None,
        Some(p) => {
            match digits_to_u64(p.as_str(), 255) {
                Some(v) => Some(v as u8),
                None => None,
            }
        },
    }
}

/// The 32-bit read of the longest numeric prefix.
pub fn parse_i32(s: &str) -> (r: Option<i32>)
    ensures
        r == parse_i32_spec(s@),
{
    match numeric_prefix(s) {
        None => None,
        Some(p) => {
            match digits_to_u64(p.as_str(), 2147483647) {
                Some(v) => Some(v as i32),
                None => None,
            }
        },
    }
}

} // verus!
