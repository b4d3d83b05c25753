//! Reading a line of text as a signed 32-bit decimal integer.

use vstd::prelude::*;

verus! {

/// Unicode white space, the characters that are stripped from both ends of a line.
pub open spec fn is_space(c: char) -> bool {
    let n = c as u32;
    (0x09 <= n && n <= 0x0d) || n == 0x20 || n == 0x85 || n == 0xa0 || n == 0x1680 || (0x2000
        <= n && n <= 0x200a) || n == 0x2028 || n == 0x2029 || n == 0x202f || n == 0x205f || n
        == 0x3000
}

/// The text with its leading white space removed.
pub open spec fn trim_start(s: Seq<char>) -> Seq<char>
    decreases s.len(),
{
    if s.len() > 0 && is_space(s[0]) {
        trim_start(s.drop_first())
    } else {
        s
    }
}

/// The text with its trailing white space removed.
pub open spec fn trim_end(s: Seq<char>) -> Seq<char>
    decreases s.len(),
{
    if s.len() > 0 && is_space(s.last()) {
        trim_end(s.drop_last())
    } else {
        s
    }
}

/// The text with white space removed from both ends.
pub open spec fn trimmed(s: Seq<char>) -> Seq<char> {
    trim_end(trim_start(s))
}

pub open spec fn is_digit(c: char) -> bool {
    '0' <= c && c <= '9'
}

/// A non-empty run of ASCII decimal digits.
pub open spec fn all_digits(s: Seq<char>) -> bool {
    s.len() > 0 && forall|i: int| 0 <= i < s.len() ==> is_digit(#[trigger] s[i])
}

/// The number that a run of decimal digits denotes, most significant first.
pub open spec fn digits_value(s: Seq<char>) -> int
    decreases s.len(),
{
    if s.len() == 0 {
        0
    } else {
        digits_value(s.drop_last()) * 10 + (s.last() as int - '0' as int)
    }
}

/// The integer that a text denotes: an optional sign `+` or `-`, then one or more
/// decimal digits, and nothing else.
pub open spec fn integer_value(s: Seq<char>) -> Option<int> {
    if s.len() > 0 && s[0] == '-' && all_digits(s.drop_first()) {
        Some(-digits_value(s.drop_first()))
    } else if s.len() > 0 && s[0] == '+' && all_digits(s.drop_first()) {
        Some(digits_value(s.drop_first()))
    } else if all_digits(s) {
        Some(digits_value(s))
    } else {
        None
    }
}

/// The `i32` that a text denotes, or `None` where it denotes no integer or one
/// that does not fit.
pub open spec fn i32_value(s: Seq<char>) -> Option<i32> {
    match integer_value(s) {
        Some(v) => if i32::MIN <= v && v <= i32::MAX {
            Some(v as i32)
        } else {
            None
        },
        None => None,
    }
}

/// The number that a line of input offers: its text, white space trimmed, read as an `i32`.
pub open spec fn line_value(line: Seq<char>) -> Option<i32> {
    i32_value(trimmed(line))
}

pub fn is_space_char(c: char) -> (r: bool)
    ensures
        r == is_space(c),
{
    let n = c as u32;
    (0x09 <= n && n <= 0x0d) || n == 0x20 || n == 0x85 || n == 0xa0 || n == 0x1680 || (0x2000
        <= n && n <= 0x200a) || n == 0x2028 || n == 0x2029 || n == 0x202f || n == 0x205f || n
        == 0x3000
}


proof fn lemma_digits_value_nonneg(s: Seq<char>)
    requires
        forall|i: int| 0 <= i < s.len() ==> is_digit(#[trigger] s[i]),
    ensures
        digits_value(s) >= 0,
    decreases s.len(),
{
    if s.len() > 0 {
        let p = s.drop_last();
        assert forall|i: int| 0 <= i < p.len() implies is_digit(#[trigger] p[i]) by {
            assert(p[i] == s[i]);
        }
        lemma_digits_value_nonneg(p);
    }
}

/// A run of digits denotes at least what any of its prefixes denotes.
proof fn lemma_digits_value_prefix(s: Seq<char>, k: int)
    requires
        forall|i: int| 0 <= i < s.len() ==> is_digit(#[trigger] s[i]),
        0 <= k <= s.len(),
    ensures
        digits_value(s.take(k)) <= digits_value(s),
    decreases s.len(),
{
    if k < s.len() {
        let p = s.drop_last();
        assert forall|i: int| 0 <= i < p.len() implies is_digit(#[trigger] p[i]) by {
            assert(p[i] == s[i]);
        }
        lemma_digits_value_prefix(p, k);
        lemma_digits_value_nonneg(p);
        assert(p.take(k) =~= s.take(k));
    } else {
        assert(s.take(k) =~= s);
    }
}

/// The magnitude of the digits in `s[a..b]`, where they are all digits and the
/// magnitude is at most that of `i32::MIN`.
fn digits_magnitude(s: &str, a: usize, b: usize) -> (r: Option<u64>)
    requires
        a <= b <= s@.len(),
    ensures
        ({
            let t = s@.subrange(a as int, b as int);
            match r {
                Some(m) => all_digits(t) && m == digits_value(t) && m <= 0x8000_0000,
                None => !all_digits(t) || digits_value(t) > 0x8000_0000,
            }
        }),
{
    let ghost t = s@.subrange(a as int, b as int);
    if a == b {
        return None;
    }
    let mut k: usize = a;
    let mut acc: u64 = 0;
    while k < b
        invariant
            a <= k <= b,
            b <= s@.len(),
            t == s@.subrange(a as int, b as int),
            acc == digits_value(s@.subrange(a as int, k as int)),
            acc <= 0x8000_0000,
            forall|i: int| a <= i < k ==> is_digit(#[trigger] s@[i]),
        decreases b - k,
    {
        let c = s.get_char(k);
        if !('0' <= c && c <= '9') {
            assert(t[k - a] == c);
            return None;
        }
        let d = (c as u32 - '0' as u32) as u64;
        let ghost u = s@.subrange(a as int, k + 1);
        assert(u.drop_last() =~= s@.subrange(a as int, k as int));
        assert(u.last() == c);
        let next = acc * 10 + d;
        if next > 0x8000_0000 {
            proof {
                if all_digits(t) {
                    lemma_digits_value_prefix(t, k + 1 - a);
                    assert(t.take(k + 1 - a) =~= u);
                }
            }
            return None;
        }
        acc = next;
        k += 1;
    }
    assert(s@.subrange(a as int, k as int) =~= t);
    assert forall|i: int| 0 <= i < t.len() implies is_digit(#[trigger] t[i]) by {
        assert(t[i] == s@[a + i]);
    }
    Some(acc)
}

/// The `i32` that `s[lo..hi]` denotes.
fn parse_span(s: &str, lo: usize, hi: usize) -> (r: Option<i32>)
    requires
        lo <= hi <= s@.len(),
    ensures
        r == i32_value(s@.subrange(lo as int, hi as int)),
{
    let ghost t = s@.subrange(lo as int, hi as int);
    if lo == hi {
        return None;
    }
    let first = s.get_char(lo);
    assert(t[0] == first);
    let signed = first == '-' || first == '+';
    let start: usize = if signed {
        lo + 1
    } else {
        lo
    };
    let ghost d = s@.subrange(start as int, hi as int);
    proof {
        if signed {
            assert(d =~= t.drop_first());
            assert(!is_digit(t[0]));
        } else {
            assert(d =~= t);
        }
    }
    match digits_magnitude(s, start, hi) {
        None => None,
        Some(m) => {
            if first == '-' {
                Some((0 - (m as i64)) as i32)
            } else if m <= 0x7fff_ffff {
                Some(m as i32)
            } else {
                None
            }
        },
    }
}

/// Reads a line of input as a number: white space is trimmed from both ends and
/// what remains is read as a signed decimal `i32`; `None` where it is not one.
pub fn parse_number(line: &str) -> (r: Option<i32>)
    ensures
        r == line_value(line@),
{
    let n = line.unicode_len();
    let mut i: usize = 0;
    assert(line@.subrange(0, n as int) =~= line@);
    while i < n && is_space_char(line.get_char(i))
        invariant
            i <= n,
            n == line@.len(),
            trim_start(line@) == trim_start(line@.subrange(i as int, n as int)),
        decreases n - i,
    {
        assert(line@.subrange(i as int, n as int).drop_first() =~= line@.subrange(i + 1, n as int));
        i += 1;
    }
    assert(trim_start(line@) == line@.subrange(i as int, n as int));
    let mut j: usize = n;
    while j > i && is_space_char(line.get_char(j - 1))
        invariant
            i <= j <= n,
            n == line@.len(),
            trimmed(line@) == trim_end(line@.subrange(i as int, j as int)),
        decreases j - i,
    {
        assert(line@.subrange(i as int, j as int).drop_last() =~= line@.subrange(i as int, j - 1));
        j -= 1;
    }
    assert(trimmed(line@) == line@.subrange(i as int, j as int));
    parse_span(line, i, j)
}

} // verus!
