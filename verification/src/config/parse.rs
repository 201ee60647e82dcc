//! Reading configuration values as flags and counts, as `str::parse` does.

use vstd::prelude::*;
use crate::text::same_text;

verus! {

/// `bool::from_str` followed by `unwrap_or(false)`: only "true" reads as true.
pub open spec fn flag_value(v: Seq<char>) -> bool {
    v == "true"@
}

/// Whether `c` is an ASCII decimal digit.
pub open spec fn is_digit(c: char) -> bool {
    '0' <= c <= '9'
}

/// The value of a string of decimal digits.
pub open spec fn digits_value(s: Seq<char>) -> nat
    decreases s.len(),
{
    if s.len() == 0 {
        0
    } else {
        digits_value(s.drop_last()) * 10 + ((s.last() as int) - ('0' as int)) as nat
    }
}

/// The digits of an unsigned number: the text without one optional leading `+`.
pub open spec fn unsigned_digits(v: Seq<char>) -> Seq<char> {
    if v.len() > 0 && v[0] == '+' {
        v.drop_first()
    } else {
        v
    }
}

/// `usize::from_str(v).ok()`: an optional `+`, then at least one decimal digit,
/// and a value that fits in `usize`.
pub open spec fn count_value(v: Seq<char>) -> Option<usize> {
    let d = unsigned_digits(v);
    if d.len() > 0 && (forall|i: int| 0 <= i < d.len() ==> is_digit(#[trigger] d[i])) && digits_value(
        d,
    ) <= usize::MAX {
        Some(digits_value(d) as usize)
    } else {
        None
    }
}

proof fn lemma_digits_value_grows(s: Seq<char>, i: int)
    requires
        0 <= i <= s.len(),
        forall|j: int| 0 <= j < s.len() ==> is_digit(#[trigger] s[j]),
    ensures
        digits_value(s.take(i)) <= digits_value(s),
    decreases s.len() - i,
{
    if i < s.len() {
        lemma_digits_value_grows(s, i + 1);
        assert(s.take(i + 1).drop_last() =~= s.take(i));
    } else {
        assert(s.take(i) =~= s);
    }
}

/// Reads a value as a flag: true for "true", false for anything else.
pub fn parse_flag(v: &str) -> (r: bool)
    ensures
        r == flag_value(v@),
{
    same_text(v, "true")
}

/// Reads a value as a count: `None` unless it is an unsigned decimal number
/// that fits in `usize`.
pub fn parse_count(v: &str) -> (r: Option<usize>)
    ensures
        r == count_value(v@),
{
    let n = v.unicode_len();
    let mut start: usize = 0;
    if n > 0 && v.get_char(0) == '+' {
        start = 1;
    }
    let ghost d = unsigned_digits(v@);
    assert(d =~= v@.skip(start as int));
    if start == n {
        return None;
    }
    let mut acc: usize = 0;
    let mut i: usize = start;
    while i < n
        invariant
            n == v@.len(),
            start <= i <= n,
            d == v@.skip(start as int),
            d == unsigned_digits(v@),
            forall|j: int| 0 <= j < i - start ==> is_digit(#[trigger] d[j]),
            acc == digits_value(d.take(i - start)),
        decreases n - i,
    {
        let c = v.get_char(i);
        assert(d[(i - start) as int] == v@[i as int]);
        if !('0' <= c && c <= '9') {
            assert(!is_digit(d[(i - start) as int]));
            return None;
        }
        let digit = (c as u32 - '0' as u32) as usize;
        let ghost k = (i - start) as int;
        assert(d[k] == c);
        assert(d.take(k + 1).drop_last() =~= d.take(k));
        assert(d.take(k + 1).last() == c);
        assert(digits_value(d.take(k + 1)) == acc * 10 + digit);
        let product = acc.checked_mul(10);
        let sum = match product {
            Some(m) => m.checked_add(digit),
            None => None,
        };
        match sum {
            Some(a) => {
                acc = a;
            },
            None => {
                assert(acc * 10 + digit > usize::MAX);
                proof {
                    if forall|j: int| 0 <= j < d.len() ==> is_digit(#[trigger] d[j]) {
                        lemma_digits_value_grows(d, k + 1);
                    }
                }
                return None;
            },
        }
        i = i + 1;
    }
    assert(d.take(n - start) =~= d);
    Some(acc)
}

} // verus!
