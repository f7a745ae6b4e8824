//! Runs of ASCII decimal digits and the numbers they write.

use vstd::prelude::*;

verus! {

/// Whether `c` is one of the ten ASCII digits.
pub open spec fn is_digit(c: char) -> bool {
    '0' <= c && c <= '9'
}

/// The number that the digit `c` stands for.
pub open spec fn digit_value(c: char) -> nat
    recommends
        is_digit(c),
{
    (c as int - '0' as int) as nat
}

/// Whether every character of `s` is an ASCII digit.
pub open spec fn all_digits(s: Seq<char>) -> bool {
    forall|i: int| 0 <= i < s.len() ==> is_digit(#[trigger] s[i])
}

/// The number that `s` writes in base ten, most significant digit first.
pub open spec fn decimal_value(s: Seq<char>) -> nat
    decreases s.len(),
{
    if s.len() == 0 {
        0
    } else {
        decimal_value(s.drop_last()) * 10 + digit_value(s.last())
    }
}

/// The number written by `s`, where `s` is a non-empty run of ASCII digits.
pub open spec fn decimal_number(s: Seq<char>) -> Option<nat> {
    if s.len() > 0 && all_digits(s) {
        Some(decimal_value(s))
    } else {
        None
    }
}

/// The number written by `s` where it is one that a `usize` holds.
pub open spec fn machine_number(s: Seq<char>) -> Option<usize> {
    match decimal_number(s) {
        Some(v) => if v <= usize::MAX {
            Some(v as usize)
        } else {
            None
        },
        None => None,
    }
}

/// The first index at or after `from` at which `s` holds no ASCII digit; the
/// length of `s` where digits run to its end.
pub open spec fn digits_end(s: Seq<char>, from: int) -> int
    decreases s.len() - from,
{
    if 0 <= from < s.len() && is_digit(s[from]) {
        digits_end(s, from + 1)
    } else {
        from
    }
}

/// The smaller of `a` and `b`.
pub open spec fn least(a: int, b: int) -> int {
    if a <= b {
        a
    } else {
        b
    }
}

/// Tells whether `c` is an ASCII digit.
pub fn is_ascii_digit(c: char) -> (r: bool)
    ensures
        r == is_digit(c),
{
    '0' <= c && c <= '9'
}

/// The value of the ASCII digit `c`.
pub(crate) fn digit_of(c: char) -> (d: usize)
    requires
        is_digit(c),
    ensures
        d == digit_value(c),
        d <= 9,
{
    (c as u32 - '0' as u32) as usize
}

/// A longer run of digits writes a number at least as large as any of its
/// prefixes.
pub proof fn lemma_value_of_prefix(s: Seq<char>, n: int)
    requires
        0 <= n <= s.len(),
    ensures
        decimal_value(s.take(n)) <= decimal_value(s),
    decreases s.len() - n,
{
    if n == s.len() {
        assert(s.take(n) == s);
    } else {
        lemma_value_of_prefix(s, n + 1);
        assert(s.take(n + 1).drop_last() == s.take(n));
    }
}

/// Reads the digits of `digits[from..to]` as a number, stopping at `cap`:
/// the result is the number written there, or `cap` where that number is
/// larger.
pub(crate) fn read_capped(digits: &Vec<char>, from: usize, to: usize, cap: usize) -> (r: usize)
    requires
        from <= to <= digits.len(),
        all_digits(digits@.subrange(from as int, to as int)),
        cap <= usize::MAX / 10 - 1,
    ensures
        r == least(decimal_value(digits@.subrange(from as int, to as int)) as int, cap as int),
{
    let ghost run = digits@.subrange(from as int, to as int);
    let mut value: usize = 0;
    let mut i: usize = from;
    while i < to
        invariant
            from <= i <= to <= digits.len(),
            run == digits@.subrange(from as int, to as int),
            all_digits(run),
            cap <= usize::MAX / 10 - 1,
            value == least(decimal_value(run.take(i - from)) as int, cap as int),
        decreases to - i,
    {
        let c = digits[i];
        proof {
            assert(run[i - from] == c);
            assert(run.take(i - from + 1).drop_last() == run.take(i - from));
            assert(run.take(i - from + 1).last() == c);
        }
        let d = digit_of(c);
        let next = value * 10 + d;
        value = if next > cap { cap } else { next };
        i = i + 1;
    }
    proof {
        assert(run.take(to - from) == run);
    }
    value
}

/// Reads `digits[from..to]` as a number that must fit a `usize`.
///
/// The answer is `Some` exactly where the range is a non-empty run of ASCII
/// digits whose number is at most `usize::MAX`, and then holds that number.
pub fn read_number(digits: &Vec<char>, from: usize, to: usize) -> (r: Option<usize>)
    requires
        from <= to <= digits.len(),
    ensures
        r == machine_number(digits@.subrange(from as int, to as int)),
{
    let ghost run = digits@.subrange(from as int, to as int);
    if from == to {
        return None;
    }
    let mut value: usize = 0;
    let mut i: usize = from;
    while i < to
        invariant
            from <= i <= to <= digits.len(),
            run == digits@.subrange(from as int, to as int),
            all_digits(run.take(i - from)),
            value == decimal_value(run.take(i - from)),
        decreases to - i,
    {
        let c = digits[i];
        proof {
            assert(run[i - from] == c);
            assert(run.take(i - from + 1).drop_last() == run.take(i - from));
            assert(run.take(i - from + 1).last() == c);
        }
        if !is_ascii_digit(c) {
            return None;
        }
        let d = digit_of(c);
        if value > (usize::MAX - d) / 10 {
            proof {
                lemma_value_of_prefix(run, i - from + 1);
            }
            return None;
        }
        value = value * 10 + d;
        proof {
            assert forall|k: int| 0 <= k < i - from + 1 implies is_digit(
                #[trigger] run.take(i - from + 1)[k],
            ) by {
                if k < i - from {
                    assert(run.take(i - from)[k] == run[k]);
                }
            }
        }
        i = i + 1;
    }
    proof {
        assert(run.take(to - from) == run);
    }
    Some(value)
}

/// Walks over the digits that start at `from` and returns where they end.
pub fn skip_digits(chars: &Vec<char>, from: usize) -> (end: usize)
    requires
        from <= chars.len(),
    ensures
        end == digits_end(chars@, from as int),
        from <= end <= chars.len(),
        all_digits(chars@.subrange(from as int, end as int)),
        end < chars.len() ==> !is_digit(chars@[end as int]),
{
    let mut i: usize = from;
    while i < chars.len() && is_ascii_digit(chars[i])
        invariant
            from <= i <= chars.len(),
            digits_end(chars@, from as int) == digits_end(chars@, i as int),
            all_digits(chars@.subrange(from as int, i as int)),
        decreases chars.len() - i,
    {
        proof {
            assert forall|k: int| 0 <= k < i + 1 - from implies is_digit(
                #[trigger] chars@.subrange(from as int, i + 1)[k],
            ) by {
                if k < i - from {
                    assert(chars@.subrange(from as int, i as int)[k] == chars@[from + k]);
                }
            }
        }
        i = i + 1;
    }
    i
}

} // verus!
