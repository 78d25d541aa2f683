//! Times as they are written in a script: seconds in decimal notation, read
//! as whole microseconds.

use vstd::prelude::*;
use crate::text::Span;

verus! {

/// The largest number of whole seconds whose microseconds can be counted.
pub const MOST_SECONDS: u64 = 18_446_744_073_709;

/// A decimal digit.
pub open spec fn is_digit(c: char) -> bool {
    '0' <= c <= '9'
}

/// The number a digit stands for.
pub open spec fn digit_of(c: char) -> nat {
    (c as int - '0' as int) as nat
}

/// The first position in `from..to` that holds no digit, or `to`.
pub open spec fn digits_end(s: Seq<char>, from: int, to: int) -> int
    decreases to - from,
{
    if from >= to {
        to
    } else if is_digit(s[from]) {
        digits_end(s, from + 1, to)
    } else {
        from
    }
}

/// The number that the digits in `from..to` write.
pub open spec fn whole_value(s: Seq<char>, from: int, to: int) -> nat
    decreases to - from,
{
    if to <= from {
        0
    } else {
        whole_value(s, from, to - 1) * 10 + digit_of(s[to - 1])
    }
}

/// The millionths that the digits in `from..to` write after a decimal point,
/// where the first digit counts `weight` millionths: digits past the sixth
/// count nothing.
pub open spec fn micros_value(s: Seq<char>, from: int, to: int, weight: nat) -> nat
    decreases to - from,
{
    if from >= to || weight == 0 {
        0
    } else {
        digit_of(s[from]) * weight + micros_value(s, from + 1, to, weight / 10)
    }
}

/// The time that `span` writes, in microseconds.
///
/// A time is written as digits, a point and more digits; either run of
/// digits may be missing, not both, and the point may be missing with the
/// second. A plus sign may stand in front. Nothing else is a time: no minus
/// sign, no exponent, no space. Digits past the sixth decimal place are
/// dropped. A time too long to count in microseconds is no time either.
pub open spec fn seconds_as_micros(s: Seq<char>, span: Span) -> Option<u64> {
    let whole_start = if span.start < span.end && s[span.start as int] == '+' {
        span.start + 1
    } else {
        span.start as int
    };
    let whole_end = digits_end(s, whole_start, span.end as int);
    let part_start = if whole_end < span.end && s[whole_end] == '.' {
        whole_end + 1
    } else {
        whole_end
    };
    let part_end = digits_end(s, part_start, span.end as int);
    let micros = whole_value(s, whole_start, whole_end) * 1_000_000 + micros_value(
        s,
        part_start,
        part_end,
        100_000,
    );
    if part_end != span.end || (whole_end - whole_start) + (part_end - part_start) == 0 || micros
        > u64::MAX {
        None
    } else {
        Some(micros as u64)
    }
}

/// A run of digits writes at least what any start of it writes.
pub proof fn lemma_whole_value_grows(s: Seq<char>, from: int, mid: int, to: int)
    requires
        from <= mid <= to,
    ensures
        whole_value(s, from, mid) <= whole_value(s, from, to),
    decreases to - mid,
{
    if mid < to {
        lemma_whole_value_grows(s, from, mid, to - 1);
    }
}

/// The first position in `from..to` that holds no digit, or `to`.
fn scan_digits(s: &Vec<char>, from: usize, to: usize) -> (end: usize)
    requires
        from <= to <= s@.len(),
    ensures
        end == digits_end(s@, from as int, to as int),
        from <= end <= to,
        forall|i: int| from <= i < end ==> is_digit(#[trigger] s@[i]),
{
    let mut end = from;
    while end < to && s[end] >= '0' && s[end] <= '9'
        invariant
            from <= end <= to <= s@.len(),
            digits_end(s@, from as int, to as int) == digits_end(s@, end as int, to as int),
            forall|i: int| from <= i < end ==> is_digit(#[trigger] s@[i]),
        decreases to - end,
    {
        end += 1;
    }
    end
}

/// The number a digit stands for.
fn digit(c: char) -> (value: u64)
    requires
        is_digit(c),
    ensures
        value == digit_of(c),
        value <= 9,
{
    (c as u32 - '0' as u32) as u64
}

/// The number that the digits in `from..to` write, if it is a number of
/// seconds that can be counted in microseconds.
fn read_whole(s: &Vec<char>, from: usize, to: usize) -> (value: Option<u64>)
    requires
        from <= to <= s@.len(),
        forall|i: int| from <= i < to ==> is_digit(#[trigger] s@[i]),
    ensures
        value == if whole_value(s@, from as int, to as int) <= MOST_SECONDS {
            Some(whole_value(s@, from as int, to as int) as u64)
        } else {
            None
        },
{
    let mut value: u64 = 0;
    let mut at = from;
    while at < to
        invariant
            from <= at <= to <= s@.len(),
            forall|i: int| from <= i < to ==> is_digit(#[trigger] s@[i]),
            value == whole_value(s@, from as int, at as int),
            value <= MOST_SECONDS,
        decreases to - at,
    {
        let next = value * 10 + digit(s[at]);
        if next > MOST_SECONDS {
            proof {
                lemma_whole_value_grows(s@, from as int, at + 1, to as int);
            }
            return None;
        }
        value = next;
        at += 1;
    }
    Some(value)
}

/// The millionths that the digits in `from..to` write after a decimal point.
fn read_micros(s: &Vec<char>, from: usize, to: usize) -> (value: u64)
    requires
        from <= to <= s@.len(),
        forall|i: int| from <= i < to ==> is_digit(#[trigger] s@[i]),
    ensures
        value == micros_value(s@, from as int, to as int, 100_000),
        value < 1_000_000,
{
    let mut value: u64 = 0;
    let mut weight: u64 = 100_000;
    let mut at = from;
    while at < to && weight > 0
        invariant
            from <= at <= to <= s@.len(),
            forall|i: int| from <= i < to ==> is_digit(#[trigger] s@[i]),
            micros_value(s@, from as int, to as int, 100_000) == value + micros_value(
                s@,
                at as int,
                to as int,
                weight as nat,
            ),
            value + 10 * weight <= 1_000_000,
            value < 1_000_000,
        decreases to - at,
    {
        let d = digit(s[at]);
        assert(d * weight <= 9 * weight) by (nonlinear_arith)
            requires
                d <= 9,
                weight >= 0,
        ;
        value = value + d * weight;
        weight = weight / 10;
        at += 1;
    }
    value
}

/// The time that `span` writes, in microseconds.
pub fn parse_seconds(s: &Vec<char>, span: Span) -> (time: Option<u64>)
    requires
        span.fits(s@.len()),
    ensures
        time == seconds_as_micros(s@, span),
{
    let whole_start = if span.start < span.end && s[span.start] == '+' {
        span.start + 1
    } else {
        span.start
    };
    let whole_end = scan_digits(s, whole_start, span.end);
    let part_start = if whole_end < span.end && s[whole_end] == '.' {
        whole_end + 1
    } else {
        whole_end
    };
    let part_end = scan_digits(s, part_start, span.end);
    if part_end != span.end || (whole_end - whole_start) + (part_end - part_start) == 0 {
        return None;
    }
    let whole = match read_whole(s, whole_start, whole_end) {
        Some(whole) => whole,
        None => {
            return None;
        },
    };
    let part = read_micros(s, part_start, part_end);
    let micros: u128 = whole as u128 * 1_000_000 + part as u128;
    if micros > u64::MAX as u128 {
        None
    } else {
        Some(micros as u64)
    }
}

} // verus!
