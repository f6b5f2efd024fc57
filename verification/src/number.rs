//! Integers in decimal notation: how they are written and how they are
//! read, and that reading what was written gives the number back.

use crate::text::to_chars;
use vstd::prelude::*;

verus! {

/// The character for a digit.
pub open spec fn digit(d: int) -> char {
    if d == 0 {
        '0'
    } else if d == 1 {
        '1'
    } else if d == 2 {
        '2'
    } else if d == 3 {
        '3'
    } else if d == 4 {
        '4'
    } else if d == 5 {
        '5'
    } else if d == 6 {
        '6'
    } else if d == 7 {
        '7'
    } else if d == 8 {
        '8'
    } else {
        '9'
    }
}

/// The decimal digits of a natural number, without leading zeros.
pub open spec fn digits(n: nat) -> Seq<char>
    decreases n,
{
    if n < 10 {
        seq![digit(n as int)]
    } else {
        digits(n / 10).push(digit((n % 10) as int))
    }
}

/// An integer in decimal notation, with `-` before a negative one.
pub open spec fn decimal(n: int) -> Seq<char> {
    if n < 0 {
        seq!['-'] + digits((-n) as nat)
    } else {
        digits(n as nat)
    }
}

/// Whether `c` is one of the digits `0` to `9`.
pub open spec fn is_digit(c: char) -> bool {
    '0' <= c <= '9'
}

/// The number that a text of digits stands for.
pub open spec fn number_value(s: Seq<char>) -> nat
    decreases s.len(),
{
    if s.len() == 0 {
        0
    } else {
        (number_value(s.drop_last()) * 10 + (s.last() as int - '0' as int)) as nat
    }
}

/// Whether `s` holds digits only.
pub open spec fn all_digits(s: Seq<char>) -> bool {
    forall|i: int| 0 <= i < s.len() ==> is_digit(#[trigger] s[i])
}

/// The integer that a text stands for: an optional `+` or `-`, then at least
/// one digit and nothing but digits, and a value that fits into 64 bits.
pub open spec fn parse_integer(s: Seq<char>) -> Option<i64> {
    let signed = s.len() > 0 && (s[0] == '-' || s[0] == '+');
    let body = if signed {
        s.skip(1)
    } else {
        s
    };
    let value = if signed && s[0] == '-' {
        -(number_value(body) as int)
    } else {
        number_value(body) as int
    };
    if body.len() == 0 || !all_digits(body) || value < i64::MIN || value > i64::MAX {
        None
    } else {
        Some(value as i64)
    }
}

/// A longer text of digits stands for a number that is at least as large.
pub proof fn lemma_number_value_grows(s: Seq<char>, k: int)
    requires
        0 <= k <= s.len(),
        all_digits(s),
    ensures
        number_value(s.take(k)) <= number_value(s),
    decreases s.len() - k,
{
    if k < s.len() {
        let next = s.take(k + 1);
        assert(next.drop_last() =~= s.take(k));
        assert(next.last() == s[k]);
        assert(is_digit(s[k]));
        lemma_number_value_grows(s, k + 1);
    } else {
        assert(s.take(k) =~= s);
    }
}

/// The decimal digits of a number are digits, there is at least one, and
/// they stand for the number.
pub proof fn lemma_digits(n: nat)
    ensures
        digits(n).len() >= 1,
        all_digits(digits(n)),
        number_value(digits(n)) == n,
    decreases n,
{
    if n >= 10 {
        lemma_digits(n / 10);
        let init = digits(n / 10);
        let d = digit((n % 10) as int);
        assert(digits(n).drop_last() =~= init);
        assert(digits(n).last() == d);
        assert(d as int - '0' as int == n % 10);
        assert forall|i: int| 0 <= i < digits(n).len() implies is_digit(#[trigger] digits(n)[i]) by {
            if i < init.len() {
                assert(digits(n)[i] == init[i]);
            }
        }
    } else {
        let d = digit(n as int);
        assert(digits(n).drop_last() =~= Seq::<char>::empty());
        assert(digits(n).last() == d);
        assert(d as int - '0' as int == n);
        assert(number_value(Seq::<char>::empty()) == 0);
    }
}

/// Decimal notation holds digits and, in front of a negative number, the
/// sign `-`; nothing else.
pub proof fn lemma_decimal_chars(n: int)
    ensures
        decimal(n).len() >= 1,
        forall|i: int|
            0 <= i < decimal(n).len() ==> is_digit(#[trigger] decimal(n)[i]) || (i == 0 && n < 0
                && decimal(n)[i] == '-'),
{
    if n < 0 {
        lemma_digits((-n) as nat);
        let body = digits((-n) as nat);
        assert forall|i: int| 0 <= i < decimal(n).len() implies is_digit(#[trigger] decimal(n)[i])
            || (i == 0 && n < 0 && decimal(n)[i] == '-') by {
            if i > 0 {
                assert(decimal(n)[i] == body[i - 1]);
            }
        }
    } else {
        lemma_digits(n as nat);
    }
}

/// Reading what was written in decimal notation gives the number back.
pub proof fn lemma_parse_decimal(n: i64)
    ensures
        parse_integer(decimal(n as int)) == Some(n),
{
    let s = decimal(n as int);
    if n < 0 {
        let body = digits((-n) as nat);
        lemma_digits((-n) as nat);
        assert(s[0] == '-');
        assert(s.skip(1) =~= body);
    } else {
        lemma_digits(n as nat);
        assert(is_digit(s[0]));
    }
}

fn digit_char(d: u64) -> (c: char)
    requires
        d < 10,
    ensures
        c == digit(d as int),
{
    if d == 0 {
        '0'
    } else if d == 1 {
        '1'
    } else if d == 2 {
        '2'
    } else if d == 3 {
        '3'
    } else if d == 4 {
        '4'
    } else if d == 5 {
        '5'
    } else if d == 6 {
        '6'
    } else if d == 7 {
        '7'
    } else if d == 8 {
        '8'
    } else {
        '9'
    }
}

/// Appends the decimal digits of `n` to `s`.
pub fn push_digits(s: &mut String, n: u64)
    ensures
        final(s)@ == old(s)@ + digits(n as nat),
    decreases n,
{
    if n >= 10 {
        push_digits(s, n / 10);
    }
    s.push(digit_char(n % 10));
    assert(final(s)@ =~= old(s)@ + digits(n as nat));
}

/// Appends `n` in decimal notation to `s`.
pub fn push_decimal(s: &mut String, n: i64)
    ensures
        final(s)@ == old(s)@ + decimal(n as int),
{
    if n < 0 {
        s.push('-');
        let magnitude: u64 = (-(n as i128)) as u64;
        push_digits(s, magnitude);
        assert(final(s)@ =~= old(s)@ + decimal(n as int));
    } else {
        push_digits(s, n as u64);
    }
}

/// Reads an integer.
pub fn parse_i64(s: &str) -> (r: Option<i64>)
    ensures
        r == parse_integer(s@),
{
    let cs = to_chars(s);
    assert(cs@.subrange(0, cs@.len() as int) =~= cs@);
    parse_range(cs.as_slice(), 0, cs.len())
}

/// Reads an integer from the characters `cs[from..to]`.
#[verifier::loop_isolation(false)]
fn parse_range(cs: &[char], from: usize, to: usize) -> (r: Option<i64>)
    requires
        from <= to <= cs@.len(),
    ensures
        r == parse_integer(cs@.subrange(from as int, to as int)),
{
    let ghost s = cs@.subrange(from as int, to as int);
    let signed = from < to && (cs[from] == '-' || cs[from] == '+');
    let negative = signed && cs[from] == '-';
    let start: usize = if signed {
        from + 1
    } else {
        from
    };
    let ghost body = cs@.subrange(start as int, to as int);
    proof {
        if signed {
            assert(s[0] == cs@[from as int]);
            assert(body =~= s.skip(1));
        } else {
            if from < to {
                assert(s[0] == cs@[from as int]);
            }
            assert(body =~= s);
        }
    }
    if start == to {
        return None;
    }
    let mut i: usize = start;
    while i < to
        invariant
            start <= i <= to <= cs@.len(),
            body == cs@.subrange(start as int, to as int),
            forall|j: int| 0 <= j < i - start ==> is_digit(#[trigger] body[j]),
        decreases to - i,
    {
        let c = cs[i];
        if !('0' <= c && c <= '9') {
            assert(body[i - start] == c);
            return None;
        }
        i += 1;
    }
    assert(all_digits(body));
    let limit: u128 = 9223372036854775808;
    let mut value: u128 = 0;
    let mut k: usize = start;
    assert(body.take(0) =~= Seq::<char>::empty());
    while k < to
        invariant
            start <= k <= to <= cs@.len(),
            body == cs@.subrange(start as int, to as int),
            all_digits(body),
            value == number_value(body.take(k - start)),
            value <= limit,
            limit == 9223372036854775808,
        decreases to - k,
    {
        let c = cs[k];
        proof {
            let next = body.take(k - start + 1);
            assert(next.drop_last() =~= body.take(k - start));
            assert(next.last() == c);
            assert(is_digit(body[k - start]));
        }
        value = value * 10 + ((c as u32 - '0' as u32) as u128);
        if value > limit {
            proof {
                lemma_number_value_grows(body, k - start + 1);
            }
            return None;
        }
        k += 1;
    }
    assert(body.take(to - start) =~= body);
    if negative {
        Some((-(value as i128)) as i64)
    } else if value == limit {
        None
    } else {
        Some(value as i64)
    }
}

} // verus!
