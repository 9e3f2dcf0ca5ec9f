//! Base-ten arithmetic on runs of digits.

use crate::text::{all_digits, char_is_digit, chars_of, decimal_value, digit_value, is_digit};
use vstd::arithmetic::power::pow;
use vstd::prelude::*;

verus! {

/// Accumulated digit values stop growing here, far above every bound a caller tests.
pub const VALUE_CAP: u128 = 1_000_000_000_000_000_000_000_000_000_000;

/// `n`, or the cap where `n` lies above it.
pub open spec fn capped(n: nat) -> u128 {
    if n > VALUE_CAP {
        VALUE_CAP
    } else {
        n as u128
    }
}

/// The quotient of `n` by `d`, rounded up.
pub open spec fn ceil_div(n: int, d: int) -> int {
    (n + d - 1) / d
}

/// Appending one digit multiplies the value by ten and adds the digit.
pub proof fn lemma_decimal_push(digits: Seq<char>, c: char)
    ensures
        decimal_value(digits.push(c)) == decimal_value(digits) * 10 + digit_value(c),
{
    assert(digits.push(c).drop_last() == digits);
}

/// A run of digits splits into the value of its head, shifted, plus the value of its tail.
pub proof fn lemma_decimal_concat(a: Seq<char>, b: Seq<char>)
    ensures
        decimal_value(a + b) == decimal_value(a) * pow(10, b.len()) + decimal_value(b),
    decreases b.len(),
{
    reveal_with_fuel(pow, 2);
    if b.len() == 0 {
        assert(a + b == a);
        assert(pow(10, 0) == 1);
    } else {
        let front = b.drop_last();
        lemma_decimal_concat(a, front);
        assert((a + b).drop_last() == a + front);
        assert((a + b).last() == b.last());
        let shift = pow(10, front.len());
        assert(pow(10, b.len()) == 10 * shift);
        let head = decimal_value(a) as int;
        assert(head * (10 * shift) == (head * shift) * 10) by (nonlinear_arith);
    }
}

/// A run of `n` digits denotes a number below the `n`-th power of ten.
pub proof fn lemma_decimal_bound(digits: Seq<char>)
    requires
        all_digits(digits),
    ensures
        decimal_value(digits) < pow(10, digits.len()),
    decreases digits.len(),
{
    reveal_with_fuel(pow, 2);
    if digits.len() > 0 {
        let front = digits.drop_last();
        assert forall|i: int| 0 <= i < front.len() implies is_digit(#[trigger] front[i]) by {
            assert(front[i] == digits[i]);
        }
        lemma_decimal_bound(front);
        assert(is_digit(digits[digits.len() - 1]));
        assert(digit_value(digits.last()) <= 9);
        assert(pow(10, digits.len()) == 10 * pow(10, front.len()));
    }
}

/// A run of digits denotes zero exactly when each of its digits is `0`.
pub proof fn lemma_decimal_zero(digits: Seq<char>)
    requires
        all_digits(digits),
    ensures
        decimal_value(digits) == 0 <==> forall|i: int|
            0 <= i < digits.len() ==> #[trigger] digits[i] == '0',
    decreases digits.len(),
{
    if digits.len() > 0 {
        let front = digits.drop_last();
        assert forall|i: int| 0 <= i < front.len() implies is_digit(#[trigger] front[i]) by {
            assert(front[i] == digits[i]);
        }
        lemma_decimal_zero(front);
        assert(is_digit(digits[digits.len() - 1]));
        if decimal_value(digits) == 0 {
            assert(decimal_value(front) == 0);
            assert(digit_value(digits.last()) == 0);
            assert forall|i: int| 0 <= i < digits.len() implies #[trigger] digits[i] == '0' by {
                if i < front.len() {
                    assert(front[i] == digits[i]);
                }
            }
        }
        if forall|i: int| 0 <= i < digits.len() ==> #[trigger] digits[i] == '0' {
            assert forall|i: int| 0 <= i < front.len() implies #[trigger] front[i] == '0' by {
                assert(front[i] == digits[i]);
            }
            assert(digits[digits.len() - 1] == '0');
        }
    }
}

/// The number that the digit `c` stands for.
pub(crate) fn digit_of(c: char) -> (d: u8)
    requires
        is_digit(c),
    ensures
        d == digit_value(c),
        d <= 9,
{
    (c as u32 - '0' as u32) as u8
}

/// The value of the digits of `chars` from `from` up to `to`, stopping at the cap.
pub(crate) fn capped_value(chars: &Vec<char>, from: usize, to: usize) -> (value: u128)
    requires
        from <= to <= chars.len(),
        all_digits(chars@.subrange(from as int, to as int)),
    ensures
        value == capped(decimal_value(chars@.subrange(from as int, to as int))),
{
    let mut value: u128 = 0;
    let mut i: usize = from;
    while i < to
        invariant
            from <= i <= to <= chars.len(),
            all_digits(chars@.subrange(from as int, to as int)),
            value == capped(decimal_value(chars@.subrange(from as int, i as int))),
        decreases to - i,
    {
        let c = chars[i];
        proof {
            let run = chars@.subrange(from as int, to as int);
            assert(run[i - from] == c);
            assert(chars@.subrange(from as int, i + 1) == chars@.subrange(
                from as int,
                i as int,
            ).push(c));
            lemma_decimal_push(chars@.subrange(from as int, i as int), c);
        }
        let d = digit_of(c);
        value = value * 10 + d as u128;
        if value > VALUE_CAP {
            value = VALUE_CAP;
        }
        i += 1;
    }
    value
}

/// Whether a digit other than `0` stands in `chars` from `from` up to `to`.
pub(crate) fn any_nonzero(chars: &Vec<char>, from: usize, to: usize) -> (found: bool)
    requires
        from <= to <= chars.len(),
        all_digits(chars@.subrange(from as int, to as int)),
    ensures
        found == (decimal_value(chars@.subrange(from as int, to as int)) != 0),
{
    let ghost run = chars@.subrange(from as int, to as int);
    proof {
        lemma_decimal_zero(run);
    }
    let mut i: usize = from;
    while i < to
        invariant
            from <= i <= to <= chars.len(),
            run == chars@.subrange(from as int, to as int),
            forall|j: int| 0 <= j < i - from ==> #[trigger] run[j] == '0',
            decimal_value(run) == 0 <==> forall|j: int|
                0 <= j < run.len() ==> #[trigger] run[j] == '0',
        decreases to - i,
    {
        if chars[i] != '0' {
            assert(run[i - from] != '0');
            return true;
        }
        assert(run[i - from] == '0');
        i += 1;
    }
    false
}

/// Whether every character of `chars` from `from` up to `to` is a digit.
pub(crate) fn digits_only(chars: &Vec<char>, from: usize, to: usize) -> (answer: bool)
    requires
        from <= to <= chars.len(),
    ensures
        answer == all_digits(chars@.subrange(from as int, to as int)),
{
    let ghost run = chars@.subrange(from as int, to as int);
    let mut i: usize = from;
    while i < to
        invariant
            from <= i <= to <= chars.len(),
            run == chars@.subrange(from as int, to as int),
            forall|j: int| 0 <= j < i - from ==> is_digit(#[trigger] run[j]),
        decreases to - i,
    {
        if !char_is_digit(chars[i]) {
            assert(!is_digit(run[i - from]));
            return false;
        }
        assert(is_digit(run[i - from]));
        i += 1;
    }
    true
}

/// The integer that `text` denotes: an optional sign, then digits and nothing else.
pub open spec fn signed_decimal(text: Seq<char>) -> Option<int> {
    let signed = text.len() > 0 && (text[0] == '-' || text[0] == '+');
    let digits = if signed {
        text.skip(1)
    } else {
        text
    };
    if digits.len() == 0 || !all_digits(digits) {
        None
    } else if text[0] == '-' {
        Some(-(decimal_value(digits) as int))
    } else {
        Some(decimal_value(digits) as int)
    }
}

/// The integer that `text` denotes, where it is one and fits in an `i64`.
pub open spec fn parsed_i64(text: Seq<char>) -> Option<i64> {
    match signed_decimal(text) {
        Some(n) => if i64::MIN <= n <= i64::MAX {
            Some(n as i64)
        } else {
            None
        },
        None => None,
    }
}

/// Reads a decimal integer with an optional sign, as `str::parse::<i64>` does.
pub fn parse_i64(text: &str) -> (parsed: Option<i64>)
    ensures
        parsed == parsed_i64(text@),
{
    let chars = chars_of(text);
    let n = chars.len();
    let negative = n > 0 && chars[0] == '-';
    let start: usize = if n > 0 && (chars[0] == '-' || chars[0] == '+') {
        1
    } else {
        0
    };
    assert(chars@.subrange(start as int, n as int) == if start == 1 {
        text@.skip(1)
    } else {
        text@
    });
    if start == n || !digits_only(&chars, start, n) {
        return None;
    }
    let amount = capped_value(&chars, start, n);
    if negative {
        if amount > 9_223_372_036_854_775_808u128 {
            None
        } else if amount == 9_223_372_036_854_775_808u128 {
            Some(i64::MIN)
        } else {
            Some(-(amount as i64))
        }
    } else {
        if amount > 9_223_372_036_854_775_807u128 {
            None
        } else {
            Some(amount as i64)
        }
    }
}

} // verus!
