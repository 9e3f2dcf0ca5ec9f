//! Parsers for Kubernetes resource quantities: CPU to millicores, memory to bytes.

use crate::decimal::{
    any_nonzero, capped_value, ceil_div, digits_only, lemma_decimal_bound, lemma_decimal_concat,
    VALUE_CAP,
};
use crate::text::{
    all_digits, alphabetic, char_is_digit, chars_of, decimal_value, is_alphabetic, is_digit,
    lowercase, to_lowercase,
};
use vstd::arithmetic::div_mod::{lemma_div_is_ordered, lemma_fundamental_div_mod_converse};
use vstd::arithmetic::power::{lemma_pow_adds, lemma_pow_positive, pow};
use vstd::prelude::*;

verus! {

/// The ASCII digits of `text`, in order.
pub open spec fn digits_of(text: Seq<char>) -> Seq<char> {
    text.filter(|c: char| is_digit(c))
}

/// The ASCII digits and decimal points of `text`, in order.
pub open spec fn number_of(text: Seq<char>) -> Seq<char> {
    text.filter(|c: char| is_digit(c) || c == '.')
}

/// The alphabetic characters of `text`, in order.
pub open spec fn letters_of(text: Seq<char>) -> Seq<char> {
    text.filter(|c: char| alphabetic(c))
}

/// `n` brought into the range of `i32`.
pub open spec fn saturate_i32(n: int) -> i32 {
    if n > i32::MAX {
        i32::MAX
    } else if n < i32::MIN {
        i32::MIN
    } else {
        n as i32
    }
}

/// `n` brought into the range of `i64`.
pub open spec fn saturate_i64(n: int) -> i64 {
    if n > i64::MAX {
        i64::MAX
    } else if n < i64::MIN {
        i64::MIN
    } else {
        n as i64
    }
}

/// Whether `text` is a decimal number whose point stands at index `p`:
/// digits on both sides, at least one digit in all.
pub open spec fn is_point_at(text: Seq<char>, p: int) -> bool {
    &&& 0 <= p < text.len()
    &&& text[p] == '.'
    &&& text.len() > 1
    &&& all_digits(text.take(p))
    &&& all_digits(text.skip(p + 1))
}

/// The whole and the fraction digits of a decimal number such as `12`, `0.5`, `.5` or `5.`;
/// `None` for any other text.
pub open spec fn decimal_parts(text: Seq<char>) -> Option<(Seq<char>, Seq<char>)> {
    if text.len() > 0 && all_digits(text) {
        Some((text, Seq::empty()))
    } else if exists|p: int| is_point_at(text, p) {
        let p = choose|p: int| is_point_at(text, p);
        Some((text.take(p), text.skip(p + 1)))
    } else {
        None
    }
}

/// What one unit of a CPU quantity divides its digits by to give millicores:
/// `m` is millicores, `u` microcores, `n` and everything else nanocores.
pub open spec fn cpu_divisor(unit: Seq<char>) -> int {
    if unit == "m"@ {
        1
    } else if unit == "u"@ {
        1000
    } else {
        1_000_000
    }
}

/// Millicores of a CPU quantity given as number text and unit text.
///
/// Text that is no decimal number counts as zero. A magnitude below one, or a
/// number without a unit, is a count of cores: a thousand millicores each,
/// rounded up. Otherwise the digits of the number, read without the point, are
/// divided by what the unit says, rounded up. The result stops at `i32::MAX`.
pub open spec fn cpu_millis(value: Seq<char>, unit: Seq<char>) -> i32 {
    match decimal_parts(value) {
        None => 0i32,
        Some((whole, fraction)) => {
            let digits = decimal_value(whole + fraction) as int;
            let scale = pow(10, fraction.len());
            if digits < scale || unit.len() == 0 {
                saturate_i32(ceil_div(digits * 1000, scale))
            } else {
                saturate_i32(ceil_div(digits, cpu_divisor(unit)))
            }
        },
    }
}

/// Whether the unit of a CPU quantity, given as number text and unit text, is
/// read and not known: the number is a decimal number of magnitude one or
/// more, there is a unit, and it is none of `m`, `u` and `n`. Such a quantity
/// is counted in nanocores.
pub open spec fn cpu_unit_unknown(value: Seq<char>, unit: Seq<char>) -> bool {
    match decimal_parts(value) {
        None => false,
        Some((whole, fraction)) => {
            let digits = decimal_value(whole + fraction) as int;
            let scale = pow(10, fraction.len());
            &&& digits >= scale
            &&& unit.len() > 0
            &&& unit != "m"@
            &&& unit != "u"@
            &&& unit != "n"@
        },
    }
}

/// Whether the unit of a CPU quantity as written is read and not known.
pub open spec fn cpu_quantity_unit_unknown(text: Seq<char>) -> bool {
    cpu_unit_unknown(number_of(text), letters_of(text))
}

/// How many bytes one unit of a memory quantity holds, by its lower-case name.
/// A name that is not in the table counts like `ki`.
pub open spec fn memory_multiplier(unit: Seq<char>) -> int {
    if unit == ""@ {
        1
    } else if unit == "ki"@ {
        1024
    } else if unit == "mi"@ {
        1_048_576
    } else if unit == "gi"@ {
        1_073_741_824
    } else if unit == "ti"@ {
        1_099_511_627_776
    } else if unit == "k"@ {
        1000
    } else if unit == "m"@ {
        1_000_000
    } else if unit == "g"@ {
        1_000_000_000
    } else {
        1024
    }
}

/// Bytes of a memory quantity given as digit text and lower-case unit text.
///
/// Digit text that is empty, holds anything but digits, or denotes more than
/// `i64::MAX` counts as zero. The product stops at `i64::MAX`.
pub open spec fn memory_bytes(value: Seq<char>, unit: Seq<char>) -> i64 {
    if value.len() == 0 || !all_digits(value) || decimal_value(value) > i64::MAX {
        0
    } else {
        saturate_i64(decimal_value(value) * memory_multiplier(unit))
    }
}

/// Millicores of a CPU quantity as written: its digits and decimal points are
/// the number, its letters the unit.
pub open spec fn cpu_quantity_millis(text: Seq<char>) -> i32 {
    cpu_millis(number_of(text), letters_of(text))
}

/// Bytes of a memory quantity as written: its digits are the amount, its
/// letters, in lower case, the unit.
pub open spec fn memory_quantity_bytes(text: Seq<char>) -> i64 {
    memory_bytes(digits_of(text), lowercase(letters_of(text)))
}

/// Filtering a sequence that ends in `x` filters the front and then decides on `x`.
pub proof fn lemma_filter_push<A>(s: Seq<A>, x: A, pred: spec_fn(A) -> bool)
    ensures
        s.push(x).filter(pred) == if pred(x) {
            s.filter(pred).push(x)
        } else {
            s.filter(pred)
        },
{
    reveal(Seq::filter);
    assert(s.push(x).drop_last() == s);
}

/// Splits a quantity into its number characters and its letters. The number
/// characters are the digits, and the decimal points too where `keep_point` is set.
pub fn split_quantity(text: &str, keep_point: bool) -> (parts: (Vec<char>, Vec<char>))
    ensures
        parts.0@ == if keep_point {
            number_of(text@)
        } else {
            digits_of(text@)
        },
        parts.1@ == letters_of(text@),
{
    let chars = chars_of(text);
    let mut number: Vec<char> = Vec::new();
    let mut letters: Vec<char> = Vec::new();
    let mut i: usize = 0;
    proof {
        reveal(Seq::filter);
        assert(chars@.take(0) == Seq::<char>::empty());
    }
    while i < chars.len()
        invariant
            i <= chars.len(),
            number@ == if keep_point {
                number_of(chars@.take(i as int))
            } else {
                digits_of(chars@.take(i as int))
            },
            letters@ == letters_of(chars@.take(i as int)),
        decreases chars.len() - i,
    {
        let c = chars[i];
        proof {
            let before = chars@.take(i as int);
            assert(chars@.take(i + 1) == before.push(c));
            lemma_filter_push(before, c, |c: char| is_digit(c));
            lemma_filter_push(before, c, |c: char| is_digit(c) || c == '.');
            lemma_filter_push(before, c, |c: char| alphabetic(c));
        }
        if char_is_digit(c) || (keep_point && c == '.') {
            number.push(c);
        }
        if is_alphabetic(c) {
            letters.push(c);
        }
        i += 1;
    }
    assert(chars@.take(i as int) == chars@);
    (number, letters)
}

/// Where the first character that is no digit stands, only that index can hold
/// the decimal point of the text.
proof fn lemma_first_non_digit(text: Seq<char>, p: int)
    requires
        0 <= p < text.len(),
        all_digits(text.take(p)),
        !is_digit(text[p]),
    ensures
        !all_digits(text),
        forall|q: int| is_point_at(text, q) ==> q == p,
{
    assert forall|q: int| is_point_at(text, q) implies q == p by {
        if q < p {
            assert(text.take(p)[q] == text[q]);
        } else if q > p {
            assert(text.take(q)[p] == text[p]);
        }
    }
}

/// The arithmetic behind a count of cores: with the fraction digits split after
/// the third, a thousand times the number, rounded up, is a thousand times the
/// whole part, plus the first three fraction digits, plus one for any digit
/// other than `0` behind them.
proof fn lemma_core_millis(whole: Seq<char>, fraction: Seq<char>, m: int)
    requires
        all_digits(whole),
        all_digits(fraction),
        m == if fraction.len() < 3 {
            fraction.len() as int
        } else {
            3
        },
    ensures
        pow(10, fraction.len()) > 0,
        decimal_value(whole + fraction) < pow(10, fraction.len()) <==> decimal_value(whole) == 0,
        decimal_value(fraction.take(m)) < pow(10, m as nat) <= 1000,
        pow(10, m as nat) * pow(10, (3 - m) as nat) == 1000,
        pow(10, (3 - m) as nat) > 0,
        ceil_div((decimal_value(whole + fraction) * 1000) as int, pow(10, fraction.len()))
            == decimal_value(whole) * 1000 + decimal_value(fraction.take(m)) * pow(
            10,
            (3 - m) as nat,
        ) + if decimal_value(fraction.skip(m)) != 0 {
            1int
        } else {
            0int
        },
{
    let head = fraction.take(m);
    let rest = fraction.skip(m);
    let w = decimal_value(whole) as int;
    let f = decimal_value(fraction) as int;
    let h = decimal_value(head) as int;
    let r = decimal_value(rest) as int;
    let d = decimal_value(whole + fraction) as int;
    let s = pow(10, fraction.len());
    let t = pow(10, rest.len());
    let q = pow(10, m as nat);
    let u = pow(10, (3 - m) as nat);
    assert(fraction == head + rest);
    assert forall|i: int| 0 <= i < head.len() implies is_digit(#[trigger] head[i]) by {
        assert(head[i] == fraction[i]);
    }
    assert forall|i: int| 0 <= i < rest.len() implies is_digit(#[trigger] rest[i]) by {
        assert(rest[i] == fraction[i + m]);
    }
    lemma_decimal_concat(whole, fraction);
    lemma_decimal_concat(head, rest);
    lemma_decimal_bound(fraction);
    lemma_decimal_bound(head);
    lemma_decimal_bound(rest);
    lemma_pow_positive(10, fraction.len());
    lemma_pow_positive(10, rest.len());
    lemma_pow_adds(10, m as nat, rest.len());
    lemma_pow_adds(10, m as nat, (3 - m) as nat);
    lemma_pow_positive(10, (3 - m) as nat);
    reveal_with_fuel(pow, 4);
    assert(pow(10, 3) == 1000);
    assert(q * u == 1000);
    assert(s == q * t);
    assert(d == w * s + f);
    assert(f == h * t + r);
    assert(0 <= f < s);
    assert(0 <= r < t);
    assert(d < s <==> w == 0) by (nonlinear_arith)
        requires
            d == w * s + f,
            0 <= f < s,
            0 <= w,
    ;
    let base = w * 1000 + h * u;
    if fraction.len() < 3 {
        assert(rest.len() == 0);
        assert(t == 1);
        assert(r == 0);
        assert(f == h && s == q);
        assert(h * 1000 == (h * u) * s) by (nonlinear_arith)
            requires
                s * u == 1000,
        ;
        assert(d * 1000 + s - 1 == base * s + (s - 1)) by (nonlinear_arith)
            requires
                d == w * s + h,
                h * 1000 == (h * u) * s,
                base == w * 1000 + h * u,
        ;
        lemma_fundamental_div_mod_converse(d * 1000 + s - 1, s, base, s - 1);
    } else {
        assert(q == 1000);
        assert(u == 1);
        if r == 0 {
            assert(d * 1000 + s - 1 == base * s + (s - 1)) by (nonlinear_arith)
                requires
                    d == w * s + f,
                    f == h * t + r,
                    r == 0,
                    s == 1000 * t,
                    u == 1,
                    base == w * 1000 + h * u,
            ;
            lemma_fundamental_div_mod_converse(d * 1000 + s - 1, s, base, s - 1);
        } else {
            assert(d * 1000 + s - 1 == (base + 1) * s + (r * 1000 - 1)) by (nonlinear_arith)
                requires
                    d == w * s + f,
                    f == h * t + r,
                    s == 1000 * t,
                    u == 1,
                    base == w * 1000 + h * u,
            ;
            assert(0 <= r * 1000 - 1 < s) by (nonlinear_arith)
                requires
                    0 < r < t,
                    s == 1000 * t,
            ;
            lemma_fundamental_div_mod_converse(d * 1000 + s - 1, s, base + 1, r * 1000 - 1);
        }
    }
}

/// Appends the characters of `source` from `from` up to `to` to `target`.
fn append_range(target: &mut Vec<char>, source: &Vec<char>, from: usize, to: usize)
    requires
        from <= to <= source.len(),
    ensures
        final(target)@ == old(target)@ + source@.subrange(from as int, to as int),
{
    let mut i: usize = from;
    assert(source@.subrange(from as int, from as int) == Seq::<char>::empty());
    while i < to
        invariant
            from <= i <= to <= source.len(),
            target@ == old(target)@ + source@.subrange(from as int, i as int),
        decreases to - i,
    {
        assert(source@.subrange(from as int, i + 1) == source@.subrange(
            from as int,
            i as int,
        ).push(source@[i as int]));
        target.push(source[i]);
        i += 1;
    }
}

/// What the digits of a CPU quantity are divided by, for its unit.
fn divisor_of(unit: &Vec<char>) -> (divisor: u128)
    ensures
        divisor == cpu_divisor(unit@),
{
    proof {
        reveal_strlit("m");
        reveal_strlit("u");
    }
    if unit.len() == 1 && unit[0] == 'm' {
        assert(unit@ =~= "m"@);
        1
    } else if unit.len() == 1 && unit[0] == 'u' {
        assert(unit@ =~= "u"@);
        1000
    } else {
        1_000_000
    }
}

/// Finds where the whole digits of a decimal number end and where its fraction
/// digits begin; `None` where the text is no decimal number.
fn locate_parts(value: &Vec<char>) -> (found: Option<(usize, usize)>)
    ensures
        match found {
            None => decimal_parts(value@) is None,
            Some((whole_end, fraction_start)) => {
                &&& whole_end <= fraction_start <= value.len()
                &&& all_digits(value@.subrange(0, whole_end as int))
                &&& all_digits(value@.subrange(fraction_start as int, value.len() as int))
                &&& decimal_parts(value@) == Some(
                    (
                        value@.subrange(0, whole_end as int),
                        value@.subrange(fraction_start as int, value.len() as int),
                    ),
                )
            },
        },
{
    let n = value.len();
    let mut p: usize = 0;
    assert(value@.take(0) == Seq::<char>::empty());
    while p < n && char_is_digit(value[p])
        invariant
            p <= n,
            n == value.len(),
            all_digits(value@.take(p as int)),
        decreases n - p,
    {
        assert(value@.take(p + 1) == value@.take(p as int).push(value@[p as int]));
        p += 1;
    }
    assert(value@.take(p as int) == value@.subrange(0, p as int));
    if p == n {
        assert(value@.take(n as int) == value@);
        if n == 0 {
            return None;
        }
        assert(value@.subrange(n as int, n as int) == Seq::<char>::empty());
        Some((n, n))
    } else {
        proof {
            lemma_first_non_digit(value@, p as int);
        }
        if value[p] != '.' || n == 1 || !digits_only(value, p + 1, n) {
            return None;
        }
        assert(value@.skip(p + 1) == value@.subrange(p + 1, n as int));
        assert(is_point_at(value@, p as int));
        Some((p, p + 1))
    }
}

/// A thousand times the decimal number whose whole digits end at `whole_end`
/// and whose fraction digits begin at `fraction_start`, rounded up.
fn core_millis(value: &Vec<char>, whole_end: usize, fraction_start: usize) -> (millis: i32)
    requires
        whole_end <= fraction_start <= value.len(),
        all_digits(value@.subrange(0, whole_end as int)),
        all_digits(value@.subrange(fraction_start as int, value.len() as int)),
    ensures
        millis == saturate_i32(
            ceil_div(
                (decimal_value(
                    value@.subrange(0, whole_end as int) + value@.subrange(
                        fraction_start as int,
                        value.len() as int,
                    ),
                ) * 1000) as int,
                pow(10, (value.len() - fraction_start) as nat),
            ),
        ),
{
    let n = value.len();
    let ghost whole = value@.subrange(0, whole_end as int);
    let ghost fraction = value@.subrange(fraction_start as int, n as int);
    let k = n - fraction_start;
    let m: usize = if k < 3 {
        k
    } else {
        3
    };
    proof {
        lemma_core_millis(whole, fraction, m as int);
        assert(fraction.take(m as int) == value@.subrange(
            fraction_start as int,
            fraction_start + m,
        ));
        assert(fraction.skip(m as int) == value@.subrange(fraction_start + m, n as int));
    }
    let whole_value = capped_value(value, 0, whole_end);
    if whole_value > 2_147_483 {
        return i32::MAX;
    }
    let head = capped_value(value, fraction_start, fraction_start + m);
    let tail = any_nonzero(value, fraction_start + m, n);
    assert(head == decimal_value(fraction.take(m as int)) && head < 1000);
    let thousandths: u128 = if m == 0 {
        0
    } else if m == 1 {
        head * 100
    } else if m == 2 {
        head * 10
    } else {
        head
    };
    assert(thousandths == decimal_value(fraction.take(m as int)) * pow(10, (3 - m) as nat)) by {
        reveal_with_fuel(pow, 4);
    }
    let total: u128 = whole_value * 1000 + thousandths + if tail {
        1u128
    } else {
        0u128
    };
    if total > 2_147_483_647 {
        i32::MAX
    } else {
        total as i32
    }
}

/// The digits of a decimal number, read without the point and divided by what
/// `unit` says, rounded up.
fn unit_millis(value: &Vec<char>, whole_end: usize, fraction_start: usize, unit: &Vec<char>) -> (millis:
    i32)
    requires
        whole_end <= fraction_start <= value.len(),
        all_digits(value@.subrange(0, whole_end as int)),
        all_digits(value@.subrange(fraction_start as int, value.len() as int)),
    ensures
        millis == saturate_i32(
            ceil_div(
                decimal_value(
                    value@.subrange(0, whole_end as int) + value@.subrange(
                        fraction_start as int,
                        value.len() as int,
                    ),
                ) as int,
                cpu_divisor(unit@),
            ),
        ),
{
    let n = value.len();
    let ghost whole = value@.subrange(0, whole_end as int);
    let ghost fraction = value@.subrange(fraction_start as int, n as int);
    let mut digits: Vec<char> = Vec::new();
    append_range(&mut digits, value, 0, whole_end);
    append_range(&mut digits, value, fraction_start, n);
    assert(digits@ == whole + fraction);
    assert(digits@.subrange(0, digits.len() as int) == digits@);
    let amount = capped_value(&digits, 0, digits.len());
    let divisor = divisor_of(unit);
    let quotient = (amount + divisor - 1) / divisor;
    proof {
        let exact = decimal_value(whole + fraction) as int;
        if exact > VALUE_CAP {
            lemma_div_is_ordered(VALUE_CAP + divisor - 1, exact + divisor - 1, divisor as int);
        }
    }
    if quotient > 2_147_483_647 {
        i32::MAX
    } else {
        quotient as i32
    }
}

/// Millicores of a CPU quantity whose number and unit are given as characters.
pub fn cpu_millis_of(value: &Vec<char>, unit: &Vec<char>) -> (millis: i32)
    ensures
        millis == cpu_millis(value@, unit@),
{
    match locate_parts(value) {
        None => 0,
        Some((whole_end, fraction_start)) => {
            let whole_value = capped_value(value, 0, whole_end);
            proof {
                let whole = value@.subrange(0, whole_end as int);
                let fraction = value@.subrange(fraction_start as int, value.len() as int);
                let m: int = if fraction.len() < 3 {
                    fraction.len() as int
                } else {
                    3
                };
                lemma_core_millis(whole, fraction, m);
            }
            if whole_value == 0 || unit.len() == 0 {
                core_millis(value, whole_end, fraction_start)
            } else {
                unit_millis(value, whole_end, fraction_start, unit)
            }
        },
    }
}

/// Whether the unit of a CPU quantity, given as characters, is read and not known.
pub fn cpu_unit_unknown_of(value: &Vec<char>, unit: &Vec<char>) -> (unknown: bool)
    ensures
        unknown == cpu_unit_unknown(value@, unit@),
{
    match locate_parts(value) {
        None => false,
        Some((whole_end, fraction_start)) => {
            let whole_value = capped_value(value, 0, whole_end);
            proof {
                let whole = value@.subrange(0, whole_end as int);
                let fraction = value@.subrange(fraction_start as int, value.len() as int);
                let m: int = if fraction.len() < 3 {
                    fraction.len() as int
                } else {
                    3
                };
                lemma_core_millis(whole, fraction, m);
                reveal_strlit("m");
                reveal_strlit("u");
                reveal_strlit("n");
            }
            if whole_value == 0 || unit.len() == 0 {
                false
            } else if unit.len() == 1 && (unit[0] == 'm' || unit[0] == 'u' || unit[0] == 'n') {
                assert(unit@ =~= "m"@ || unit@ =~= "u"@ || unit@ =~= "n"@);
                false
            } else {
                true
            }
        },
    }
}

/// Whether the unit of a CPU quantity such as `5k` is read and not known, so
/// that the quantity is counted in nanocores for want of a better reading.
pub fn has_unknown_cpu_unit(cpu: &str) -> (unknown: bool)
    ensures
        unknown == cpu_quantity_unit_unknown(cpu@),
{
    let (number, letters) = split_quantity(cpu, true);
    cpu_unit_unknown_of(&number, &letters)
}

/// Millicores of a CPU quantity given as number text and unit text.
pub fn cpu_millis_from_parts(value: &str, unit: &str) -> (millis: i32)
    ensures
        millis == cpu_millis(value@, unit@),
{
    let value_chars = chars_of(value);
    let unit_chars = chars_of(unit);
    cpu_millis_of(&value_chars, &unit_chars)
}

/// Millicores of a CPU quantity such as `500m`, `2` or `123456789n`.
///
/// The digits and decimal points of the text are its number and its letters
/// its unit; every other character is passed over.
pub fn convert_cpu_usage_to_milli(cpu: &str) -> (millis: i32)
    ensures
        millis == cpu_quantity_millis(cpu@),
{
    let (number, letters) = split_quantity(cpu, true);
    cpu_millis_of(&number, &letters)
}

/// Bytes in one unit of memory, by the unit's lower-case name.
fn multiplier_of(unit: &Vec<char>) -> (multiplier: i64)
    ensures
        multiplier == memory_multiplier(unit@),
{
    proof {
        reveal_strlit("");
        reveal_strlit("ki");
        reveal_strlit("mi");
        reveal_strlit("gi");
        reveal_strlit("ti");
        reveal_strlit("k");
        reveal_strlit("m");
        reveal_strlit("g");
    }
    let n = unit.len();
    if n == 0 {
        assert(unit@ =~= ""@);
        1
    } else if n == 1 {
        let c = unit[0];
        if c == 'k' {
            assert(unit@ =~= "k"@);
            1000
        } else if c == 'm' {
            assert(unit@ =~= "m"@);
            1_000_000
        } else if c == 'g' {
            assert(unit@ =~= "g"@);
            1_000_000_000
        } else {
            1024
        }
    } else if n == 2 && unit[1] == 'i' {
        let c = unit[0];
        if c == 'k' {
            assert(unit@ =~= "ki"@);
            1024
        } else if c == 'm' {
            assert(unit@ =~= "mi"@);
            1_048_576
        } else if c == 'g' {
            assert(unit@ =~= "gi"@);
            1_073_741_824
        } else if c == 't' {
            assert(unit@ =~= "ti"@);
            1_099_511_627_776
        } else {
            1024
        }
    } else {
        1024
    }
}

/// Bytes of a memory quantity whose digits and lower-case unit are given as characters.
pub fn memory_bytes_of(value: &Vec<char>, unit: &Vec<char>) -> (bytes: i64)
    ensures
        bytes == memory_bytes(value@, unit@),
{
    let n = value.len();
    assert(value@.subrange(0, n as int) == value@);
    if n == 0 || !digits_only(value, 0, n) {
        return 0;
    }
    let amount = capped_value(value, 0, n);
    if amount > 9_223_372_036_854_775_807u128 {
        return 0;
    }
    let multiplier = multiplier_of(unit);
    assert(0 < multiplier <= 1_099_511_627_776);
    let product: u128 = amount * (multiplier as u128);
    if product > 9_223_372_036_854_775_807u128 {
        i64::MAX
    } else {
        product as i64
    }
}

/// Bytes of a memory quantity given as digit text and lower-case unit text.
pub fn memory_bytes_from_parts(value: &str, unit: &str) -> (bytes: i64)
    ensures
        bytes == memory_bytes(value@, unit@),
{
    let value_chars = chars_of(value);
    let unit_chars = chars_of(unit);
    memory_bytes_of(&value_chars, &unit_chars)
}

/// Bytes of a memory quantity such as `128Mi` or `500k`.
///
/// The digits of the text are its amount and its letters, in lower case, its
/// unit; every other character is passed over.
pub fn convert_memory_usage_to_bytes(memory: &str) -> (bytes: i64)
    ensures
        bytes == memory_quantity_bytes(memory@),
{
    let (digits, letters) = split_quantity(memory, false);
    let unit = to_lowercase(&letters);
    memory_bytes_of(&digits, &unit)
}

/// Whether a value is negative, and so left out when a record is written.
pub fn skip_serializing_int64(n: &i64) -> (skip: bool)
    ensures
        skip == (*n < 0),
{
    *n < 0
}

/// Whether a value is negative, and so left out when a record is written.
pub fn skip_serializing_int32(n: &i32) -> (skip: bool)
    ensures
        skip == (*n < 0),
{
    *n < 0
}

} // verus!
