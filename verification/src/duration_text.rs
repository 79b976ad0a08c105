//! The integer-unit text form of elapsed durations used in event records.
//!
//! A duration of `n` nanoseconds is written as its shortest exact unit:
//! `"0s"` for zero, otherwise the largest of `h`, `m`, `s`, `ms`, `us` and `ns`
//! that divides `n`, preceded by the decimal quotient.

use vstd::prelude::*;
use vstd::string::StringExecFns;
use vstd::string::StrSliceExecFns;

use crate::progress::DURATION_MAX_NANOS;

verus! {

/// The character for one decimal digit.
pub open spec fn digit_char(d: int) -> char {
    if d == 0 {
        '0'
    } else if d == 1 {
        '1'
    } else if d == 2 {
        '2'
    } else if d == 3 {
        '3'
    } else if d == 4 {
        '4'
    } else if d == 5 {
        '5'
    } else if d == 6 {
        '6'
    } else if d == 7 {
        '7'
    } else if d == 8 {
        '8'
    } else {
        '9'
    }
}

/// Whether `c` is an ASCII decimal digit.
pub open spec fn is_digit(c: char) -> bool {
    '0' <= c <= '9'
}

/// The value of an ASCII decimal digit.
pub open spec fn digit_value(c: char) -> int {
    (c as int) - ('0' as int)
}

/// The decimal text of `n`, without leading zeros.
pub open spec fn decimal(n: nat) -> Seq<char>
    decreases n,
{
    if n < 10 {
        seq![digit_char(n as int)]
    } else {
        decimal(n / 10).push(digit_char((n % 10) as int))
    }
}

/// The value of a text of decimal digits.
pub open spec fn digits_value(t: Seq<char>) -> nat
    decreases t.len(),
{
    if t.len() == 0 {
        0
    } else {
        (digits_value(t.drop_last()) * 10 + digit_value(t.last())) as nat
    }
}

/// Whether every character of `t` is a decimal digit.
pub open spec fn all_digits(t: Seq<char>) -> bool {
    forall|i: int| 0 <= i < t.len() ==> is_digit(#[trigger] t[i])
}

/// The unit, in nanoseconds, and suffix that a nonzero duration is written in.
pub open spec fn unit_of(n: nat) -> (nat, Seq<char>) {
    if n % 3_600_000_000_000 == 0 {
        (3_600_000_000_000, "h"@)
    } else if n % 60_000_000_000 == 0 {
        (60_000_000_000, "m"@)
    } else if n % 1_000_000_000 == 0 {
        (1_000_000_000, "s"@)
    } else if n % 1_000_000 == 0 {
        (1_000_000, "ms"@)
    } else if n % 1_000 == 0 {
        (1_000, "us"@)
    } else {
        (1, "ns"@)
    }
}

/// The canonical text of a duration of `n` nanoseconds.
pub open spec fn duration_text(n: nat) -> Seq<char> {
    if n == 0 {
        "0s"@
    } else {
        decimal(n / unit_of(n).0) + unit_of(n).1
    }
}

/// Whether `t` ends with `s`.
pub open spec fn ends_with(t: Seq<char>, s: Seq<char>) -> bool {
    t.len() >= s.len() && t.subrange(t.len() - s.len(), t.len() as int) == s
}

/// The suffix length and unit, in nanoseconds, that a duration text names,
/// trying `ms`, `us`, `ns`, `h`, `m` and `s` in that order.
pub open spec fn suffix_unit(t: Seq<char>) -> Option<(int, nat)> {
    if ends_with(t, "ms"@) {
        Some((2, 1_000_000))
    } else if ends_with(t, "us"@) {
        Some((2, 1_000))
    } else if ends_with(t, "ns"@) {
        Some((2, 1))
    } else if ends_with(t, "h"@) {
        Some((1, 3_600_000_000_000))
    } else if ends_with(t, "m"@) {
        Some((1, 60_000_000_000))
    } else if ends_with(t, "s"@) {
        Some((1, 1_000_000_000))
    } else {
        None
    }
}

/// Outcome of reading a duration text: the nanoseconds it denotes, or which
/// of the four messages rejects it.
pub open spec fn parse_duration_spec(t: Seq<char>) -> Result<nat, Seq<char>> {
    match suffix_unit(t) {
        None => Err("elapsed must end in h, m, s, ms, us, or ns"@),
        Some((k, unit)) => {
            let amount = t.subrange(0, t.len() - k);
            if amount.len() == 0 || !all_digits(amount) {
                Err("elapsed amount must be an unsigned integer"@)
            } else if digits_value(amount) > u128::MAX {
                Err("elapsed amount is outside the supported range"@)
            } else if digits_value(amount) * unit > u128::MAX {
                Err("elapsed duration overflows"@)
            } else if (digits_value(amount) * unit) / 1_000_000_000 > u64::MAX {
                Err("elapsed duration overflows"@)
            } else {
                Ok(digits_value(amount) * unit)
            }
        },
    }
}

/// Returns the one-character text of a decimal digit.
fn digit_str(d: u128) -> (s: &'static str)
    requires
        d < 10,
    ensures
        s@ == seq![digit_char(d as int)],
{
    proof {
        reveal_strlit("0");
        reveal_strlit("1");
        reveal_strlit("2");
        reveal_strlit("3");
        reveal_strlit("4");
        reveal_strlit("5");
        reveal_strlit("6");
        reveal_strlit("7");
        reveal_strlit("8");
        reveal_strlit("9");
    }
    if d == 0 {
        "0"
    } else if d == 1 {
        "1"
    } else if d == 2 {
        "2"
    } else if d == 3 {
        "3"
    } else if d == 4 {
        "4"
    } else if d == 5 {
        "5"
    } else if d == 6 {
        "6"
    } else if d == 7 {
        "7"
    } else if d == 8 {
        "8"
    } else {
        "9"
    }
}

/// Appends the decimal text of `n`.
pub(crate) fn append_decimal(out: &mut String, n: u128)
    ensures
        final(out)@ == old(out)@ + decimal(n as nat),
    decreases n,
{
    if n >= 10 {
        append_decimal(out, n / 10);
    }
    out.append(digit_str(n % 10));
    assert(decimal(n as nat) == if n < 10 {
        seq![digit_char(n as int)]
    } else {
        decimal((n / 10) as nat).push(digit_char((n % 10) as int))
    });
}

/// Produces the canonical text of a duration of `nanoseconds`.
pub fn format_duration(nanoseconds: u128) -> (text: String)
    ensures
        text@ == duration_text(nanoseconds as nat),
{
    proof {
        reveal_strlit("0s");
        reveal_strlit("h");
        reveal_strlit("m");
        reveal_strlit("s");
        reveal_strlit("ms");
        reveal_strlit("us");
        reveal_strlit("ns");
    }
    if nanoseconds == 0 {
        return String::from_str("0s");
    }
    let (unit, suffix): (u128, &str) = if nanoseconds % 3_600_000_000_000 == 0 {
        (3_600_000_000_000, "h")
    } else if nanoseconds % 60_000_000_000 == 0 {
        (60_000_000_000, "m")
    } else if nanoseconds % 1_000_000_000 == 0 {
        (1_000_000_000, "s")
    } else if nanoseconds % 1_000_000 == 0 {
        (1_000_000, "ms")
    } else if nanoseconds % 1_000 == 0 {
        (1_000, "us")
    } else {
        (1, "ns")
    };
    let mut text = String::new();
    append_decimal(&mut text, nanoseconds / unit);
    text.append(suffix);
    text
}

/// Tests whether `text`, of `n` characters, ends with `suffix`.
fn ends_with_chars(text: &str, n: usize, suffix: &str) -> (r: bool)
    requires
        n == text@.len(),
    ensures
        r == ends_with(text@, suffix@),
{
    let k = suffix.unicode_len();
    if k > n {
        return false;
    }
    let mut i: usize = 0;
    while i < k
        invariant
            n == text@.len(),
            k == suffix@.len(),
            k <= n,
            i <= k,
            forall|j: int| 0 <= j < i ==> text@[n - k + j] == suffix@[j],
        decreases k - i,
    {
        if text.get_char(n - k + i) != suffix.get_char(i) {
            assert(text@.subrange(n - k, n as int)[i as int] != suffix@[i as int]);
            return false;
        }
        i = i + 1;
    }
    assert(text@.subrange(n - k, n as int) =~= suffix@);
    true
}

/// Builds an owned error message.
fn message(text: &str) -> (r: Result<u128, String>)
    ensures
        r is Err && r->Err_0@ == text@,
{
    Err(String::from_str(text))
}

/// Appending one digit multiplies the value by ten and adds the digit.
proof fn lemma_digits_value_push(t: Seq<char>, c: char)
    requires
        is_digit(c),
    ensures
        digits_value(t.push(c)) == digits_value(t) * 10 + digit_value(c),
{
    assert(t.push(c).drop_last() =~= t);
}

/// The value of a digit text bounds the value of each of its prefixes.
proof fn lemma_digits_value_prefix(t: Seq<char>, k: int)
    requires
        0 <= k <= t.len(),
        all_digits(t),
    ensures
        digits_value(t.subrange(0, k)) <= digits_value(t),
    decreases t.len() - k,
{
    if k < t.len() {
        lemma_digits_value_prefix(t, k + 1);
        assert(t.subrange(0, k + 1) =~= t.subrange(0, k).push(t[k]));
        lemma_digits_value_push(t.subrange(0, k), t[k]);
        assert(is_digit(t[k]));
    } else {
        assert(t.subrange(0, k) =~= t);
    }
}

/// Parses the strict integer-unit duration grammar, returning nanoseconds.
pub fn parse_duration(text: &str) -> (r: Result<u128, String>)
    ensures
        match parse_duration_spec(text@) {
            Ok(n) => r == Ok::<u128, String>(n as u128),
            Err(m) => r is Err && r->Err_0@ == m,
        },
{
    proof {
        reveal_strlit("h");
        reveal_strlit("m");
        reveal_strlit("s");
        reveal_strlit("ms");
        reveal_strlit("us");
        reveal_strlit("ns");
    }
    let n = text.unicode_len();
    let (k, unit): (usize, u128) = if ends_with_chars(text, n, "ms") {
        (2, 1_000_000)
    } else if ends_with_chars(text, n, "us") {
        (2, 1_000)
    } else if ends_with_chars(text, n, "ns") {
        (2, 1)
    } else if ends_with_chars(text, n, "h") {
        (1, 3_600_000_000_000)
    } else if ends_with_chars(text, n, "m") {
        (1, 60_000_000_000)
    } else if ends_with_chars(text, n, "s") {
        (1, 1_000_000_000)
    } else {
        return message("elapsed must end in h, m, s, ms, us, or ns");
    };
    assert(suffix_unit(text@) == Some((k as int, unit as nat)));
    let ghost amount = text@.subrange(0, n - k);
    let len = n - k;
    if len == 0 {
        return message("elapsed amount must be an unsigned integer");
    }
    let mut i: usize = 0;
    while i < len
        invariant
            len == amount.len(),
            amount == text@.subrange(0, len as int),
            n == text@.len(),
            len <= n,
            len == n - k,
            len > 0,
            amount == text@.subrange(0, n - k),
            suffix_unit(text@) == Some((k as int, unit as nat)),
            i <= len,
            forall|j: int| 0 <= j < i ==> is_digit(#[trigger] amount[j]),
        decreases len - i,
    {
        let c = text.get_char(i);
        assert(amount[i as int] == c);
        if !('0' <= c && c <= '9') {
            assert(!is_digit(amount[i as int]));
            return message("elapsed amount must be an unsigned integer");
        }
        i = i + 1;
    }
    assert(all_digits(amount));
    let mut value: u128 = 0;
    let mut i: usize = 0;
    assert(amount.subrange(0, 0) =~= Seq::<char>::empty());
    while i < len
        invariant
            len == amount.len(),
            amount == text@.subrange(0, len as int),
            all_digits(amount),
            n == text@.len(),
            len <= n,
            len == n - k,
            len > 0,
            amount == text@.subrange(0, n - k),
            suffix_unit(text@) == Some((k as int, unit as nat)),
            i <= len,
            value == digits_value(amount.subrange(0, i as int)),
        decreases len - i,
    {
        let c = text.get_char(i);
        assert(amount[i as int] == c);
        assert(is_digit(c));
        let d = (c as u32 - '0' as u32) as u128;
        proof {
            assert(amount.subrange(0, i + 1) =~= amount.subrange(0, i as int).push(c));
            lemma_digits_value_push(amount.subrange(0, i as int), c);
            lemma_digits_value_prefix(amount, i + 1);
        }
        value = match value.checked_mul(10) {
            Some(v) => match v.checked_add(d) {
                Some(v) => v,
                None => {
                    return message("elapsed amount is outside the supported range");
                },
            },
            None => {
                return message("elapsed amount is outside the supported range");
            },
        };
        i = i + 1;
    }
    assert(amount.subrange(0, len as int) =~= amount);
    let nanoseconds = match value.checked_mul(unit) {
        Some(v) => v,
        None => {
            return message("elapsed duration overflows");
        },
    };
    if nanoseconds / 1_000_000_000 > u64::MAX as u128 {
        return message("elapsed duration overflows");
    }
    Ok(nanoseconds)
}

/// The decimal text of a number is a nonempty digit text that denotes it.
proof fn lemma_decimal_denotes(v: nat)
    ensures
        decimal(v).len() > 0,
        all_digits(decimal(v)),
        digits_value(decimal(v)) == v,
    decreases v,
{
    if v < 10 {
        assert(digits_value(decimal(v)) == digits_value(Seq::<char>::empty()) * 10 + digit_value(
            digit_char(v as int),
        )) by {
            assert(decimal(v).drop_last() =~= Seq::<char>::empty());
        }
    } else {
        lemma_decimal_denotes(v / 10);
        let d = digit_char((v % 10) as int);
        assert(is_digit(d));
        lemma_digits_value_push(decimal(v / 10), d);
        vstd::arithmetic::div_mod::lemma_fundamental_div_mod(v as int, 10);
        assert forall|i: int| 0 <= i < decimal(v).len() implies is_digit(#[trigger] decimal(v)[i]) by {
            if i < decimal(v / 10).len() {
                assert(decimal(v)[i] == decimal(v / 10)[i]);
            }
        }
    }
}

/// Reading the canonical text of a duration gives the duration back.
pub proof fn lemma_duration_text_round_trip(n: nat)
    requires
        n <= DURATION_MAX_NANOS,
    ensures
        parse_duration_spec(duration_text(n)) == Ok::<nat, Seq<char>>(n),
{
    reveal_strlit("0s");
    reveal_strlit("h");
    reveal_strlit("m");
    reveal_strlit("s");
    reveal_strlit("ms");
    reveal_strlit("us");
    reveal_strlit("ns");
    let t = duration_text(n);
    let (unit, suffix) = if n == 0 {
        (1_000_000_000nat, "s"@)
    } else {
        unit_of(n)
    };
    let q: nat = if n == 0 {
        0
    } else {
        n / unit
    };
    lemma_decimal_denotes(q);
    let digits = decimal(q);
    if n == 0 {
        assert(digits =~= seq!['0']);
        assert(t =~= digits + suffix);
    } else {
        vstd::arithmetic::div_mod::lemma_fundamental_div_mod(n as int, unit as int);
        assert(n % unit == 0);
        assert(q * unit == n);
    }
    assert(t =~= digits + suffix);
    let last = digits[digits.len() - 1];
    assert(is_digit(last));
    assert(t[digits.len() - 1] == last);
    // The text's last character is the suffix's last, the one before it a
    // digit unless the suffix has two characters.
    assert(suffix_unit(t) == Some((suffix.len() as int, unit))) by {
        if suffix.len() == 1 {
            assert(!ends_with(t, "ms"@)) by {
                if ends_with(t, "ms"@) {
                    assert(t.subrange(t.len() - 2, t.len() as int)[0] == t[t.len() - 2]);
                }
            }
            assert(!ends_with(t, "us"@)) by {
                if ends_with(t, "us"@) {
                    assert(t.subrange(t.len() - 2, t.len() as int)[0] == t[t.len() - 2]);
                }
            }
            assert(!ends_with(t, "ns"@)) by {
                if ends_with(t, "ns"@) {
                    assert(t.subrange(t.len() - 2, t.len() as int)[0] == t[t.len() - 2]);
                }
            }
            assert(t.subrange(t.len() - 1, t.len() as int) =~= suffix);
            if suffix == "m"@ || suffix == "s"@ {
                assert(!ends_with(t, "h"@)) by {
                    if ends_with(t, "h"@) {
                        assert(t.subrange(t.len() - 1, t.len() as int)[0] == t[t.len() - 1]);
                    }
                }
            }
            if suffix == "s"@ {
                assert(!ends_with(t, "m"@)) by {
                    if ends_with(t, "m"@) {
                        assert(t.subrange(t.len() - 1, t.len() as int)[0] == t[t.len() - 1]);
                    }
                }
            }
        } else {
            assert(t.subrange(t.len() - 2, t.len() as int) =~= suffix);
            if suffix == "us"@ || suffix == "ns"@ {
                assert(!ends_with(t, "ms"@)) by {
                    if ends_with(t, "ms"@) {
                        assert(t.subrange(t.len() - 2, t.len() as int)[0] == t[t.len() - 2]);
                    }
                }
            }
            if suffix == "ns"@ {
                assert(!ends_with(t, "us"@)) by {
                    if ends_with(t, "us"@) {
                        assert(t.subrange(t.len() - 2, t.len() as int)[0] == t[t.len() - 2]);
                    }
                }
            }
        }
    }
    assert(t.subrange(0, t.len() - suffix.len()) =~= digits);
    assert(q <= n) by {
        if n != 0 {
            vstd::arithmetic::div_mod::lemma_div_is_ordered_by_denominator(n as int, 1, unit as int);
        }
    }
    assert(n / 1_000_000_000 <= u64::MAX) by {
        vstd::arithmetic::div_mod::lemma_div_is_ordered(
            n as int,
            DURATION_MAX_NANOS as int,
            1_000_000_000,
        );
    }
}

} // verus!
