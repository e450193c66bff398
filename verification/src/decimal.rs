//! Unsigned decimal numbers: reading them as `str::parse` does for the
//! unsigned integer types, and writing them as `Display` does.

use vstd::prelude::*;
use crate::text::to_chars;

verus! {

/// An ASCII decimal digit.
pub open spec fn is_digit(c: char) -> bool {
    '0' <= c && c <= '9'
}

/// The number a decimal digit stands for.
pub open spec fn digit_value(c: char) -> nat {
    (c as u32 - '0' as u32) as nat
}

/// The digit that stands for a number below ten.
pub open spec fn digit_char(d: nat) -> char {
    (d + '0' as u32) as char
}

/// Every character is a decimal digit.
pub open spec fn all_digits(s: Seq<char>) -> bool {
    forall|i: int| 0 <= i < s.len() ==> is_digit(#[trigger] s[i])
}

/// The number that a sequence of digits denotes, most significant digit first.
pub open spec fn digits_value(s: Seq<char>) -> nat
    decreases s.len(),
{
    if s.len() == 0 {
        0
    } else {
        10 * digits_value(s.drop_last()) + digit_value(s.last())
    }
}

/// The number a string denotes: an optional `+`, then one or more digits and
/// nothing else. Every other string denotes no number.
pub open spec fn decimal_value(s: Seq<char>) -> Option<nat> {
    let digits = if s.len() > 0 && s[0] == '+' {
        s.drop_first()
    } else {
        s
    };
    if digits.len() > 0 && all_digits(digits) {
        Some(digits_value(digits))
    } else {
        None
    }
}

/// The number a string denotes, if it denotes one that is at most `max`.
pub open spec fn bounded_value(s: Seq<char>, max: nat) -> Option<nat> {
    match decimal_value(s) {
        Some(v) => if v <= max {
            Some(v)
        } else {
            None
        },
        None => None,
    }
}

/// What `str::parse::<u32>` makes of a string, with the error dropped.
pub open spec fn spec_parse_u32(s: Seq<char>) -> Option<u32> {
    match bounded_value(s, u32::MAX as nat) {
        Some(v) => Some(v as u32),
        None => None,
    }
}

/// What `str::parse::<u64>` makes of a string, with the error dropped.
pub open spec fn spec_parse_u64(s: Seq<char>) -> Option<u64> {
    match bounded_value(s, u64::MAX as nat) {
        Some(v) => Some(v as u64),
        None => None,
    }
}

/// The decimal digits of a number, without sign or leading zeros.
pub open spec fn decimal_digits(n: nat) -> Seq<char>
    decreases n,
{
    if n < 10 {
        seq![digit_char(n)]
    } else {
        decimal_digits(n / 10).push(digit_char(n % 10))
    }
}

/// A prefix of a digit string denotes no more than the whole string.
pub proof fn lemma_digits_value_prefix(s: Seq<char>, k: int)
    requires
        0 <= k <= s.len(),
    ensures
        digits_value(s.take(k)) <= digits_value(s),
    decreases s.len() - k,
{
    if k == s.len() {
        assert(s.take(k) =~= s);
    } else {
        lemma_digits_value_prefix(s.drop_last(), k);
        assert(s.drop_last().take(k) =~= s.take(k));
    }
}

/// Writing a number and reading it back gives the number again.
pub proof fn lemma_decimal_round_trip(n: nat)
    ensures
        decimal_digits(n).len() > 0,
        all_digits(decimal_digits(n)),
        digits_value(decimal_digits(n)) == n,
        decimal_value(decimal_digits(n)) == Some(n),
    decreases n,
{
    let s = decimal_digits(n);
    if n < 10 {
        assert(s.drop_last() =~= Seq::<char>::empty());
        assert(digits_value(s.drop_last()) == 0);
        assert(s.last() == digit_char(n));
    } else {
        lemma_decimal_round_trip(n / 10);
        let init = decimal_digits(n / 10);
        assert(s.drop_last() =~= init);
        assert(s.last() == digit_char(n % 10));
        assert forall|i: int| 0 <= i < s.len() implies is_digit(#[trigger] s[i]) by {
            if i < init.len() {
                assert(s[i] == init[i]);
            }
        }
    }
    assert(s[0] != '+');
}

/// Reads the characters `chars[from..to]` as a decimal number of at most `max`.
pub(crate) fn parse_range(chars: &Vec<char>, from: usize, to: usize, max: u64) -> (r: Option<u64>)
    requires
        from <= to <= chars.len(),
    ensures
        match bounded_value(chars@.subrange(from as int, to as int), max as nat) {
            Some(v) => r == Some(v as u64),
            None => r is None,
        },
{
    let ghost s = chars@.subrange(from as int, to as int);
    let mut i: usize = from;
    if i < to && chars[i] == '+' {
        i = i + 1;
    }
    let start: usize = i;
    let ghost digits = chars@.subrange(start as int, to as int);
    proof {
        if start > from {
            assert(s[0] == '+');
            assert(s.drop_first() =~= digits);
        } else {
            assert(s =~= digits);
            if s.len() > 0 {
                assert(s[0] == chars@[from as int]);
            }
        }
    }
    if i == to {
        return None;
    }
    assert(decimal_value(s) == if all_digits(digits) {
        Some(digits_value(digits))
    } else {
        None
    });
    let mut acc: u64 = 0;
    while i < to
        invariant
            from <= start <= i <= to <= chars.len(),
            s == chars@.subrange(from as int, to as int),
            digits == chars@.subrange(start as int, to as int),
            decimal_value(s) == if all_digits(digits) {
                Some(digits_value(digits))
            } else {
                None
            },
            all_digits(digits.take(i - start)),
            acc == digits_value(digits.take(i - start)),
            acc <= max,
        decreases to - i,
    {
        let c: char = chars[i];
        proof {
            assert(digits[i - start] == c);
            assert(digits.take(i - start + 1).drop_last() =~= digits.take(i - start));
            assert(digits.take(i - start + 1).last() == c);
        }
        if !('0' <= c && c <= '9') {
            assert(!is_digit(digits[i - start]));
            return None;
        }
        let d: u64 = (c as u32 - '0' as u32) as u64;
        if d > max || acc > (max - d) / 10 {
            proof {
                if all_digits(digits) {
                    lemma_digits_value_prefix(digits, i - start + 1);
                    assert(digits_value(digits.take(i - start + 1)) == 10 * acc + d);
                }
            }
            return None;
        }
        acc = acc * 10 + d;
        i = i + 1;
        proof {
            assert forall|j: int| 0 <= j < i - start implies is_digit(
                #[trigger] digits.take(i - start)[j],
            ) by {
                if j < i - start - 1 {
                    assert(digits.take(i - start)[j] == digits.take(i - start - 1)[j]);
                }
            }
        }
    }
    proof {
        assert(digits.take(to - start) =~= digits);
    }
    Some(acc)
}

/// Reads a string as `str::parse::<u32>` does: `None` where that fails.
pub fn parse_u32(s: &str) -> (r: Option<u32>)
    ensures
        r == spec_parse_u32(s@),
{
    let chars = to_chars(s);
    assert(chars@.subrange(0, chars.len() as int) =~= s@);
    match parse_range(&chars, 0, chars.len(), 0xffff_ffff) {
        Some(v) => Some(v as u32),
        None => None,
    }
}

/// Reads a string as `str::parse::<u64>` does: `None` where that fails.
pub fn parse_u64(s: &str) -> (r: Option<u64>)
    ensures
        r == spec_parse_u64(s@),
{
    let chars = to_chars(s);
    assert(chars@.subrange(0, chars.len() as int) =~= s@);
    parse_range(&chars, 0, chars.len(), 0xffff_ffff_ffff_ffff)
}

/// The one-character string for a digit.
fn digit_str(d: u64) -> (s: &'static str)
    requires
        d < 10,
    ensures
        s@ == seq![digit_char(d as nat)],
{
    proof {
        reveal_strlit("0");
        reveal_strlit("1");
        reveal_strlit("2");
        reveal_strlit("3");
        reveal_strlit("4");
        reveal_strlit("5");
        reveal_strlit("6");
        reveal_strlit("7");
        reveal_strlit("8");
        reveal_strlit("9");
    }
    let s = if d == 0 {
        "0"
    } else if d == 1 {
        "1"
    } else if d == 2 {
        "2"
    } else if d == 3 {
        "3"
    } else if d == 4 {
        "4"
    } else if d == 5 {
        "5"
    } else if d == 6 {
        "6"
    } else if d == 7 {
        "7"
    } else if d == 8 {
        "8"
    } else {
        "9"
    };
    assert(s@ =~= seq![digit_char(d as nat)]);
    s
}

/// Appends the decimal digits of `n` to `out`.
pub fn append_decimal(out: &mut String, n: u64)
    ensures
        final(out)@ == old(out)@ + decimal_digits(n as nat),
    decreases n,
{
    if n >= 10 {
        append_decimal(out, n / 10);
    }
    out.append(digit_str(n % 10));
    assert(final(out)@ =~= old(out)@ + decimal_digits(n as nat));
}

/// The decimal digits of `n` as a string, as `u64::to_string` writes them.
pub fn u64_to_decimal(n: u64) -> (s: String)
    ensures
        s@ == decimal_digits(n as nat),
{
    let mut s = String::new();
    append_decimal(&mut s, n);
    assert(s@ =~= decimal_digits(n as nat));
    s
}

} // verus!
