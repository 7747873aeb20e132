//! Decimal text of `u32` values: printing as `Display` does, and parsing as
//! `str::parse::<u32>` does (an optional leading `+`, then one or more ASCII digits).

use vstd::prelude::*;
use crate::text::push_char;

verus! {

pub open spec fn is_digit(c: char) -> bool {
    '0' <= c && c <= '9'
}

pub open spec fn digit_value(c: char) -> nat {
    (c as int - 48) as nat
}

pub open spec fn digit_char(d: nat) -> char {
    (d + 48) as char
}

/// The number that a string of decimal digits denotes.
pub open spec fn decimal_value(s: Seq<char>) -> nat
    decreases s.len(),
{
    if s.len() == 0 {
        0
    } else {
        decimal_value(s.drop_last()) * 10 + digit_value(s.last())
    }
}

pub open spec fn all_digits(s: Seq<char>) -> bool {
    forall|i: int| 0 <= i < s.len() ==> is_digit(#[trigger] s[i])
}

/// What `str::parse::<u32>` gives for the text `s`.
pub open spec fn parse_u32(s: Seq<char>) -> Option<u32> {
    let digits = if s.len() > 0 && s[0] == '+' {
        s.drop_first()
    } else {
        s
    };
    if digits.len() > 0 && all_digits(digits) && decimal_value(digits) <= u32::MAX {
        Some(decimal_value(digits) as u32)
    } else {
        None
    }
}

/// The shortest decimal text of `n`, as `Display` prints it.
pub open spec fn decimal_string(n: nat) -> Seq<char>
    decreases n,
{
    if n < 10 {
        seq![digit_char(n)]
    } else {
        decimal_string(n / 10).push(digit_char(n % 10))
    }
}

proof fn lemma_decimal_value_prefix_grows(s: Seq<char>, k: int)
    requires
        0 <= k <= s.len(),
    ensures
        decimal_value(s.take(k)) <= decimal_value(s),
    decreases s.len() - k,
{
    if k < s.len() {
        lemma_decimal_value_prefix_grows(s, k + 1);
        assert(s.take(k + 1).drop_last() =~= s.take(k));
    } else {
        assert(s.take(k) =~= s);
    }
}

/// The decimal text of `n` is all digits, starts with no `+`, and denotes `n`.
pub proof fn lemma_decimal_string(n: nat)
    ensures
        decimal_string(n).len() > 0,
        all_digits(decimal_string(n)),
        decimal_value(decimal_string(n)) == n,
        decimal_string(n)[0] != '+',
        !decimal_string(n).contains(':'),
    decreases n,
{
    if n >= 10 {
        lemma_decimal_string(n / 10);
        let s = decimal_string(n);
        assert(s.drop_last() =~= decimal_string(n / 10));
        assert(digit_value(digit_char(n % 10)) == n % 10);
        assert((n / 10) * 10 + n % 10 == n) by (nonlinear_arith);
        assert(s.last() == digit_char(n % 10));
        assert(decimal_value(s) == decimal_value(decimal_string(n / 10)) * 10 + n % 10);
        assert forall|i: int| 0 <= i < s.len() implies is_digit(#[trigger] s[i]) by {
            if i < s.len() - 1 {
                assert(s[i] == decimal_string(n / 10)[i]);
            }
        }
        if s.contains(':') {
            let i = choose|i: int| 0 <= i < s.len() && s[i] == ':';
            assert(is_digit(s[i]));
        }
    } else {
        let s = decimal_string(n);
        assert(s.drop_last() =~= Seq::<char>::empty());
        assert(digit_value(digit_char(n)) == n);
        assert(decimal_value(s.drop_last()) == 0);
        assert(decimal_value(s) == n);
        if s.contains(':') {
            let i = choose|i: int| 0 <= i < s.len() && s[i] == ':';
            assert(i == 0);
        }
    }
}

/// Reading back the decimal text of a `u32` gives the same number.
pub proof fn lemma_parse_decimal_string(n: u32)
    ensures
        parse_u32(decimal_string(n as nat)) == Some(n),
{
    lemma_decimal_string(n as nat);
}

/// Appends the decimal text of `n` to `s`.
pub fn push_decimal(s: &mut String, n: u32)
    ensures
        final(s)@ == old(s)@ + decimal_string(n as nat),
    decreases n,
{
    if n >= 10 {
        push_decimal(s, n / 10);
    }
    push_char(s, ((n % 10) as u8 + 48) as char);
    assert(final(s)@ =~= old(s)@ + decimal_string(n as nat));
}

/// The decimal text of `n`.
pub fn format_u32(n: u32) -> (s: String)
    ensures
        s@ == decimal_string(n as nat),
{
    let mut s = String::new();
    push_decimal(&mut s, n);
    assert(s@ =~= decimal_string(n as nat));
    s
}

/// Parses decimal text as `str::parse::<u32>` does; `None` where it returns an error.
pub fn parse_u32_chars(s: &[char]) -> (r: Option<u32>)
    ensures
        r == parse_u32(s@),
{
    let n = s.len();
    let start: usize = if n > 0 && s[0] == '+' { 1 } else { 0 };
    let ghost digits = if s@.len() > 0 && s@[0] == '+' { s@.drop_first() } else { s@ };
    assert(digits =~= s@.skip(start as int));
    if start == n {
        return None;
    }
    let mut acc: u32 = 0;
    let mut i: usize = start;
    while i < n
        invariant
            start <= i <= n,
            n == s@.len(),
            digits =~= s@.skip(start as int),
            digits == (if s@.len() > 0 && s@[0] == '+' { s@.drop_first() } else { s@ }),
            all_digits(digits.take(i - start)),
            acc as nat == decimal_value(digits.take(i - start)),
        decreases n - i,
    {
        let c = s[i];
        if !('0' <= c && c <= '9') {
            assert(!is_digit(digits[i - start]));
            assert(!all_digits(digits));
            return None;
        }
        let d: u32 = (c as u32) - 48;
        assert(digits.take(i + 1 - start).drop_last() =~= digits.take(i - start));
        assert(digits.take(i + 1 - start).last() == c);
        assert(digit_value(c) == d);
        assert(decimal_value(digits.take(i + 1 - start)) == acc * 10 + d);
        if acc > (u32::MAX - d) / 10 {
            proof {
                lemma_decimal_value_prefix_grows(digits, i + 1 - start);
                assert(acc * 10 + d > u32::MAX) by (nonlinear_arith)
                    requires acc > (u32::MAX - d) / 10, d <= 9;
            }
            return None;
        }
        acc = acc * 10 + d;
        i = i + 1;
        assert(all_digits(digits.take(i - start))) by {
            assert forall|j: int| 0 <= j < i - start implies is_digit(#[trigger] digits.take(i - start)[j]) by {
                if j < i - 1 - start {
                    assert(digits.take(i - start)[j] == digits.take(i - 1 - start)[j]);
                }
            }
        }
    }
    assert(digits.take(n - start) =~= digits);
    Some(acc)
}

} // verus!
