//! Lower-case hexadecimal encoding of byte strings, as digests are printed.

use vstd::prelude::*;
use crate::text::push_char;

verus! {

/// The lower-case hex digit for a nibble `n < 16`.
pub open spec fn hex_digit(n: u8) -> char {
    if n < 10 {
        (n + 48) as char
    } else {
        (n + 87) as char
    }
}

/// Two lower-case hex digits per byte, high nibble first.
pub open spec fn hex_lower(bytes: Seq<u8>) -> Seq<char> {
    Seq::new(
        2 * bytes.len(),
        |i: int|
            if i % 2 == 0 {
                hex_digit(bytes[i / 2] / 16)
            } else {
                hex_digit(bytes[i / 2] % 16)
            },
    )
}

fn digit_of(n: u8) -> (c: char)
    requires
        n < 16,
    ensures
        c == hex_digit(n),
{
    if n < 10 {
        (n + 48) as char
    } else {
        (n + 87) as char
    }
}

/// Encodes `bytes` as lower-case hex.
pub fn to_hex(bytes: &[u8]) -> (s: String)
    requires
        bytes@.len() <= usize::MAX / 2,
    ensures
        s@ == hex_lower(bytes@),
{
    let mut s = String::new();
    let n = bytes.len();
    for i in 0..n
        invariant
            n == bytes@.len(),
            n <= usize::MAX / 2,
            s@ =~= hex_lower(bytes@.take(i as int)),
    {
        let b = bytes[i];
        push_char(&mut s, digit_of(b / 16));
        push_char(&mut s, digit_of(b % 16));
        assert(s@ =~= hex_lower(bytes@.take(i + 1)));
    }
    assert(bytes@.take(n as int) =~= bytes@);
    s
}

} // verus!
