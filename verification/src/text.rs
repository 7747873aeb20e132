//! Small string helpers over `char` sequences.

use vstd::prelude::*;

verus! {

/// Appends one character to a string (calls `String::push`).
///
/// Trusted: `String::push` appends the given `char` to the end of the string.
#[verifier::external_body]
pub(crate) fn push_char(s: &mut String, c: char)
    ensures
        final(s)@ == old(s)@.push(c),
{
    s.push(c);
}

/// The characters of a string slice, in order.
pub fn chars_of(s: &str) -> (v: Vec<char>)
    ensures
        v@ == s@,
{
    let mut v: Vec<char> = Vec::new();
    for c in it: s.chars()
        invariant
            v@ == it.seq().take(it.index()),
    {
        v.push(c);
    }
    v
}

/// Builds a string from a sequence of characters.
pub fn string_from_chars(v: &[char]) -> (s: String)
    ensures
        s@ == v@,
{
    let mut s = String::new();
    let n = v.len();
    for i in 0..n
        invariant
            n == v@.len(),
            s@ == v@.take(i as int),
    {
        push_char(&mut s, v[i]);
        assert(v@.take(i + 1) == v@.take(i as int).push(v@[i as int]));
    }
    assert(v@.take(n as int) == v@);
    s
}

/// The first `end` characters of `v`.
pub fn take_chars(v: &[char], end: usize) -> (r: Vec<char>)
    requires
        end <= v@.len(),
    ensures
        r@ == v@.take(end as int),
{
    let mut r: Vec<char> = Vec::new();
    for i in 0..end
        invariant
            end <= v@.len(),
            r@ == v@.take(i as int),
    {
        r.push(v[i]);
        assert(v@.take(i + 1) == v@.take(i as int).push(v@[i as int]));
    }
    r
}

/// The characters of `v` from index `start` on.
pub fn skip_chars(v: &[char], start: usize) -> (r: Vec<char>)
    requires
        start <= v@.len(),
    ensures
        r@ == v@.skip(start as int),
{
    let mut r: Vec<char> = Vec::new();
    let n = v.len();
    for i in start..n
        invariant
            n == v@.len(),
            start <= i <= n,
            r@ == v@.subrange(start as int, i as int),
    {
        r.push(v[i]);
        assert(v@.subrange(start as int, i + 1) == v@.subrange(start as int, i as int).push(v@[i as int]));
    }
    assert(v@.subrange(start as int, n as int) =~= v@.skip(start as int));
    r
}

} // verus!
